//! The build-time plan for linking against the engine and regenerating its
//! call stubs.
//!
//! Static linkage needs exact, fragile agreement between the engine artifact,
//! its transitive native dependencies, and the search path, so the plan is
//! computed here with every emitted line pinned down: the directive list is a
//! function of the search path alone, with a fixed, engine-defined order. The
//! build step that prints the directives, runs the stub generator on the
//! header, and writes the generated module is outside work; it executes this
//! plan verbatim.

use vstd::prelude::*;
use vstd::string::*;

verus! {

/// The directive that adds `path` to the native library search path.
pub open spec fn search_directive_spec(path: Seq<char>) -> Seq<char> {
    "cargo:rustc-link-search=native="@ + path
}

/// The directive that links the static library `name`.
pub open spec fn static_lib_directive_spec(name: Seq<char>) -> Seq<char> {
    "cargo:rustc-link-lib=static="@ + name
}

/// The directive that links the native library `name` with the default kind.
pub open spec fn shared_lib_directive_spec(name: Seq<char>) -> Seq<char> {
    "cargo:rustc-link-lib="@ + name
}

/// The engine's own artifact name, linked statically.
pub open spec fn engine_lib_name() -> Seq<char> {
    "transfer_engine"@
}

/// Where the compiled engine artifact lives, relative to the build.
pub open spec fn engine_search_path_spec() -> Seq<char> {
    "../../../build/mooncake-transfer-engine/src"@
}

/// Where the engine's C-compatible header lives, relative to the build.
pub open spec fn engine_header_path_spec() -> Seq<char> {
    "../../include/transfer_engine_c.h"@
}

/// The file name the generated stub module is written under, inside the
/// build output directory.
pub open spec fn bindings_file_name_spec() -> Seq<char> {
    "bindings.rs"@
}

/// The complete, ordered list of linker directives: the search path, the
/// engine artifact itself, then each transitive native dependency (the C++
/// runtime, the verbs networking library, logging, flag parsing, threading,
/// JSON, NUMA awareness, and the distributed-coordination client), in the
/// fixed order static linkage requires.
pub open spec fn link_directives_spec(search_path: Seq<char>) -> Seq<Seq<char>> {
    seq![
        search_directive_spec(search_path),
        static_lib_directive_spec(engine_lib_name()),
        shared_lib_directive_spec("stdc++"@),
        shared_lib_directive_spec("ibverbs"@),
        shared_lib_directive_spec("glog"@),
        shared_lib_directive_spec("gflags"@),
        shared_lib_directive_spec("pthread"@),
        shared_lib_directive_spec("jsoncpp"@),
        shared_lib_directive_spec("numa"@),
        shared_lib_directive_spec("etcd-cpp-api"@),
    ]
}

/// Builds the search-path directive for `path`.
pub fn search_directive(path: &str) -> (r: String)
    ensures
        r@ == search_directive_spec(path@),
{
    let mut s: String = "cargo:rustc-link-search=native=".to_owned();
    s.append(path);
    s
}

/// Builds the static-linkage directive for the library `name`.
pub fn static_lib_directive(name: &str) -> (r: String)
    ensures
        r@ == static_lib_directive_spec(name@),
{
    let mut s: String = "cargo:rustc-link-lib=static=".to_owned();
    s.append(name);
    s
}

/// Builds the default-kind linkage directive for the library `name`.
pub fn shared_lib_directive(name: &str) -> (r: String)
    ensures
        r@ == shared_lib_directive_spec(name@),
{
    let mut s: String = "cargo:rustc-link-lib=".to_owned();
    s.append(name);
    s
}

/// The search path the engine artifact is expected under.
pub fn engine_search_path() -> (r: &'static str)
    ensures
        r@ == engine_search_path_spec(),
{
    "../../../build/mooncake-transfer-engine/src"
}

/// The path of the engine's header, the stub generator's input.
pub fn engine_header_path() -> (r: &'static str)
    ensures
        r@ == engine_header_path_spec(),
{
    "../../include/transfer_engine_c.h"
}

/// The file name the generated stub module is written under.
pub fn bindings_file_name() -> (r: &'static str)
    ensures
        r@ == bindings_file_name_spec(),
{
    "bindings.rs"
}

/// Emits the full directive list for an engine artifact under `search_path`:
/// exactly `link_directives_spec(search_path)`, line for line and in order.
pub fn link_directives(search_path: &str) -> (r: Vec<String>)
    ensures
        r@.len() == link_directives_spec(search_path@).len(),
        forall|i: int|
            0 <= i < r@.len() ==> r@[i]@ == link_directives_spec(search_path@)[i],
{
    let mut v: Vec<String> = Vec::new();
    v.push(search_directive(search_path));
    v.push(static_lib_directive("transfer_engine"));
    v.push(shared_lib_directive("stdc++"));
    v.push(shared_lib_directive("ibverbs"));
    v.push(shared_lib_directive("glog"));
    v.push(shared_lib_directive("gflags"));
    v.push(shared_lib_directive("pthread"));
    v.push(shared_lib_directive("jsoncpp"));
    v.push(shared_lib_directive("numa"));
    v.push(shared_lib_directive("etcd-cpp-api"));
    v
}

} // verus!
