//! Tests of the build-time plan: exact directive lines, their fixed order,
//! and the stub generator's input and output locations.

use transfer_bridge::build_plan::{
    bindings_file_name, engine_header_path, engine_search_path, link_directives,
    search_directive, shared_lib_directive, static_lib_directive,
};

#[test]
fn directive_lines_exact() {
    assert_eq!(
        search_directive("/opt/engine/lib"),
        "cargo:rustc-link-search=native=/opt/engine/lib"
    );
    assert_eq!(
        static_lib_directive("transfer_engine"),
        "cargo:rustc-link-lib=static=transfer_engine"
    );
    assert_eq!(shared_lib_directive("numa"), "cargo:rustc-link-lib=numa");
}

#[test]
fn full_directive_list_exact_and_ordered() {
    let lines: Vec<String> = link_directives(engine_search_path());
    let expected: Vec<&str> = vec![
        "cargo:rustc-link-search=native=../../../build/mooncake-transfer-engine/src",
        "cargo:rustc-link-lib=static=transfer_engine",
        "cargo:rustc-link-lib=stdc++",
        "cargo:rustc-link-lib=ibverbs",
        "cargo:rustc-link-lib=glog",
        "cargo:rustc-link-lib=gflags",
        "cargo:rustc-link-lib=pthread",
        "cargo:rustc-link-lib=jsoncpp",
        "cargo:rustc-link-lib=numa",
        "cargo:rustc-link-lib=etcd-cpp-api",
    ];
    assert_eq!(lines.len(), expected.len());
    for (line, want) in lines.iter().zip(expected.iter()) {
        assert_eq!(line.as_str(), *want);
    }
}

#[test]
fn directive_list_is_repeatable() {
    // The plan is a function of the search path alone: two runs over the
    // same input agree line for line.
    let first: Vec<String> = link_directives(engine_search_path());
    let second: Vec<String> = link_directives(engine_search_path());
    assert_eq!(first, second);
}

#[test]
fn generator_input_and_output_locations() {
    assert_eq!(engine_header_path(), "../../include/transfer_engine_c.h");
    assert_eq!(bindings_file_name(), "bindings.rs");
}
