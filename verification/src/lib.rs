//! Host-side bridge to a natively compiled transfer engine: a fixed-size raw
//! memory arena whose addresses are handed across the foreign-function
//! boundary, and the build-time plan (linker directives, stub generation
//! inputs) that makes the engine callable.

pub mod build_plan;
pub mod pool;
