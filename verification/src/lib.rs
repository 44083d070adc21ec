//! Calling convention of built-in operations in a lazy graph-reduction machine.
//!
//! The machine reduces a graph of closures and evaluates them on demand. Native code
//! works on evaluated, unboxed values. For each built-in operation this library makes
//! the closure template that stands between the two: it evaluates the strict arguments,
//! takes them out of their boxes, calls the native primitive and boxes the result.

pub mod error;
pub mod intrinsic;
pub mod intrinsics;
pub mod sourcemap;
pub mod syntax;
pub mod tags;
pub mod types;
