//! Turning a project into a compiler run, one language at a time.

pub mod command_line;
pub mod langs_compilers;
pub mod packages;
pub mod protobuf_compiler;
pub mod shared;
