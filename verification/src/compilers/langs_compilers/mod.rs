//! The compilers, one for each language.

pub mod compiler_types;
pub mod dotnet_compiler;
pub mod go_compiler;
pub mod rust_compiler;
