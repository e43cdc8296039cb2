//! The platform services the compilers rely on, and the record of their use.

pub mod files;
pub mod paths;
pub mod process;
pub mod script;
pub mod shared;
pub mod types;
