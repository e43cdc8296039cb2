//! The configuration of a run: the projects to compile and their languages.

pub mod types;
