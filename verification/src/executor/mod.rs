//! Running the compilation of every project of a configuration.

pub mod protoweld_executor;
