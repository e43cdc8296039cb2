//! Fingerprints of file contents.

pub mod hash;
