//! Commands beside the compilation itself.

pub mod init;
