//! Protoweld drives the Protocol Buffers compiler over a list of projects,
//! one target language per project, and repairs the generated Rust modules.
//!
//! The crate holds the decisions of that work: which tools must be present,
//! how the compiler's command line is put together, how a package name is cut
//! from a proto file, which files are touched after the compiler has run, and
//! when a run stops. Everything that reaches the operating system goes through
//! [`os::types::OSManager`], which callers implement.
//!
//! # What is proved
//!
//! Nothing is assumed of the platform. Every call to it goes through a
//! [`os::types::Session`], which keeps a journal of the requests made and the
//! replies received. The journal exists in proofs only. The contract of each
//! step says which requests it makes, in which order, where it stops, and
//! what it returns, as a function of the replies:
//!
//! - [`compilers::protobuf_compiler::ProtobufCompiler::ensure_dependencies`]
//!   probes every tool and reports all that failed;
//! - [`compilers::command_line::command_arguments`] builds the command line
//!   or refuses the project, without touching the platform;
//! - [`compilers::protobuf_compiler::ProtobufCompiler::assemble_compilation`]
//!   runs the compiler only where no tool is missing and the project is not
//!   refused;
//! - [`compilers::protobuf_compiler::ProtobufCompiler::get_packages_set`]
//!   reads the package of each proto file;
//! - [`compilers::langs_compilers::compiler_types::RustCompiler::post_process`]
//!   makes the four edits of each package until one fails;
//! - [`executor::protoweld_executor::generate_protos`] compiles the projects
//!   in their order until one fails.
//!
//! What the edits do to the files is said by a model, [`os::files`], against
//! which the repair of a package is proved to leave the files as they should
//! be.

pub mod algorithm;
pub mod commands;
pub mod compilers;
pub mod executor;
pub mod os;
pub mod parser;
pub mod text;
