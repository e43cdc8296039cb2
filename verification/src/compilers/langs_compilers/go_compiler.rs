//! Go: messages by `protoc-gen-go`, services by `protoc-gen-go-grpc`.

use crate::compilers::langs_compilers::compiler_types::GoCompiler;
use crate::compilers::protobuf_compiler::{
    compiled, toolchain, CompilerProperties, ProjectRun, ProtobufCompiler, Toolchain,
};
use crate::os::types::{OSManager, Session};
use crate::parser::types::{Lang, Project};
use crate::text::literal_texts;
use vstd::prelude::*;

verus! {

/// The compiler's flag for the directory that receives the messages.
pub const GO_MESSAGES_OUT_ARGUMENT: &'static str = "--go_out";

/// The compiler's flag for the directory that receives the services.
pub const GO_GRPC_OUT_ARGUMENT: &'static str = "--go-grpc_out";

/// What generating Go asks for.
pub open spec fn go_toolchain() -> Toolchain {
    Toolchain {
        deps: seq!["protoc"@, "go"@, "protoc-gen-go"@, "protoc-gen-go-grpc"@],
        version_flags: seq!["--version"@, "version"@, "--version"@, "--version"@],
        out_flag: GO_MESSAGES_OUT_ARGUMENT@,
        grpc_flag: GO_GRPC_OUT_ARGUMENT@,
        plugin: None,
    }
}

/// The tools that must be installed to generate Go.
pub fn go_deps() -> (deps: Vec<&'static str>)
    ensures
        literal_texts(deps@) == go_toolchain().deps,
{
    let deps: Vec<&'static str> = vec!["protoc", "go", "protoc-gen-go", "protoc-gen-go-grpc"];
    assert(literal_texts(deps@) =~= go_toolchain().deps);
    deps
}

/// The flag that probes each tool of [`go_deps`].
pub fn go_version_flags() -> (flags: Vec<&'static str>)
    ensures
        literal_texts(flags@) == go_toolchain().version_flags,
{
    let flags: Vec<&'static str> = vec!["--version", "version", "--version", "--version"];
    assert(literal_texts(flags@) =~= go_toolchain().version_flags);
    flags
}

impl CompilerProperties for GoCompiler {
    open spec fn lang(&self) -> Lang {
        Lang::GoLang
    }

    open spec fn base_path(&self) -> Seq<char> {
        self.params.input_file_path@
    }

    fn input_file_path(&self) -> (path: &String) {
        &self.params.input_file_path
    }
}

impl ProtobufCompiler for GoCompiler {
    /// Generates the Go code of `project`: no plugin is handed to the
    /// compiler, and nothing is done after its run.
    fn compile_project<M: OSManager>(&self, os_manager: &mut Session<M>, project: &Project) -> (result:
        Result<(), String>) {
        let ghost before = *os_manager;
        let deps = go_deps();
        let version_flags = go_version_flags();
        proof {
            assert(literal_texts(deps@).len() == deps.len());
            assert(literal_texts(version_flags@).len() == version_flags.len());
            assert(toolchain(
                deps@,
                version_flags@,
                GO_MESSAGES_OUT_ARGUMENT,
                GO_GRPC_OUT_ARGUMENT,
                None,
            ) =~= go_toolchain());
        }
        let result = self.assemble_compilation(
            os_manager,
            project,
            deps,
            version_flags,
            GO_MESSAGES_OUT_ARGUMENT,
            GO_GRPC_OUT_ARGUMENT,
            None,
        );
        proof {
            let run = ProjectRun {
                scan: Seq::empty(),
                assembly: os_manager.since(&before),
                repair: Seq::empty(),
            };
            assert(run.journal() =~= os_manager.since(&before));
            assert(compiled(Lang::GoLang, project, run));
        }
        result
    }
}

} // verus!
