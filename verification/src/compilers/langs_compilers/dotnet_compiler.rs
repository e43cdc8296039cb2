//! C#: messages by the compiler itself, services by the gRPC plugin that the
//! project names.

use crate::compilers::langs_compilers::compiler_types::DotNetCompiler;
use crate::compilers::protobuf_compiler::{
    compiled, toolchain, CompilerProperties, ProjectRun, ProtobufCompiler, Toolchain,
};
use crate::os::types::{OSManager, Session};
use crate::parser::types::{Lang, Project};
use crate::text::literal_texts;
use vstd::prelude::*;

verus! {

/// The compiler's flag for the directory that receives the messages.
pub const DOTNET_MESSAGES_OUT_ARGUMENT: &'static str = "--csharp_out";

/// The compiler's flag for the directory that receives the services.
pub const DOTNET_GRPC_OUT_ARGUMENT: &'static str = "--grpc_out";

/// The plugin that generates the services. A project names its path.
pub const DOTNET_PLUGIN_NAME: &'static str = "grpc_csharp_plugin";

/// What generating C# asks for.
pub open spec fn dotnet_toolchain() -> Toolchain {
    Toolchain {
        deps: seq!["protoc"@, "dotnet"@],
        version_flags: seq!["--version"@, "--version"@],
        out_flag: DOTNET_MESSAGES_OUT_ARGUMENT@,
        grpc_flag: DOTNET_GRPC_OUT_ARGUMENT@,
        plugin: Some(DOTNET_PLUGIN_NAME@),
    }
}

/// The tools that must be installed to generate C#.
pub fn dotnet_deps() -> (deps: Vec<&'static str>)
    ensures
        literal_texts(deps@) == dotnet_toolchain().deps,
{
    let deps: Vec<&'static str> = vec!["protoc", "dotnet"];
    assert(literal_texts(deps@) =~= dotnet_toolchain().deps);
    deps
}

/// The flag that probes each tool of [`dotnet_deps`].
pub fn dotnet_version_flags() -> (flags: Vec<&'static str>)
    ensures
        literal_texts(flags@) == dotnet_toolchain().version_flags,
{
    let flags: Vec<&'static str> = vec!["--version", "--version"];
    assert(literal_texts(flags@) =~= dotnet_toolchain().version_flags);
    flags
}

impl CompilerProperties for DotNetCompiler {
    open spec fn lang(&self) -> Lang {
        Lang::DotNet
    }

    open spec fn base_path(&self) -> Seq<char> {
        self.params.input_file_path@
    }

    fn input_file_path(&self) -> (path: &String) {
        &self.params.input_file_path
    }
}

impl ProtobufCompiler for DotNetCompiler {
    /// Generates the C# code of `project`. The project has to name the path
    /// of the gRPC plugin, which is handed to the compiler.
    fn compile_project<M: OSManager>(&self, os_manager: &mut Session<M>, project: &Project) -> (result:
        Result<(), String>) {
        let ghost before = *os_manager;
        let deps = dotnet_deps();
        let version_flags = dotnet_version_flags();
        proof {
            assert(literal_texts(deps@).len() == deps.len());
            assert(literal_texts(version_flags@).len() == version_flags.len());
            assert(toolchain(
                deps@,
                version_flags@,
                DOTNET_MESSAGES_OUT_ARGUMENT,
                DOTNET_GRPC_OUT_ARGUMENT,
                Some(DOTNET_PLUGIN_NAME),
            ) =~= dotnet_toolchain());
        }
        let result = self.assemble_compilation(
            os_manager,
            project,
            deps,
            version_flags,
            DOTNET_MESSAGES_OUT_ARGUMENT,
            DOTNET_GRPC_OUT_ARGUMENT,
            Some(DOTNET_PLUGIN_NAME),
        );
        proof {
            let run = ProjectRun {
                scan: Seq::empty(),
                assembly: os_manager.since(&before),
                repair: Seq::empty(),
            };
            assert(run.journal() =~= os_manager.since(&before));
            assert(compiled(Lang::DotNet, project, run));
        }
        result
    }
}

} // verus!
