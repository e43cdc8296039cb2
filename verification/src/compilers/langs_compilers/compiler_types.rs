//! The compiler of each language, and what they are made from.

use crate::compilers::protobuf_compiler::{CompilerProperties, ProtobufCompiler};
use crate::os::types::{OSManager, Session};
use crate::parser::types::{Lang, Project};
use vstd::prelude::*;
use vstd::std_specs::convert::FromSpecImpl;

verus! {

/// What a compiler is made from.
pub struct CompilerParams {
    /// The canonical path of the configuration that the projects came from.
    pub input_file_path: String,
    /// The language to generate.
    pub lang: Lang,
}

/// Generates Go.
pub struct GoCompiler {
    pub params: CompilerParams,
}

/// Generates C#.
pub struct DotNetCompiler {
    pub params: CompilerParams,
}

/// Generates Rust, and repairs the modules that the generators leave behind.
pub struct RustCompiler {
    pub params: CompilerParams,
}

/// The compiler of any one language.
pub enum Compiler {
    Go(GoCompiler),
    DotNet(DotNetCompiler),
    Rust(RustCompiler),
}

impl From<CompilerParams> for Compiler {
    /// The compiler of the language that `params` names.
    fn from(params: CompilerParams) -> (compiler: Compiler) {
        match params.lang {
            Lang::GoLang => Compiler::Go(GoCompiler { params }),
            Lang::DotNet => Compiler::DotNet(DotNetCompiler { params }),
            Lang::Rust => Compiler::Rust(RustCompiler { params }),
        }
    }
}

impl FromSpecImpl<CompilerParams> for Compiler {
    open spec fn obeys_from_spec() -> bool {
        true
    }

    open spec fn from_spec(params: CompilerParams) -> Compiler {
        match params.lang {
            Lang::GoLang => Compiler::Go(GoCompiler { params }),
            Lang::DotNet => Compiler::DotNet(DotNetCompiler { params }),
            Lang::Rust => Compiler::Rust(RustCompiler { params }),
        }
    }
}

impl Compiler {
    /// What this compiler was made from.
    pub open spec fn params(&self) -> CompilerParams {
        match self {
            Compiler::Go(compiler) => compiler.params,
            Compiler::DotNet(compiler) => compiler.params,
            Compiler::Rust(compiler) => compiler.params,
        }
    }
}

impl CompilerProperties for Compiler {
    open spec fn lang(&self) -> Lang {
        match self {
            Compiler::Go(compiler) => compiler.lang(),
            Compiler::DotNet(compiler) => compiler.lang(),
            Compiler::Rust(compiler) => compiler.lang(),
        }
    }

    open spec fn base_path(&self) -> Seq<char> {
        self.params().input_file_path@
    }

    fn input_file_path(&self) -> (path: &String) {
        match self {
            Compiler::Go(compiler) => compiler.input_file_path(),
            Compiler::DotNet(compiler) => compiler.input_file_path(),
            Compiler::Rust(compiler) => compiler.input_file_path(),
        }
    }
}

impl ProtobufCompiler for Compiler {
    /// Generates the code of `project` with the compiler that this is.
    fn compile_project<M: OSManager>(&self, os_manager: &mut Session<M>, project: &Project) -> (result:
        Result<(), String>) {
        match self {
            Compiler::Go(compiler) => compiler.compile_project(os_manager, project),
            Compiler::DotNet(compiler) => compiler.compile_project(os_manager, project),
            Compiler::Rust(compiler) => compiler.compile_project(os_manager, project),
        }
    }
}

} // verus!
