//! Choosing the compiler of a language.

use crate::compilers::langs_compilers::compiler_types::{Compiler, CompilerParams};
use crate::compilers::protobuf_compiler::CompilerProperties;
use crate::parser::types::Lang;
use vstd::prelude::*;

verus! {

/// The compiler that generates `lang`, for projects whose configuration lies
/// at the canonical path `base_file_path`.
pub fn get_compiler(lang: &Lang, base_file_path: &String) -> (compiler: Compiler)
    ensures
        compiler.lang() == *lang,
        compiler.base_path() == base_file_path@,
        compiler.params().lang == *lang,
{
    Compiler::from(CompilerParams { input_file_path: base_file_path.clone(), lang: *lang })
}

} // verus!
