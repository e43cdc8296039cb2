//! Projects and target languages.

use crate::text::same_text;
use vstd::prelude::*;

verus! {

/// A language that code is generated for.
#[derive(Debug, Clone, Copy, PartialEq, Eq, Structural)]
pub enum Lang {
    GoLang,
    DotNet,
    Rust,
}

/// The language that `name` spells, if it spells one.
pub open spec fn lang_named(name: Seq<char>) -> Option<Lang> {
    if name == "GoLang"@ {
        Some(Lang::GoLang)
    } else if name == "DotNet"@ {
        Some(Lang::DotNet)
    } else if name == "Rust"@ {
        Some(Lang::Rust)
    } else {
        None
    }
}

impl Lang {
    /// Reads a language from its name, which is matched letter for letter.
    pub fn from_str(s: &str) -> (lang: Result<Lang, &'static str>)
        ensures
            match lang {
                Ok(lang) => lang_named(s@) == Some(lang),
                Err(message) => lang_named(s@) is None && message@ == "Unsupported lang"@,
            },
    {
        if same_text(s, "GoLang") {
            Ok(Lang::GoLang)
        } else if same_text(s, "DotNet") {
            Ok(Lang::DotNet)
        } else if same_text(s, "Rust") {
            Ok(Lang::Rust)
        } else {
            Err("Unsupported lang")
        }
    }
}

impl std::str::FromStr for Lang {
    type Err = &'static str;

    /// Reads a language from its name, as [`Lang::from_str`] does.
    fn from_str(s: &str) -> (lang: Result<Lang, &'static str>)
        ensures
            match lang {
                Ok(lang) => lang_named(s@) == Some(lang),
                Err(message) => lang_named(s@) is None && message@ == "Unsupported lang"@,
            },
    {
        Lang::from_str(s)
    }
}

/// One unit of compilation: a set of proto files, the language to generate,
/// and where the generated code goes.
#[derive(Debug, Clone)]
pub struct Project {
    /// A name for the project, used in reports only.
    pub path: String,
    /// The directory that receives both message and service code.
    pub compiled_proto_folder: String,
    /// The proto files, in the order they are handed to the compiler.
    pub associated_proto_files: Vec<String>,
    /// The gRPC plugin executable, for languages that need one.
    pub plugin_path: Option<String>,
    /// The language to generate.
    pub lang: Lang,
    /// Extra compiler flags with their values, in the order they are handed
    /// to the compiler. An empty value stands for a flag without argument.
    pub compile_options: Vec<(String, String)>,
}

/// The projects of one run, in the order they are compiled.
#[derive(Debug, Clone)]
pub struct ProtoweldParser {
    pub active_projects: Vec<Project>,
}

} // verus!
