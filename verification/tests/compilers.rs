use protoweld::compilers::langs_compilers::compiler_types::{
    Compiler, CompilerParams, DotNetCompiler, GoCompiler, RustCompiler,
};
use protoweld::compilers::langs_compilers::dotnet_compiler::{dotnet_deps, dotnet_version_flags};
use protoweld::compilers::langs_compilers::go_compiler::{go_deps, go_version_flags};
use protoweld::compilers::langs_compilers::rust_compiler::{rust_deps, rust_version_flags};
use protoweld::compilers::packages::PackageSet;
use protoweld::compilers::protobuf_compiler::{CompilerProperties, ProtobufCompiler};
use protoweld::compilers::shared::get_compiler;
use protoweld::executor::protoweld_executor::generate_protos;
use protoweld::os::types::{OSManager, Session};
use protoweld::parser::types::{Lang, Project, ProtoweldParser};
use protoweld::text::{find, insert, replace};
use std::cell::RefCell;
use std::collections::HashMap;

/// A machine in memory: the tools that are installed, the files, what the
/// compiler answers and writes, and a log of all that was asked.
struct Machine {
    installed: Vec<&'static str>,
    files: RefCell<HashMap<String, Vec<u8>>>,
    compiler_answers: RefCell<Vec<Result<(), String>>>,
    compiler_writes: Vec<(&'static str, &'static str)>,
    runs: RefCell<Vec<(String, Vec<String>, bool)>>,
    edits: RefCell<Vec<String>>,
}

impl Machine {
    fn new(installed: &[&'static str]) -> Machine {
        Machine {
            installed: installed.to_vec(),
            files: RefCell::new(HashMap::new()),
            compiler_answers: RefCell::new(Vec::new()),
            compiler_writes: Vec::new(),
            runs: RefCell::new(Vec::new()),
            edits: RefCell::new(Vec::new()),
        }
    }

    fn with_file(self, path: &str, content: &str) -> Machine {
        self.files.borrow_mut().insert(path.to_string(), content.as_bytes().to_vec());
        self
    }

    fn answering(self, answers: Vec<Result<(), String>>) -> Machine {
        *self.compiler_answers.borrow_mut() = answers;
        self
    }

    fn writing(mut self, path: &'static str, content: &'static str) -> Machine {
        self.compiler_writes.push((path, content));
        self
    }

    fn content(&self, path: &str) -> Option<String> {
        self.files.borrow().get(path).map(|bytes| String::from_utf8(bytes.clone()).unwrap())
    }

    fn probes(&self) -> Vec<(String, Vec<String>)> {
        self.runs
            .borrow()
            .iter()
            .filter(|run| run.2)
            .map(|run| (run.0.clone(), run.1.clone()))
            .collect()
    }

    fn compilations(&self) -> Vec<Vec<String>> {
        self.runs.borrow().iter().filter(|run| !run.2).map(|run| run.1.clone()).collect()
    }
}

impl OSManager for Machine {
    fn execute_command(
        &self,
        command: &str,
        arguments: &Vec<String>,
        dependency: bool,
    ) -> Result<(), String> {
        self.runs.borrow_mut().push((command.to_string(), arguments.clone(), dependency));
        if dependency {
            if self.installed.contains(&command) {
                Ok(())
            } else {
                Err(format!("{} is not installed", command))
            }
        } else {
            let mut answers = self.compiler_answers.borrow_mut();
            let answer = if answers.is_empty() { Ok(()) } else { answers.remove(0) };
            if answer.is_ok() {
                for (path, content) in self.compiler_writes.iter() {
                    self.files.borrow_mut().insert(path.to_string(), content.as_bytes().to_vec());
                }
            }
            answer
        }
    }

    fn grep(&self, path: &str, needle: &str) -> Result<(String, usize), String> {
        self.edits.borrow_mut().push(format!("grep {}", path));
        match self.files.borrow().get(path) {
            Some(bytes) => {
                let offset = find(bytes, needle.as_bytes());
                Ok((String::from_utf8(bytes.clone()).unwrap(), offset))
            }
            None => Err(format!("cannot read {}", path)),
        }
    }

    fn rename_file(&self, from: &str, to: &str) -> Result<(), String> {
        self.edits.borrow_mut().push(format!("rename {} {}", from, to));
        let mut files = self.files.borrow_mut();
        match files.remove(from) {
            Some(bytes) => {
                files.insert(to.to_string(), bytes);
                Ok(())
            }
            None => Err(format!("cannot rename {}", from)),
        }
    }

    fn find_replace(&self, path: &str, find: String, with: String) -> Result<(), String> {
        self.edits.borrow_mut().push(format!("replace {}", path));
        let mut files = self.files.borrow_mut();
        match files.get(path) {
            Some(bytes) => {
                let replaced = replace(bytes, find.as_bytes(), with.as_bytes());
                files.insert(path.to_string(), replaced);
                Ok(())
            }
            None => Err(format!("cannot edit {}", path)),
        }
    }

    fn insert_in_position(&self, path: &str, position: usize, text: String) -> Result<(), String> {
        self.edits.borrow_mut().push(format!("insert {}", path));
        if path.starts_with("sealed/") {
            return Err(format!("cannot insert into {}", path));
        }
        let mut files = self.files.borrow_mut();
        let edited = match files.get(path) {
            Some(bytes) => insert(bytes, position, text.as_bytes()),
            None => None,
        };
        match edited {
            Some(bytes) => {
                files.insert(path.to_string(), bytes);
                Ok(())
            }
            None => Err(format!("cannot insert into {}", path)),
        }
    }

    fn write_new_file(&self, path: &str, content: String) -> Result<(), String> {
        self.edits.borrow_mut().push(format!("write {}", path));
        if path.starts_with("readonly/") {
            return Err(format!("cannot write {}", path));
        }
        self.files.borrow_mut().insert(path.to_string(), content.into_bytes());
        Ok(())
    }
}

const GO_TOOLS: [&str; 4] = ["protoc", "go", "protoc-gen-go", "protoc-gen-go-grpc"];
const DOTNET_TOOLS: [&str; 2] = ["protoc", "dotnet"];
const RUST_TOOLS: [&str; 3] = ["protoc", "protoc-gen-tonic", "protoc-gen-prost"];

fn params(lang: Lang) -> CompilerParams {
    CompilerParams { input_file_path: "/work/protoweld.yaml".to_string(), lang }
}

fn go() -> GoCompiler {
    GoCompiler { params: params(Lang::GoLang) }
}

fn project(lang: Lang, folder: &str, protos: &[&str]) -> Project {
    Project {
        path: format!("project-{}", folder),
        compiled_proto_folder: folder.to_string(),
        associated_proto_files: protos.iter().map(|proto| proto.to_string()).collect(),
        plugin_path: None,
        lang,
        compile_options: Vec::new(),
    }
}

fn strings(items: &[&str]) -> Vec<String> {
    items.iter().map(|item| item.to_string()).collect()
}

#[test]
fn session_hands_each_call_to_the_platform() {
    let mut session = Session::new(Machine::new(&["protoc"]));
    assert_eq!(session.execute_command("protoc", &strings(&["--version"]), true), Ok(()));
    assert_eq!(
        session.execute_command("go", &strings(&["version"]), true),
        Err("go is not installed".to_string())
    );
    assert_eq!(session.write_new_file("a/mod.rs", "pub mod a;".to_string()), Ok(()));
    assert_eq!(session.grep("a/mod.rs", "mod"), Ok(("pub mod a;".to_string(), 4)));
    assert_eq!(session.grep("a/mod.rs", "package"), Ok(("pub mod a;".to_string(), usize::MAX)));
    assert_eq!(session.rename_file("a/mod.rs", "a/lib.rs"), Ok(()));
    assert_eq!(session.find_replace("a/lib.rs", "pub ".to_string(), String::new()), Ok(()));
    assert_eq!(session.insert_in_position("a/lib.rs", 0, "// a\n".to_string()), Ok(()));
    assert_eq!(session.grep("a/mod.rs", "mod"), Err("cannot read a/mod.rs".to_string()));
    let machine = session.os_manager();
    assert_eq!(machine.content("a/lib.rs"), Some("// a\nmod a;".to_string()));
    assert_eq!(
        *machine.runs.borrow(),
        vec![
            ("protoc".to_string(), strings(&["--version"]), true),
            ("go".to_string(), strings(&["version"]), true),
        ]
    );
}

#[test]
fn every_tool_is_probed_with_its_flag() {
    let mut session = Session::new(Machine::new(&GO_TOOLS));
    let result = go().ensure_dependencies(&mut session, &go_deps(), &go_version_flags());
    assert_eq!(result, Ok(()));
    assert_eq!(
        session.os_manager().probes(),
        vec![
            ("protoc".to_string(), strings(&["--version"])),
            ("go".to_string(), strings(&["version"])),
            ("protoc-gen-go".to_string(), strings(&["--version"])),
            ("protoc-gen-go-grpc".to_string(), strings(&["--version"])),
        ]
    );
    assert!(session.os_manager().compilations().is_empty());
}

#[test]
fn all_missing_tools_are_reported_not_just_the_first() {
    let mut session = Session::new(Machine::new(&["b"]));
    let result =
        go().ensure_dependencies(&mut session, &vec!["a", "b", "c"], &vec!["-v", "-v", "-v"]);
    assert_eq!(result, Err(vec!["a", "c"]));
    assert_eq!(session.os_manager().probes().len(), 3);
}

#[test]
fn no_tools_means_no_probe_and_success() {
    let mut session = Session::new(Machine::new(&[]));
    assert_eq!(go().ensure_dependencies(&mut session, &Vec::new(), &Vec::new()), Ok(()));
    assert!(session.os_manager().runs.borrow().is_empty());
}

#[test]
fn the_tools_of_each_language() {
    assert_eq!(go_deps(), GO_TOOLS.to_vec());
    assert_eq!(go_version_flags(), vec!["--version", "version", "--version", "--version"]);
    assert_eq!(dotnet_deps(), DOTNET_TOOLS.to_vec());
    assert_eq!(dotnet_version_flags(), vec!["--version", "--version"]);
    assert_eq!(rust_deps(), RUST_TOOLS.to_vec());
    assert_eq!(rust_version_flags(), vec!["--version", "", ""]);
}

#[test]
fn a_compilation_probes_then_runs_the_compiler_once() {
    let mut session = Session::new(Machine::new(&GO_TOOLS));
    let mut project = project(Lang::GoLang, "gen", &["a.proto", "b.proto"]);
    project.compile_options = vec![("-I".to_string(), "entities".to_string())];
    assert_eq!(go().compile_project(&mut session, &project), Ok(()));
    let machine = session.os_manager();
    assert_eq!(machine.probes().len(), 4);
    assert_eq!(
        machine.compilations(),
        vec![strings(&["-I=entities", "--go_out=gen", "--go-grpc_out=gen", "a.proto", "b.proto"])]
    );
    let runs = machine.runs.borrow();
    assert_eq!(runs.len(), 5);
    assert_eq!(runs[4].0, "protoc");
    assert!(!runs[4].2);
    assert!(machine.edits.borrow().is_empty());
}

#[test]
fn missing_tools_stop_the_compilation_and_are_all_named() {
    let mut session = Session::new(Machine::new(&["protoc", "protoc-gen-go"]));
    let project = project(Lang::GoLang, "gen", &["a.proto"]);
    assert_eq!(
        go().compile_project(&mut session, &project),
        Err("Failed to check installation of the following dependencies: go,protoc-gen-go-grpc"
            .to_string())
    );
    assert_eq!(session.os_manager().probes().len(), 4);
    assert!(session.os_manager().compilations().is_empty());
}

#[test]
fn missing_tools_are_reported_before_a_refused_project() {
    let mut session = Session::new(Machine::new(&["dotnet"]));
    let mut project = project(Lang::DotNet, "gen", &["a.proto"]);
    project.compile_options = vec![("--grpc_out".to_string(), "x".to_string())];
    let compiler = DotNetCompiler { params: params(Lang::DotNet) };
    assert_eq!(
        compiler.compile_project(&mut session, &project),
        Err("Failed to check installation of the following dependencies: protoc".to_string())
    );
    assert!(session.os_manager().compilations().is_empty());
}

#[test]
fn a_project_that_sets_an_output_flag_never_reaches_the_compiler() {
    for flag in ["--go_out", "--go-grpc_out"] {
        let mut session = Session::new(Machine::new(&GO_TOOLS));
        let mut project = project(Lang::GoLang, "gen", &["a.proto"]);
        project.compile_options =
            vec![("-I".to_string(), "x".to_string()), (flag.to_string(), "y".to_string())];
        assert_eq!(
            go().compile_project(&mut session, &project),
            Err(format!(
                "The argument {} do not must appear. Protoweld handle this using compiled_proto_folder option",
                flag
            ))
        );
        assert!(session.os_manager().compilations().is_empty());
        assert_eq!(session.os_manager().probes().len(), 4);
    }
}

#[test]
fn an_output_flag_is_refused_in_every_language() {
    let cases = [
        (Lang::GoLang, "--go_out", &GO_TOOLS[..]),
        (Lang::GoLang, "--go-grpc_out", &GO_TOOLS[..]),
        (Lang::DotNet, "--csharp_out", &DOTNET_TOOLS[..]),
        (Lang::DotNet, "--grpc_out", &DOTNET_TOOLS[..]),
        (Lang::Rust, "--prost_out", &RUST_TOOLS[..]),
        (Lang::Rust, "--tonic_out", &RUST_TOOLS[..]),
    ];
    for (lang, flag, tools) in cases {
        let mut session = Session::new(Machine::new(tools));
        let mut project = project(lang, "gen", &[]);
        project.plugin_path = Some("/opt/plugin".to_string());
        project.compile_options = vec![(flag.to_string(), String::new())];
        let compiler = get_compiler(&lang, &"/work/protoweld.yaml".to_string());
        assert_eq!(
            compiler.compile_project(&mut session, &project),
            Err(format!(
                "The argument {} do not must appear. Protoweld handle this using compiled_proto_folder option",
                flag
            ))
        );
        assert!(session.os_manager().compilations().is_empty());
    }
}

#[test]
fn csharp_without_plugin_path_never_reaches_the_compiler() {
    let mut session = Session::new(Machine::new(&DOTNET_TOOLS));
    let project = project(Lang::DotNet, "gen", &["a.proto"]);
    let compiler = DotNetCompiler { params: params(Lang::DotNet) };
    assert_eq!(
        compiler.compile_project(&mut session, &project),
        Err("The plugin grpc_csharp_plugin must have a path in plugin_path option".to_string())
    );
    assert!(session.os_manager().compilations().is_empty());
    assert_eq!(
        session.os_manager().probes(),
        vec![
            ("protoc".to_string(), strings(&["--version"])),
            ("dotnet".to_string(), strings(&["--version"])),
        ]
    );
}

#[test]
fn csharp_hands_the_plugin_to_the_compiler() {
    let mut session = Session::new(Machine::new(&DOTNET_TOOLS));
    let mut project = project(Lang::DotNet, "cs", &["a.proto"]);
    project.plugin_path = Some("/opt/grpc_csharp_plugin".to_string());
    let compiler = DotNetCompiler { params: params(Lang::DotNet) };
    assert_eq!(compiler.compile_project(&mut session, &project), Ok(()));
    assert_eq!(
        session.os_manager().compilations(),
        vec![strings(&[
            "--csharp_out=cs",
            "--grpc_out=cs",
            "--plugin=protoc-gen-grpc=/opt/grpc_csharp_plugin",
            "a.proto",
        ])]
    );
}

#[test]
fn the_failure_of_the_compiler_is_the_failure_of_the_compilation() {
    let machine =
        Machine::new(&GO_TOOLS).answering(vec![Err("a.proto: File not found.".to_string())]);
    let mut session = Session::new(machine);
    let project = project(Lang::GoLang, "gen", &["a.proto"]);
    assert_eq!(
        go().compile_project(&mut session, &project),
        Err("a.proto: File not found.".to_string())
    );
    assert_eq!(session.os_manager().compilations().len(), 1);
}

#[test]
fn assemble_compilation_takes_the_toolchain_as_given() {
    let mut session = Session::new(Machine::new(&["protoc"]));
    let project = project(Lang::GoLang, "out", &["x.proto"]);
    let result = go().assemble_compilation(
        &mut session,
        &project,
        vec!["protoc"],
        vec!["--version"],
        "--java_out",
        "--grpc-java_out",
        None,
    );
    assert_eq!(result, Ok(()));
    assert_eq!(
        session.os_manager().compilations(),
        vec![strings(&["--java_out=out", "--grpc-java_out=out", "x.proto"])]
    );
}

#[test]
fn the_package_of_a_proto_file_is_extracted() {
    let machine = Machine::new(&[]).with_file("a.proto", "package example.v1;");
    let mut session = Session::new(machine);
    let packages = go().get_packages_set(&mut session, &strings(&["a.proto"])).unwrap();
    assert_eq!(packages.len(), 1);
    assert_eq!(packages.get(0), "example.v1");
    assert!(packages.contains("example.v1"));
}

#[test]
fn a_proto_file_without_package_keyword_is_named_in_the_failure() {
    let machine = Machine::new(&[])
        .with_file("a.proto", "syntax = \"proto3\";\npackage a;\n")
        .with_file("nopkg.proto", "syntax = \"proto3\";\nmessage M {}\n")
        .with_file("c.proto", "package c;");
    let mut session = Session::new(machine);
    let result =
        go().get_packages_set(&mut session, &strings(&["a.proto", "nopkg.proto", "c.proto"]));
    assert_eq!(result.err(), Some("Package keyword missing in nopkg.proto".to_string()));
    assert_eq!(
        *session.os_manager().edits.borrow(),
        vec!["grep a.proto".to_string(), "grep nopkg.proto".to_string()]
    );
}

#[test]
fn a_proto_file_that_cannot_be_read_fails_with_the_reason() {
    let mut session = Session::new(Machine::new(&[]));
    let result = go().get_packages_set(&mut session, &strings(&["gone.proto"]));
    assert_eq!(result.err(), Some("cannot read gone.proto".to_string()));
}

#[test]
fn a_declaration_that_cannot_be_cut_out_fails() {
    let machine = Machine::new(&[]).with_file("short.proto", "// package");
    let mut session = Session::new(machine);
    let result = go().get_packages_set(&mut session, &strings(&["short.proto"]));
    assert_eq!(result.err(), Some("Bad .proto structure - Keyword package".to_string()));
}

#[test]
fn a_package_declared_by_several_files_is_kept_once() {
    let machine = Machine::new(&[])
        .with_file("a.proto", "package shop;")
        .with_file("b.proto", "package billing;")
        .with_file("c.proto", "// more of it\npackage shop;");
    let mut session = Session::new(machine);
    let packages = go()
        .get_packages_set(&mut session, &strings(&["a.proto", "b.proto", "c.proto", "a.proto"]))
        .unwrap();
    assert_eq!(packages.len(), 2);
    assert_eq!(packages.get(0), "shop");
    assert_eq!(packages.get(1), "billing");
}

#[test]
fn no_proto_files_yield_no_packages() {
    let mut session = Session::new(Machine::new(&[]));
    let packages = go().get_packages_set(&mut session, &Vec::new()).unwrap();
    assert_eq!(packages.len(), 0);
    assert!(session.os_manager().edits.borrow().is_empty());
}

fn generated_machine() -> Machine {
    Machine::new(&RUST_TOOLS)
        .with_file("protos/orders.proto", "syntax = \"proto3\";\npackage orders;\n")
        .with_file("protos/users.proto", "package users;\nmessage User {}\n")
        .writing("gen/orders/orders.rs", "// messages\ninclude!(\"orders.tonic.rs\");\n")
        .writing("gen/orders/orders.tonic.rs", "// services\n")
        .writing("gen/users/users.rs", "pub struct User {}\ninclude!(\"users.tonic.rs\");")
        .writing("gen/users/users.tonic.rs", "")
}

#[test]
fn rust_repairs_the_modules_of_every_package() {
    let mut session = Session::new(generated_machine());
    let project =
        project(Lang::Rust, "gen", &["protos/orders.proto", "protos/users.proto"]);
    let compiler = RustCompiler { params: params(Lang::Rust) };
    assert_eq!(compiler.compile_project(&mut session, &project), Ok(()));
    let machine = session.os_manager();
    assert_eq!(
        machine.compilations(),
        vec![strings(&[
            "--prost_out=gen",
            "--tonic_out=gen",
            "protos/orders.proto",
            "protos/users.proto",
        ])]
    );
    assert_eq!(machine.content("gen/orders/orders.tonic.rs"), None);
    assert_eq!(
        machine.content("gen/orders/orders_tonic.rs"),
        Some("use super::orders::*;// services\n".to_string())
    );
    assert_eq!(machine.content("gen/orders/orders.rs"), Some("// messages\n\n".to_string()));
    assert_eq!(
        machine.content("gen/orders/mod.rs"),
        Some("pub mod orders;\npub mod orders_tonic;".to_string())
    );
    assert_eq!(machine.content("gen/users/users.tonic.rs"), None);
    assert_eq!(
        machine.content("gen/users/users_tonic.rs"),
        Some("use super::users::*;".to_string())
    );
    assert_eq!(machine.content("gen/users/users.rs"), Some("pub struct User {}\n".to_string()));
    assert_eq!(
        machine.content("gen/users/mod.rs"),
        Some("pub mod users;\npub mod users_tonic;".to_string())
    );
}

#[test]
fn rust_reads_the_packages_before_anything_is_run() {
    let mut session = Session::new(generated_machine());
    let project = project(Lang::Rust, "gen", &["protos/orders.proto", "protos/users.proto"]);
    let compiler = RustCompiler { params: params(Lang::Rust) };
    assert_eq!(compiler.compile_project(&mut session, &project), Ok(()));
    let machine = session.os_manager();
    assert_eq!(
        *machine.edits.borrow(),
        strings(&[
            "grep protos/orders.proto",
            "grep protos/users.proto",
            "rename gen/orders/orders.tonic.rs gen/orders/orders_tonic.rs",
            "replace gen/orders/orders.rs",
            "insert gen/orders/orders_tonic.rs",
            "write gen/orders/mod.rs",
            "rename gen/users/users.tonic.rs gen/users/users_tonic.rs",
            "replace gen/users/users.rs",
            "insert gen/users/users_tonic.rs",
            "write gen/users/mod.rs",
        ])
    );
    assert_eq!(
        machine.probes(),
        vec![
            ("protoc".to_string(), strings(&["--version"])),
            ("protoc-gen-tonic".to_string(), strings(&[""])),
            ("protoc-gen-prost".to_string(), strings(&[""])),
        ]
    );
}

#[test]
fn rust_fails_on_a_proto_without_package_before_anything_is_run() {
    let machine = Machine::new(&RUST_TOOLS).with_file("bad.proto", "message M {}");
    let mut session = Session::new(machine);
    let project = project(Lang::Rust, "gen", &["bad.proto"]);
    let compiler = RustCompiler { params: params(Lang::Rust) };
    assert_eq!(
        compiler.compile_project(&mut session, &project),
        Err("Package keyword missing in bad.proto".to_string())
    );
    assert!(session.os_manager().runs.borrow().is_empty());
}

#[test]
fn rust_repairs_nothing_when_the_compiler_fails() {
    let machine = generated_machine().answering(vec![Err("plugin crashed".to_string())]);
    let mut session = Session::new(machine);
    let project = project(Lang::Rust, "gen", &["protos/orders.proto"]);
    let compiler = RustCompiler { params: params(Lang::Rust) };
    assert_eq!(
        compiler.compile_project(&mut session, &project),
        Err("plugin crashed".to_string())
    );
    assert_eq!(*session.os_manager().edits.borrow(), strings(&["grep protos/orders.proto"]));
}

#[test]
fn a_failed_edit_ends_the_repair_and_keeps_what_was_done() {
    let machine = Machine::new(&RUST_TOOLS)
        .with_file("gen/orders/orders.rs", "include!(\"orders.tonic.rs\");")
        .with_file("gen/orders/orders.tonic.rs", "// services")
        .with_file("gen/users/users.rs", "include!(\"users.tonic.rs\");")
        .with_file("gen/stock/stock.rs", "include!(\"stock.tonic.rs\");")
        .with_file("gen/stock/stock.tonic.rs", "");
    let mut session = Session::new(machine);
    let mut packages = PackageSet::new();
    packages.insert("orders".to_string());
    packages.insert("users".to_string());
    packages.insert("stock".to_string());
    let compiler = RustCompiler { params: params(Lang::Rust) };
    assert_eq!(
        compiler.post_process(&mut session, "gen", &packages),
        Err("cannot rename gen/users/users.tonic.rs".to_string())
    );
    let machine = session.os_manager();
    assert_eq!(
        machine.content("gen/orders/orders_tonic.rs"),
        Some("use super::orders::*;// services".to_string())
    );
    assert_eq!(machine.content("gen/orders/orders.rs"), Some(String::new()));
    assert_eq!(
        machine.content("gen/orders/mod.rs"),
        Some("pub mod orders;\npub mod orders_tonic;".to_string())
    );
    assert_eq!(
        machine.content("gen/users/users.rs"),
        Some("include!(\"users.tonic.rs\");".to_string())
    );
    assert_eq!(machine.content("gen/users/mod.rs"), None);
    assert_eq!(machine.content("gen/stock/stock.tonic.rs"), Some(String::new()));
    assert_eq!(machine.content("gen/stock/mod.rs"), None);
    assert_eq!(machine.edits.borrow().len(), 5);
}

#[test]
fn each_of_the_four_edits_can_end_the_repair() {
    let compiler = RustCompiler { params: params(Lang::Rust) };
    let mut packages = PackageSet::new();
    packages.insert("p".to_string());

    let machine = Machine::new(&[]).with_file("gen/p/p.tonic.rs", "");
    let mut session = Session::new(machine);
    assert_eq!(
        compiler.post_process(&mut session, "gen", &packages),
        Err("cannot edit gen/p/p.rs".to_string())
    );
    assert_eq!(session.os_manager().edits.borrow().len(), 2);

    let machine =
        Machine::new(&[]).with_file("sealed/p/p.tonic.rs", "").with_file("sealed/p/p.rs", "");
    let mut session = Session::new(machine);
    assert_eq!(
        compiler.post_process(&mut session, "sealed", &packages),
        Err("cannot insert into sealed/p/p_tonic.rs".to_string())
    );
    assert_eq!(session.os_manager().edits.borrow().len(), 3);
    assert_eq!(session.os_manager().content("sealed/p/mod.rs"), None);

    let machine = Machine::new(&[])
        .with_file("readonly/p/p.tonic.rs", "")
        .with_file("readonly/p/p.rs", "");
    let mut session = Session::new(machine);
    assert_eq!(
        compiler.post_process(&mut session, "readonly", &packages),
        Err("cannot write readonly/p/mod.rs".to_string())
    );
    assert_eq!(session.os_manager().edits.borrow().len(), 4);
}

#[test]
fn every_occurrence_of_the_include_is_taken_out() {
    let machine = Machine::new(&[])
        .with_file(
            "gen/p/p.rs",
            "include!(\"p.tonic.rs\");\nstruct A;\ninclude!(\"p.tonic.rs\");\ninclude!(\"q.tonic.rs\");",
        )
        .with_file("gen/p/p.tonic.rs", "struct S;");
    let mut session = Session::new(machine);
    let mut packages = PackageSet::new();
    packages.insert("p".to_string());
    let compiler = RustCompiler { params: params(Lang::Rust) };
    assert_eq!(compiler.post_process(&mut session, "gen", &packages), Ok(()));
    assert_eq!(
        session.os_manager().content("gen/p/p.rs"),
        Some("\nstruct A;\n\ninclude!(\"q.tonic.rs\");".to_string())
    );
    assert_eq!(
        session.os_manager().content("gen/p/p_tonic.rs"),
        Some("use super::p::*;struct S;".to_string())
    );
}

#[test]
fn the_declaring_file_replaces_what_was_there() {
    let machine = Machine::new(&[])
        .with_file("gen/p/p.rs", "")
        .with_file("gen/p/p.tonic.rs", "")
        .with_file("gen/p/mod.rs", "pub mod stale;");
    let mut session = Session::new(machine);
    let mut packages = PackageSet::new();
    packages.insert("p".to_string());
    let compiler = RustCompiler { params: params(Lang::Rust) };
    assert_eq!(compiler.post_process(&mut session, "gen", &packages), Ok(()));
    assert_eq!(
        session.os_manager().content("gen/p/mod.rs"),
        Some("pub mod p;\npub mod p_tonic;".to_string())
    );
}

#[test]
fn the_messages_of_a_package_called_mod_are_overwritten() {
    let machine = Machine::new(&[])
        .with_file("gen/mod/mod.rs", "struct M;\ninclude!(\"mod.tonic.rs\");")
        .with_file("gen/mod/mod.tonic.rs", "struct S;");
    let mut session = Session::new(machine);
    let mut packages = PackageSet::new();
    packages.insert("mod".to_string());
    let compiler = RustCompiler { params: params(Lang::Rust) };
    assert_eq!(compiler.post_process(&mut session, "gen", &packages), Ok(()));
    assert_eq!(
        session.os_manager().content("gen/mod/mod.rs"),
        Some("pub mod mod;\npub mod mod_tonic;".to_string())
    );
    assert_eq!(
        session.os_manager().content("gen/mod/mod_tonic.rs"),
        Some("use super::mod::*;struct S;".to_string())
    );
}

#[test]
fn the_repair_reads_the_output_folder_as_a_path() {
    let compiler = RustCompiler { params: params(Lang::Rust) };
    let mut packages = PackageSet::new();
    packages.insert("p".to_string());

    let machine = Machine::new(&[]).with_file("p/p.rs", "").with_file("p/p.tonic.rs", "");
    let mut session = Session::new(machine);
    assert_eq!(compiler.post_process(&mut session, "", &packages), Ok(()));
    assert_eq!(
        session.os_manager().content("p/mod.rs"),
        Some("pub mod p;\npub mod p_tonic;".to_string())
    );
    assert_eq!(session.os_manager().content("p/p_tonic.rs"), Some("use super::p::*;".to_string()));

    let machine = Machine::new(&[]).with_file("out/p/p.rs", "").with_file("out/p/p.tonic.rs", "");
    let mut session = Session::new(machine);
    assert_eq!(compiler.post_process(&mut session, "out/", &packages), Ok(()));
    assert_eq!(
        *session.os_manager().edits.borrow(),
        strings(&[
            "rename out/p/p.tonic.rs out/p/p_tonic.rs",
            "replace out/p/p.rs",
            "insert out/p/p_tonic.rs",
            "write out/p/mod.rs",
        ])
    );
}

#[test]
fn the_repair_of_no_package_touches_nothing() {
    let mut session = Session::new(Machine::new(&[]));
    let compiler = RustCompiler { params: params(Lang::Rust) };
    assert_eq!(compiler.post_process(&mut session, "gen", &PackageSet::new()), Ok(()));
    assert!(session.os_manager().edits.borrow().is_empty());
}

#[test]
fn the_first_project_that_fails_ends_the_run() {
    let machine = Machine::new(&GO_TOOLS)
        .answering(vec![Ok(()), Err("second project does not compile".to_string()), Ok(())]);
    let mut session = Session::new(machine);
    let parser = ProtoweldParser {
        active_projects: vec![
            project(Lang::GoLang, "one", &["one.proto"]),
            project(Lang::GoLang, "two", &["two.proto"]),
            project(Lang::GoLang, "three", &["three.proto"]),
        ],
    };
    let result = generate_protos(&parser, &"/work/protoweld.yaml".to_string(), &mut session);
    assert_eq!(result, Err("second project does not compile".to_string()));
    assert_eq!(
        session.os_manager().compilations(),
        vec![
            strings(&["--go_out=one", "--go-grpc_out=one", "one.proto"]),
            strings(&["--go_out=two", "--go-grpc_out=two", "two.proto"]),
        ]
    );
    assert_eq!(session.os_manager().probes().len(), 8);
}

#[test]
fn a_run_compiles_every_project_with_the_compiler_of_its_language() {
    let tools = ["protoc", "go", "protoc-gen-go", "protoc-gen-go-grpc", "dotnet"];
    let mut session = Session::new(Machine::new(&tools));
    let mut csharp = project(Lang::DotNet, "cs", &["b.proto"]);
    csharp.plugin_path = Some("/opt/plugin".to_string());
    let parser = ProtoweldParser {
        active_projects: vec![project(Lang::GoLang, "go", &["a.proto"]), csharp],
    };
    let result = generate_protos(&parser, &"/work/protoweld.yaml".to_string(), &mut session);
    assert_eq!(result, Ok(()));
    assert_eq!(
        session.os_manager().compilations(),
        vec![
            strings(&["--go_out=go", "--go-grpc_out=go", "a.proto"]),
            strings(&[
                "--csharp_out=cs",
                "--grpc_out=cs",
                "--plugin=protoc-gen-grpc=/opt/plugin",
                "b.proto",
            ]),
        ]
    );
}

#[test]
fn a_run_without_projects_succeeds_and_asks_nothing() {
    let mut session = Session::new(Machine::new(&[]));
    let parser = ProtoweldParser { active_projects: Vec::new() };
    assert_eq!(generate_protos(&parser, &String::new(), &mut session), Ok(()));
    assert!(session.os_manager().runs.borrow().is_empty());
    assert!(session.os_manager().edits.borrow().is_empty());
}

#[test]
fn a_project_refused_in_the_middle_ends_the_run() {
    let mut session = Session::new(Machine::new(&GO_TOOLS));
    let mut refused = project(Lang::GoLang, "two", &["two.proto"]);
    refused.compile_options = vec![("--go_out".to_string(), "x".to_string())];
    let parser = ProtoweldParser {
        active_projects: vec![
            project(Lang::GoLang, "one", &["one.proto"]),
            refused,
            project(Lang::GoLang, "three", &["three.proto"]),
        ],
    };
    let result = generate_protos(&parser, &String::new(), &mut session);
    assert_eq!(
        result,
        Err("The argument --go_out do not must appear. Protoweld handle this using compiled_proto_folder option".to_string())
    );
    assert_eq!(session.os_manager().compilations().len(), 1);
    assert_eq!(session.os_manager().probes().len(), 8);
}

#[test]
fn the_compiler_of_a_language_is_chosen_by_the_language() {
    let base = "/work/protoweld.yaml".to_string();
    assert!(matches!(get_compiler(&Lang::GoLang, &base), Compiler::Go(_)));
    assert!(matches!(get_compiler(&Lang::DotNet, &base), Compiler::DotNet(_)));
    assert!(matches!(get_compiler(&Lang::Rust, &base), Compiler::Rust(_)));
    assert!(matches!(Compiler::from(params(Lang::Rust)), Compiler::Rust(_)));
    assert!(matches!(Compiler::from(params(Lang::GoLang)), Compiler::Go(_)));
    assert!(matches!(Compiler::from(params(Lang::DotNet)), Compiler::DotNet(_)));
}

#[test]
fn a_compiler_knows_the_path_it_was_made_with() {
    let base = "/work/protoweld.yaml".to_string();
    assert_eq!(get_compiler(&Lang::Rust, &base).input_file_path(), "/work/protoweld.yaml");
    assert_eq!(go().input_file_path(), "/work/protoweld.yaml");
    let compiler = DotNetCompiler { params: params(Lang::DotNet) };
    assert_eq!(compiler.input_file_path(), "/work/protoweld.yaml");
    let compiler = RustCompiler { params: params(Lang::Rust) };
    assert_eq!(compiler.input_file_path(), "/work/protoweld.yaml");
    match get_compiler(&Lang::DotNet, &base) {
        Compiler::DotNet(compiler) => assert_eq!(compiler.params.lang, Lang::DotNet),
        _ => panic!("the compiler of another language"),
    }
}
