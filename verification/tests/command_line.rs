use protoweld::compilers::command_line::{command_arguments, render_option};
use protoweld::text::join;
use protoweld::parser::types::{Lang, Project};

fn project(lang: Lang, options: &[(&str, &str)], plugin_path: Option<&str>) -> Project {
    Project {
        path: "services/orders".to_string(),
        compiled_proto_folder: "gen".to_string(),
        associated_proto_files: vec!["a.proto".to_string(), "dir/b.proto".to_string()],
        plugin_path: plugin_path.map(|path| path.to_string()),
        lang,
        compile_options: options
            .iter()
            .map(|(flag, value)| (flag.to_string(), value.to_string()))
            .collect(),
    }
}

fn strings(items: &[&str]) -> Vec<String> {
    items.iter().map(|item| item.to_string()).collect()
}

#[test]
fn an_option_without_value_is_the_flag_alone() {
    assert_eq!(
        render_option(&"--include_imports".to_string(), &String::new()),
        "--include_imports"
    );
}

#[test]
fn an_option_with_value_is_flag_equals_value() {
    assert_eq!(render_option(&"-I".to_string(), &"entities".to_string()), "-I=entities");
    assert_eq!(render_option(&"--x".to_string(), &"a=b".to_string()), "--x=a=b");
}

#[test]
fn the_command_line_is_options_outputs_and_protos_in_order() {
    let project = project(Lang::GoLang, &[("-I", "entities"), ("--include_imports", "")], None);
    assert_eq!(
        command_arguments(&project, "--go_out", "--go-grpc_out", None),
        Ok(strings(&[
            "-I=entities",
            "--include_imports",
            "--go_out=gen",
            "--go-grpc_out=gen",
            "a.proto",
            "dir/b.proto",
        ]))
    );
}

#[test]
fn the_command_line_of_a_project_without_options_or_protos() {
    let mut project = project(Lang::Rust, &[], None);
    project.associated_proto_files = Vec::new();
    assert_eq!(
        command_arguments(&project, "--prost_out", "--tonic_out", None),
        Ok(strings(&["--prost_out=gen", "--tonic_out=gen"]))
    );
}

#[test]
fn the_plugin_stands_between_the_outputs_and_the_protos() {
    let project = project(Lang::DotNet, &[("-I", "x")], Some("/opt/grpc_csharp_plugin"));
    assert_eq!(
        command_arguments(&project, "--csharp_out", "--grpc_out", Some("grpc_csharp_plugin")),
        Ok(strings(&[
            "-I=x",
            "--csharp_out=gen",
            "--grpc_out=gen",
            "--plugin=protoc-gen-grpc=/opt/grpc_csharp_plugin",
            "a.proto",
            "dir/b.proto",
        ]))
    );
}

#[test]
fn a_plugin_path_is_ignored_where_no_plugin_is_needed() {
    let project = project(Lang::GoLang, &[], Some("/opt/plugin"));
    assert_eq!(
        command_arguments(&project, "--go_out", "--go-grpc_out", None),
        Ok(strings(&["--go_out=gen", "--go-grpc_out=gen", "a.proto", "dir/b.proto"]))
    );
}

#[test]
fn a_project_that_sets_the_message_output_flag_is_refused() {
    let project = project(Lang::GoLang, &[("-I", "x"), ("--go_out", "elsewhere")], None);
    assert_eq!(
        command_arguments(&project, "--go_out", "--go-grpc_out", None),
        Err("The argument --go_out do not must appear. Protoweld handle this using compiled_proto_folder option".to_string())
    );
}

#[test]
fn a_project_that_sets_the_service_output_flag_is_refused() {
    let project = project(Lang::GoLang, &[("--go-grpc_out", "")], None);
    assert_eq!(
        command_arguments(&project, "--go_out", "--go-grpc_out", None),
        Err("The argument --go-grpc_out do not must appear. Protoweld handle this using compiled_proto_folder option".to_string())
    );
}

#[test]
fn the_refusal_names_the_first_output_flag_that_is_set() {
    let project = project(Lang::Rust, &[("--tonic_out", "a"), ("--prost_out", "b")], None);
    assert_eq!(
        command_arguments(&project, "--prost_out", "--tonic_out", None),
        Err("The argument --tonic_out do not must appear. Protoweld handle this using compiled_proto_folder option".to_string())
    );
}

#[test]
fn the_output_flag_of_another_language_is_an_ordinary_option() {
    let project = project(Lang::GoLang, &[("--csharp_out", "cs")], None);
    assert_eq!(
        command_arguments(&project, "--go_out", "--go-grpc_out", None),
        Ok(strings(&[
            "--csharp_out=cs",
            "--go_out=gen",
            "--go-grpc_out=gen",
            "a.proto",
            "dir/b.proto",
        ]))
    );
}

#[test]
fn a_project_without_plugin_path_is_refused_where_a_plugin_is_needed() {
    let project = project(Lang::DotNet, &[("-I", "x")], None);
    assert_eq!(
        command_arguments(&project, "--csharp_out", "--grpc_out", Some("grpc_csharp_plugin")),
        Err("The plugin grpc_csharp_plugin must have a path in plugin_path option".to_string())
    );
}

#[test]
fn an_output_flag_is_refused_before_a_missing_plugin_path() {
    let project = project(Lang::DotNet, &[("--grpc_out", "x")], None);
    assert_eq!(
        command_arguments(&project, "--csharp_out", "--grpc_out", Some("grpc_csharp_plugin")),
        Err("The argument --grpc_out do not must appear. Protoweld handle this using compiled_proto_folder option".to_string())
    );
}

#[test]
fn join_puts_the_separator_between_the_parts() {
    assert_eq!(join(&vec!["go", "protoc-gen-go"], ","), "go,protoc-gen-go");
    assert_eq!(join(&vec!["protoc"], ","), "protoc");
    assert_eq!(join(&Vec::new(), ","), "");
    assert_eq!(join(&vec!["a", "", "b"], ", "), "a, , b");
}
