//! The command line of the compiler for one project.


use crate::parser::types::Project;
use crate::text::{lemma_texts_push, lemma_texts_take, same_text, texts};
use vstd::prelude::*;

verus! {

/// How an extra option is written on the command line: the flag alone when it
/// has no value, else the flag, `=` and the value.
pub open spec fn option_text(flag: Seq<char>, value: Seq<char>) -> Seq<char> {
    if value.len() == 0 {
        flag
    } else {
        flag + "="@ + value
    }
}

/// The extra options of a project as they are written on the command line.
pub open spec fn option_texts(options: Seq<(String, String)>) -> Seq<Seq<char>> {
    options.map_values(|option: (String, String)| option_text(option.0@, option.1@))
}

/// The option at `at` is the first whose flag is one of the two output flags,
/// which a project may not set.
pub open spec fn first_managed(
    options: Seq<(String, String)>,
    out_flag: Seq<char>,
    grpc_flag: Seq<char>,
    at: int,
) -> bool {
    &&& 0 <= at < options.len()
    &&& options[at].0@ == out_flag || options[at].0@ == grpc_flag
    &&& forall|earlier: int|
        0 <= earlier < at ==> (#[trigger] options[earlier]).0@ != out_flag && options[earlier].0@
            != grpc_flag
}

/// The refusal of a project that sets an output flag itself.
pub open spec fn managed_flag_message(flag: Seq<char>) -> Seq<char> {
    "The argument "@ + flag
        + " do not must appear. Protoweld handle this using compiled_proto_folder option"@
}

/// The refusal of a project that names no plugin path although its language
/// needs the plugin `plugin`.
pub open spec fn plugin_message(plugin: Seq<char>) -> Seq<char> {
    "The plugin "@ + plugin + " must have a path in plugin_path option"@
}

/// An output flag set to the project's output directory.
pub open spec fn output_text(flag: Seq<char>, folder: Seq<char>) -> Seq<char> {
    flag + "="@ + folder
}

/// The argument that hands the compiler the gRPC plugin at `path`.
pub open spec fn plugin_text(path: Seq<char>) -> Seq<char> {
    "--plugin=protoc-gen-grpc="@ + path
}

/// The compiler's arguments for `project`, or why there are none: the extra
/// options in their order, the two output flags set to the output directory,
/// the plugin where the language has one, then the proto files in their order.
pub open spec fn command_line(
    project: &Project,
    out_flag: Seq<char>,
    grpc_flag: Seq<char>,
    plugin: Option<Seq<char>>,
) -> Result<Seq<Seq<char>>, Seq<char>> {
    let options = project.compile_options@;
    if exists|at: int| first_managed(options, out_flag, grpc_flag, at) {
        let at = choose|at: int| first_managed(options, out_flag, grpc_flag, at);
        Err(managed_flag_message(options[at].0@))
    } else if plugin is Some && project.plugin_path is None {
        Err(plugin_message(plugin->0))
    } else {
        Ok(
            option_texts(options) + seq![
                output_text(out_flag, project.compiled_proto_folder@),
                output_text(grpc_flag, project.compiled_proto_folder@),
            ] + (if plugin is Some {
                seq![plugin_text(project.plugin_path->0@)]
            } else {
                seq![]
            }) + texts(project.associated_proto_files@),
        )
    }
}

/// The views of a result whose success carries a list of strings.
pub open spec fn line_view(line: Result<Vec<String>, String>) -> Result<Seq<Seq<char>>, Seq<char>> {
    match line {
        Ok(arguments) => Ok(texts(arguments@)),
        Err(message) => Err(message@),
    }
}

/// Writes one extra option as the compiler reads it.
pub fn render_option(flag: &String, value: &String) -> (text: String)
    ensures
        text@ == option_text(flag@, value@),
{
    if value.as_str().is_empty() {
        flag.clone()
    } else {
        let mut text = flag.clone();
        text.append("=");
        text.append(value.as_str());
        text
    }
}

/// Puts the compiler's arguments for `project` together. A project that sets
/// one of the two output flags itself is refused, and so is one without a
/// plugin path where `plugin` names a plugin.
pub fn command_arguments(
    project: &Project,
    out_flag: &str,
    grpc_flag: &str,
    plugin: Option<&str>,
) -> (line: Result<Vec<String>, String>)
    ensures
        line_view(line) == command_line(
            project,
            out_flag@,
            grpc_flag@,
            match plugin {
                Some(name) => Some(name@),
                None => None,
            },
        ),
{
    let ghost options = project.compile_options@;
    let mut arguments: Vec<String> = Vec::new();
    let mut at: usize = 0;
    while at < project.compile_options.len()
        invariant
            at <= project.compile_options.len(),
            options == project.compile_options@,
            texts(arguments@) == option_texts(options.take(at as int)),
            forall|earlier: int|
                0 <= earlier < at ==> (#[trigger] options[earlier]).0@ != out_flag@
                    && options[earlier].0@ != grpc_flag@,
        decreases project.compile_options.len() - at,
    {
        let option = &project.compile_options[at];
        if same_text(option.0.as_str(), out_flag) || same_text(option.0.as_str(), grpc_flag) {
            let mut message = String::from_str("The argument ");
            message.append(option.0.as_str());
            message.append(
                " do not must appear. Protoweld handle this using compiled_proto_folder option",
            );
            proof {
                assert(first_managed(options, out_flag@, grpc_flag@, at as int));
                lemma_first_managed_unique(options, out_flag@, grpc_flag@, at as int);
                assert(message@ =~= managed_flag_message(options[at as int].0@));
            }
            return Err(message);
        }
        let text = render_option(&option.0, &option.1);
        proof {
            lemma_texts_push(arguments@, text);
            lemma_option_texts_take(options, at as int);
        }
        arguments.push(text);
        at += 1;
    }
    proof {
        assert(options.take(at as int) =~= options);
        assert(!exists|i: int| first_managed(options, out_flag@, grpc_flag@, i));
    }
    let mut out_text = String::from_str(out_flag);
    out_text.append("=");
    out_text.append(project.compiled_proto_folder.as_str());
    arguments.push(out_text);
    let mut grpc_text = String::from_str(grpc_flag);
    grpc_text.append("=");
    grpc_text.append(project.compiled_proto_folder.as_str());
    arguments.push(grpc_text);
    if let Some(name) = plugin {
        match &project.plugin_path {
            Some(path) => {
                let mut plugin_flag = String::from_str("--plugin=protoc-gen-grpc=");
                plugin_flag.append(path.as_str());
                arguments.push(plugin_flag);
            },
            None => {
                let mut message = String::from_str("The plugin ");
                message.append(name);
                message.append(" must have a path in plugin_path option");
                return Err(message);
            },
        }
    }
    let ghost head = arguments@;
    let mut next: usize = 0;
    while next < project.associated_proto_files.len()
        invariant
            next <= project.associated_proto_files.len(),
            texts(arguments@) == texts(head) + texts(
                project.associated_proto_files@.take(next as int),
            ),
        decreases project.associated_proto_files.len() - next,
    {
        let file = project.associated_proto_files[next].clone();
        proof {
            lemma_texts_push(arguments@, file);
            lemma_texts_take(project.associated_proto_files@, next as int);
        }
        arguments.push(file);
        next += 1;
    }
    proof {
        assert(project.associated_proto_files@.take(next as int)
            =~= project.associated_proto_files@);
        let wanted = command_line(
            project,
            out_flag@,
            grpc_flag@,
            match plugin {
                Some(name) => Some(name@),
                None => None,
            },
        );
        assert(wanted is Ok);
        assert(texts(arguments@) =~= wanted->Ok_0);
    }
    Ok(arguments)
}

/// Taking one more option takes one more option text.
pub proof fn lemma_option_texts_take(options: Seq<(String, String)>, count: int)
    requires
        0 <= count < options.len(),
    ensures
        option_texts(options.take(count + 1)) == option_texts(options.take(count)).push(
            option_text(options[count].0@, options[count].1@),
        ),
{
    assert(option_texts(options.take(count + 1)) =~= option_texts(options.take(count)).push(
        option_text(options[count].0@, options[count].1@),
    ));
}

/// Where some option is the first to name an output flag, no other is.
pub proof fn lemma_first_managed_unique(
    options: Seq<(String, String)>,
    out_flag: Seq<char>,
    grpc_flag: Seq<char>,
    at: int,
)
    requires
        first_managed(options, out_flag, grpc_flag, at),
    ensures
        (choose|other: int| first_managed(options, out_flag, grpc_flag, other)) == at,
{
    let other = choose|other: int| first_managed(options, out_flag, grpc_flag, other);
    assert(first_managed(options, out_flag, grpc_flag, other));
    if other < at {
        assert(options[other].0@ != out_flag);
    } else if at < other {
        assert(options[at].0@ != out_flag);
    }
}

/// A command line never carries an output flag that the project set: where
/// the project yields a command line, none of its options names one of the two
/// output flags, and the line begins with those options as they were written.
pub proof fn command_line_keeps_managed_flags_out(
    project: &Project,
    out_flag: Seq<char>,
    grpc_flag: Seq<char>,
    plugin: Option<Seq<char>>,
    at: int,
)
    requires
        command_line(project, out_flag, grpc_flag, plugin) is Ok,
        0 <= at < project.compile_options@.len(),
    ensures
        project.compile_options@[at].0@ != out_flag,
        project.compile_options@[at].0@ != grpc_flag,
        command_line(project, out_flag, grpc_flag, plugin)->Ok_0[at] == option_text(
            project.compile_options@[at].0@,
            project.compile_options@[at].1@,
        ),
{
    let options = project.compile_options@;
    if options[at].0@ == out_flag || options[at].0@ == grpc_flag {
        lemma_some_option_is_first_managed(options, out_flag, grpc_flag, at);
    }
}

/// Where some option names an output flag, one of them is the first to do so.
pub proof fn lemma_some_option_is_first_managed(
    options: Seq<(String, String)>,
    out_flag: Seq<char>,
    grpc_flag: Seq<char>,
    at: int,
)
    requires
        0 <= at < options.len(),
        options[at].0@ == out_flag || options[at].0@ == grpc_flag,
    ensures
        exists|first: int| first_managed(options, out_flag, grpc_flag, first),
    decreases at,
{
    if exists|earlier: int|
        0 <= earlier < at && ((#[trigger] options[earlier]).0@ == out_flag || options[earlier].0@
            == grpc_flag) {
        let earlier = choose|earlier: int|
            0 <= earlier < at && ((#[trigger] options[earlier]).0@ == out_flag
                || options[earlier].0@ == grpc_flag);
        lemma_some_option_is_first_managed(options, out_flag, grpc_flag, earlier);
    } else {
        assert(first_managed(options, out_flag, grpc_flag, at));
    }
}

} // verus!
