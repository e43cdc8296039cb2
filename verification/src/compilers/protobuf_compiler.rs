//! What all languages share: probing for tools, running the compiler on the
//! command line of a project, and reading package names out of proto files.

use crate::compilers::langs_compilers::dotnet_compiler::dotnet_toolchain;
use crate::compilers::langs_compilers::go_compiler::go_toolchain;
use crate::compilers::langs_compilers::rust_compiler::{repair_steps, rust_toolchain};
use crate::compilers::command_line::{
    command_arguments, command_line, first_managed, lemma_some_option_is_first_managed,
    managed_flag_message, plugin_message,
};
use crate::compilers::packages::{
    declared_package, distinct, package_name, PackageSet, PACKAGE_KEYWORD,
};
use crate::os::script::{carried_out, script_result};
use crate::os::types::{outcome, reply_result, Exchange, OSManager, Reply, Request, Session};
use crate::parser::types::{Lang, Project};
use crate::text::{join, joined, literal_texts, texts, NOT_FOUND};
use vstd::prelude::*;

verus! {

/// The program that compiles proto files.
pub const COMPILER: &'static str = "protoc";

/// The request that probes whether `tool` is installed, by running it with
/// `version_flag` alone under the short time limit.
pub open spec fn probe(tool: Seq<char>, version_flag: Seq<char>) -> Request {
    Request::Run { command: tool, arguments: seq![version_flag], dependency: true }
}

/// Whether `request` runs a program only to see that it is installed.
pub open spec fn is_probe(request: Request) -> bool {
    request matches Request::Run { dependency, .. } && dependency
}

/// `journal` is what probing every tool of `deps` leaves behind: one probe for
/// each, in their order, whatever the answers.
pub open spec fn probed(
    deps: Seq<Seq<char>>,
    version_flags: Seq<Seq<char>>,
    journal: Seq<Exchange>,
) -> bool {
    &&& journal.len() == deps.len()
    &&& forall|at: int|
        0 <= at < deps.len() ==> (#[trigger] journal[at]).request == probe(
            deps[at],
            version_flags[at],
        ) && !(journal[at].reply is Found)
}

/// The tools of `deps` whose probe failed, in the order of `deps`.
pub open spec fn missing(deps: Seq<Seq<char>>, probes: Seq<Exchange>) -> Seq<Seq<char>>
    decreases deps.len(),
{
    if deps.len() == 0 || probes.len() == 0 {
        Seq::empty()
    } else {
        let earlier = missing(deps.drop_last(), probes.drop_last());
        if probes.last().reply is Failed {
            earlier.push(deps.last())
        } else {
            earlier
        }
    }
}

/// The refusal to compile while the tools `absent` are missing.
pub open spec fn missing_message(absent: Seq<Seq<char>>) -> Seq<char> {
    "Failed to check installation of the following dependencies: "@ + joined(absent, ","@)
}

/// What a language asks for: the tools that must be installed, the flag that
/// probes each, the compiler's two output flags, and the gRPC plugin if the
/// language needs one handed to the compiler.
#[verifier::ext_equal]
pub struct Toolchain {
    pub deps: Seq<Seq<char>>,
    pub version_flags: Seq<Seq<char>>,
    pub out_flag: Seq<char>,
    pub grpc_flag: Seq<char>,
    pub plugin: Option<Seq<char>>,
}

/// The toolchain that the arguments of a compilation describe.
pub open spec fn toolchain(
    deps: Seq<&'static str>,
    version_flags: Seq<&'static str>,
    out_flag: &'static str,
    grpc_flag: &'static str,
    plugin: Option<&'static str>,
) -> Toolchain {
    Toolchain {
        deps: literal_texts(deps),
        version_flags: literal_texts(version_flags),
        out_flag: out_flag@,
        grpc_flag: grpc_flag@,
        plugin: match plugin {
            Some(name) => Some(name@),
            None => None,
        },
    }
}

/// The request that runs the compiler on `arguments` under the long time
/// limit.
pub open spec fn compiler_run(arguments: Seq<Seq<char>>) -> Request {
    Request::Run { command: COMPILER@, arguments, dependency: false }
}

/// `journal` is what assembling and running the compilation of `project`
/// leaves behind: a probe of every tool; then, only where none is missing and
/// the project yields a command line, one run of the compiler on that line.
pub open spec fn assembled(project: &Project, tools: Toolchain, journal: Seq<Exchange>) -> bool {
    let count = tools.deps.len() as int;
    &&& count <= journal.len()
    &&& probed(tools.deps, tools.version_flags, journal.take(count))
    &&& if missing(tools.deps, journal.take(count)).len() > 0 {
        journal.len() == count
    } else {
        match command_line(project, tools.out_flag, tools.grpc_flag, tools.plugin) {
            Err(_) => journal.len() == count,
            Ok(arguments) => {
                &&& journal.len() == count + 1
                &&& journal[count].request == compiler_run(arguments)
                &&& !(journal[count].reply is Found)
            },
        }
    }
}

/// What the compilation journalled in `journal` came to: the list of missing
/// tools if there are any, else the refusal of the project if it yields no
/// command line, else what the compiler's run came to.
pub open spec fn assembly_result(project: &Project, tools: Toolchain, journal: Seq<Exchange>) -> Result<
    (),
    Seq<char>,
> {
    let count = tools.deps.len() as int;
    let absent = missing(tools.deps, journal.take(count));
    if absent.len() > 0 {
        Err(missing_message(absent))
    } else {
        match command_line(project, tools.out_flag, tools.grpc_flag, tools.plugin) {
            Err(message) => Err(message),
            Ok(_) => reply_result(journal[count].reply),
        }
    }
}

/// The refusal of a proto file in which the package keyword does not occur.
pub open spec fn keyword_missing_message(proto: Seq<char>) -> Seq<char> {
    "Package keyword missing in "@ + proto
}

/// The refusal of a proto file whose package declaration cannot be cut out.
pub open spec fn bad_structure_message() -> Seq<char> {
    "Bad .proto structure - Keyword package"@
}

/// The request that searches the file `proto` for the package keyword.
pub open spec fn keyword_search(proto: Seq<char>) -> Request {
    Request::Grep { path: proto, needle: PACKAGE_KEYWORD@ }
}

/// What the answer to the search of `proto` says of its package: the declared
/// name; or the failure of the search, the absence of the keyword, or a
/// declaration that cannot be cut out.
pub open spec fn package_of(proto: Seq<char>, reply: Reply) -> Result<Seq<char>, Seq<char>> {
    match reply {
        Reply::Found { content, offset } => {
            if offset == NOT_FOUND {
                Err(keyword_missing_message(proto))
            } else {
                match declared_package(content, offset) {
                    Some(name) => Ok(name),
                    None => Err(bad_structure_message()),
                }
            }
        },
        Reply::Failed { message } => Err(message),
        Reply::Done => Err(bad_structure_message()),
    }
}

/// `journal` is what reading the packages of `protos` leaves behind: one search
/// for each file in their order, up to and including the first that yields no
/// package.
pub open spec fn scanned(protos: Seq<Seq<char>>, journal: Seq<Exchange>) -> bool {
    &&& journal.len() <= protos.len()
    &&& forall|at: int|
        0 <= at < journal.len() ==> (#[trigger] journal[at]).request == keyword_search(protos[at])
            && !(journal[at].reply is Done)
    &&& forall|at: int|
        0 <= at < journal.len() - 1 ==> package_of(protos[at], (#[trigger] journal[at]).reply)
            is Ok
    &&& journal.len() < protos.len() ==> journal.len() > 0 && package_of(
        protos[journal.len() - 1],
        journal.last().reply,
    ) is Err
}

/// The packages that the searches of `journal` found, one for each search.
pub open spec fn found_packages(protos: Seq<Seq<char>>, journal: Seq<Exchange>) -> Seq<Seq<char>> {
    Seq::new(journal.len(), |at: int| package_of(protos[at], journal[at].reply)->Ok_0)
}

/// What reading the packages of `protos` came to: the refusal of the last file
/// searched if it yields no package, else the packages found, each once.
pub open spec fn scan_result(protos: Seq<Seq<char>>, journal: Seq<Exchange>) -> Result<
    Seq<Seq<char>>,
    Seq<char>,
> {
    if journal.len() > 0 && package_of(protos[journal.len() - 1], journal.last().reply) is Err {
        Err(package_of(protos[journal.len() - 1], journal.last().reply)->Err_0)
    } else {
        Ok(distinct(found_packages(protos, journal)))
    }
}

/// The names of a result whose success carries a set of packages.
pub open spec fn packages_view(packages: Result<PackageSet, String>) -> Result<
    Seq<Seq<char>>,
    Seq<char>,
> {
    match packages {
        Ok(set) => Ok(set.names()),
        Err(message) => Err(message@),
    }
}

/// What each language asks for.
pub open spec fn tools_of(lang: Lang) -> Toolchain {
    match lang {
        Lang::GoLang => go_toolchain(),
        Lang::DotNet => dotnet_toolchain(),
        Lang::Rust => rust_toolchain(),
    }
}

/// Whether the code generated for `lang` is repaired after the compiler's
/// run, for which the packages of the proto files are read before it.
pub open spec fn repairs(lang: Lang) -> bool {
    lang == Lang::Rust
}

/// The journal of one project's compilation, stage by stage: reading the
/// packages, assembling and running the compilation, repairing the generated
/// code.
pub struct ProjectRun {
    pub scan: Seq<Exchange>,
    pub assembly: Seq<Exchange>,
    pub repair: Seq<Exchange>,
}

impl ProjectRun {
    /// The exchanges of the three stages, one stage behind the other.
    pub open spec fn journal(self) -> Seq<Exchange> {
        self.scan + self.assembly + self.repair
    }
}

/// `run` is what compiling `project` for `lang` leaves behind. Where the
/// language is repaired, the packages are read first; the compilation follows
/// only if every file yields one, and the repair of those packages only if the
/// compilation succeeds. Where it is not, there is the compilation alone.
pub open spec fn compiled(lang: Lang, project: &Project, run: ProjectRun) -> bool {
    let protos = texts(project.associated_proto_files@);
    if repairs(lang) {
        &&& scanned(protos, run.scan)
        &&& match scan_result(protos, run.scan) {
            Err(_) => run.assembly.len() == 0 && run.repair.len() == 0,
            Ok(packages) => {
                &&& assembled(project, tools_of(lang), run.assembly)
                &&& match assembly_result(project, tools_of(lang), run.assembly) {
                    Err(_) => run.repair.len() == 0,
                    Ok(_) => carried_out(
                        repair_steps(project.compiled_proto_folder@, packages),
                        run.repair,
                    ),
                }
            },
        }
    } else {
        &&& run.scan.len() == 0
        &&& run.repair.len() == 0
        &&& assembled(project, tools_of(lang), run.assembly)
    }
}

/// What the compilation journalled in `run` came to: the failure of the first
/// stage that failed, else success.
pub open spec fn compile_result(lang: Lang, project: &Project, run: ProjectRun) -> Result<
    (),
    Seq<char>,
> {
    if repairs(lang) {
        match scan_result(texts(project.associated_proto_files@), run.scan) {
            Err(message) => Err(message),
            Ok(_) => match assembly_result(project, tools_of(lang), run.assembly) {
                Err(message) => Err(message),
                Ok(_) => script_result(run.repair),
            },
        }
    } else {
        assembly_result(project, tools_of(lang), run.assembly)
    }
}

/// `journal` is what compiling `project` for `lang` leaves behind, and
/// `result` is what that compilation came to.
pub open spec fn compiles(
    lang: Lang,
    project: &Project,
    journal: Seq<Exchange>,
    result: Result<(), Seq<char>>,
) -> bool {
    exists|run: ProjectRun|
        {
            &&& #[trigger] compiled(lang, project, run)
            &&& run.journal() == journal
            &&& compile_result(lang, project, run) == result
        }
}

/// What every compiler can tell of itself.
pub trait CompilerProperties {
    /// The language that this compiler generates.
    spec fn lang(&self) -> Lang;

    /// The text of the path that [`CompilerProperties::input_file_path`]
    /// hands out.
    spec fn base_path(&self) -> Seq<char>;

    /// The canonical path of the configuration that the projects came from.
    fn input_file_path(&self) -> (path: &String)
        ensures
            path@ == self.base_path(),
    ;
}

/// A compiler for one language. The provided methods are the steps that all
/// languages share; each journals its calls in the session it is given.
pub trait ProtobufCompiler: CompilerProperties {
    /// Generates the code of `project` in this compiler's language, through
    /// `os_manager`.
    fn compile_project<M: OSManager>(&self, os_manager: &mut Session<M>, project: &Project) -> (result:
        Result<(), String>)
        ensures
            final(os_manager).grew(old(os_manager)),
            compiles(
                self.lang(),
                project,
                final(os_manager).since(old(os_manager)),
                outcome(result),
            ),
    ;

    /// Probes every tool of `deps` by running it with the flag that stands at
    /// the same place in `version_flags`, and reports all that failed.
    fn ensure_dependencies<M: OSManager>(
        &self,
        os_manager: &mut Session<M>,
        deps: &Vec<&'static str>,
        version_flags: &Vec<&'static str>,
    ) -> (result: Result<(), Vec<&'static str>>)
        requires
            deps.len() == version_flags.len(),
        ensures
            final(os_manager).grew(old(os_manager)),
            probed(literal_texts(deps@), literal_texts(version_flags@), final(os_manager).since(old(os_manager))),
            result is Ok <==> missing(literal_texts(deps@), final(os_manager).since(old(os_manager))).len()
                == 0,
            result matches Err(failed) ==> literal_texts(failed@) == missing(
                literal_texts(deps@),
                final(os_manager).since(old(os_manager)),
            ),
    {
        let ghost before = *os_manager;
        let mut failed_commands: Vec<&'static str> = Vec::new();
        let mut at: usize = 0;
        while at < deps.len()
            invariant
                at <= deps.len(),
                deps.len() == version_flags.len(),
                os_manager.grew(&before),
                probed(
                    literal_texts(deps@).take(at as int),
                    literal_texts(version_flags@).take(at as int),
                    os_manager.since(&before),
                ),
                literal_texts(failed_commands@) == missing(
                    literal_texts(deps@).take(at as int),
                    os_manager.since(&before),
                ),
            decreases deps.len() - at,
        {
            let ghost earlier = *os_manager;
            let mut arguments: Vec<String> = Vec::new();
            arguments.push(String::from_str(version_flags[at]));
            let probe_result = os_manager.execute_command(deps[at], &arguments, true);
            proof {
                os_manager.chain(&earlier, &before);
                assert(texts(arguments@) =~= seq![version_flags@[at as int]@]);
                let journal = os_manager.since(&before);
                assert(journal.drop_last() =~= earlier.since(&before));
                assert(literal_texts(deps@).take(at + 1).drop_last() =~= literal_texts(deps@).take(at as int));
                assert(literal_texts(failed_commands@).push(deps@[at as int]@) =~= literal_texts(
                    failed_commands@.push(deps@[at as int]),
                ));
            }
            if let Err(_) = probe_result {
                failed_commands.push(deps[at]);
            }
            at += 1;
        }
        proof {
            assert(literal_texts(deps@).take(at as int) =~= literal_texts(deps@));
            assert(literal_texts(version_flags@).take(at as int) =~= literal_texts(version_flags@));
        }
        proof {
            assert(literal_texts(failed_commands@).len() == failed_commands.len());
        }
        if failed_commands.is_empty() {
            Ok(())
        } else {
            Err(failed_commands)
        }
    }

    /// Compiles `project`: probes the tools of `compiler_deps`, puts the
    /// command line together and runs the compiler on it. Fails, before the
    /// compiler is run, where a tool is missing or the project is refused;
    /// else reports what the compiler's run came to.
    fn assemble_compilation<M: OSManager>(
        &self,
        os_manager: &mut Session<M>,
        project: &Project,
        compiler_deps: Vec<&'static str>,
        compiler_version_flags: Vec<&'static str>,
        compiler_out_flag: &'static str,
        compiler_out_grpc_flag: &'static str,
        compiler_plugin: Option<&'static str>,
    ) -> (result: Result<(), String>)
        requires
            compiler_deps.len() == compiler_version_flags.len(),
        ensures
            final(os_manager).grew(old(os_manager)),
            assembled(
                project,
                toolchain(
                    compiler_deps@,
                    compiler_version_flags@,
                    compiler_out_flag,
                    compiler_out_grpc_flag,
                    compiler_plugin,
                ),
                final(os_manager).since(old(os_manager)),
            ),
            outcome(result) == assembly_result(
                project,
                toolchain(
                    compiler_deps@,
                    compiler_version_flags@,
                    compiler_out_flag,
                    compiler_out_grpc_flag,
                    compiler_plugin,
                ),
                final(os_manager).since(old(os_manager)),
            ),
    {
        let ghost before = *os_manager;
        let ghost count = compiler_deps.len() as int;
        let checked = self.ensure_dependencies(os_manager, &compiler_deps, &compiler_version_flags);
        proof {
            assert(os_manager.since(&before).take(count) =~= os_manager.since(&before));
        }
        if let Err(failed_dependencies) = checked {
            let mut error_msg = String::from_str(
                "Failed to check installation of the following dependencies: ",
            );
            let list = join(&failed_dependencies, ",");
            error_msg.append(list.as_str());
            return Err(error_msg);
        }
        let ghost probes = *os_manager;
        let command_args = match command_arguments(
            project,
            compiler_out_flag,
            compiler_out_grpc_flag,
            compiler_plugin,
        ) {
            Ok(arguments) => arguments,
            Err(refusal) => {
                return Err(refusal);
            },
        };
        let result = os_manager.execute_command(COMPILER, &command_args, false);
        proof {
            os_manager.chain(&probes, &before);
            assert(os_manager.since(&before).take(count) =~= probes.since(&before));
        }
        result
    }

    /// Reads the package that each file of `protos` declares, searching the
    /// files in their order, and gathers the names, each once. Stops at the
    /// first file that cannot be searched, does not hold the package keyword,
    /// or whose declaration cannot be cut out.
    fn get_packages_set<M: OSManager>(&self, os_manager: &mut Session<M>, protos: &Vec<String>) -> (result:
        Result<PackageSet, String>)
        ensures
            final(os_manager).grew(old(os_manager)),
            scanned(texts(protos@), final(os_manager).since(old(os_manager))),
            packages_view(result) == scan_result(
                texts(protos@),
                final(os_manager).since(old(os_manager)),
            ),
            result matches Ok(set) ==> set.wf(),
    {
        let ghost before = *os_manager;
        let ghost files = texts(protos@);
        let mut result = PackageSet::new();
        let mut at: usize = 0;
        proof {
            assert(found_packages(files, os_manager.since(&before)) =~= Seq::empty());
        }
        while at < protos.len()
            invariant
                at <= protos.len(),
                files == texts(protos@),
                before == *old(os_manager),
                os_manager.grew(&before),
                os_manager.since(&before).len() == at,
                forall|earlier: int|
                    0 <= earlier < at ==> (#[trigger] os_manager.since(&before)[earlier]).request
                        == keyword_search(files[earlier]) && !(os_manager.since(
                        &before,
                    )[earlier].reply is Done) && package_of(
                        files[earlier],
                        os_manager.since(&before)[earlier].reply,
                    ) is Ok,
                result.wf(),
                result.names() == distinct(found_packages(files, os_manager.since(&before))),
            decreases protos.len() - at,
        {
            let ghost earlier = *os_manager;
            let proto = &protos[at];
            let find_package = os_manager.grep(proto.as_str(), PACKAGE_KEYWORD);
            proof {
                os_manager.chain(&earlier, &before);
                let journal = os_manager.since(&before);
                assert(journal.drop_last() =~= earlier.since(&before));
                assert(journal.last() == os_manager.since(&earlier)[0]);
                assert(found_packages(files, journal).drop_last() =~= found_packages(
                    files,
                    earlier.since(&before),
                ));
                assert forall|i: int| 0 <= i < journal.len() - 1 implies package_of(
                    files[i],
                    (#[trigger] journal[i]).reply,
                ) is Ok by {
                    assert(journal[i] == earlier.since(&before)[i]);
                }
                assert forall|i: int| 0 <= i < journal.len() implies (#[trigger] journal[i]).request
                    == keyword_search(files[i]) && !(journal[i].reply is Done) by {
                    if i < at {
                        assert(journal[i] == earlier.since(&before)[i]);
                    }
                }
            }
            let grep_result = match find_package {
                Ok(found) => found,
                Err(e) => {
                    return Err(e);
                },
            };
            if grep_result.1 == NOT_FOUND {
                let mut message = String::from_str("Package keyword missing in ");
                message.append(proto.as_str());
                return Err(message);
            }
            match package_name(grep_result.0.as_str(), grep_result.1) {
                Some(name) => {
                    result.insert(name);
                },
                None => {
                    return Err(String::from_str("Bad .proto structure - Keyword package"));
                },
            }
            at += 1;
        }
        Ok(result)
    }
}

/// A tool is reported missing exactly if it is one of `deps` and its probe
/// failed: the report leaves out no tool that failed and names none that
/// answered.
pub proof fn missing_is_complete(deps: Seq<Seq<char>>, probes: Seq<Exchange>, tool: Seq<char>)
    requires
        probes.len() == deps.len(),
    ensures
        missing(deps, probes).contains(tool) <==> exists|at: int|
            0 <= at < deps.len() && deps[at] == tool && (#[trigger] probes[at]).reply is Failed,
    decreases deps.len(),
{
    if deps.len() > 0 {
        let earlier = missing(deps.drop_last(), probes.drop_last());
        let last = deps.len() - 1;
        missing_is_complete(deps.drop_last(), probes.drop_last(), tool);
        if missing(deps, probes).contains(tool) {
            if earlier.contains(tool) {
                let at = choose|at: int|
                    0 <= at < deps.drop_last().len() && deps.drop_last()[at] == tool && (
                    #[trigger] probes.drop_last()[at]).reply is Failed;
                assert(deps[at] == tool && probes[at].reply is Failed);
            } else {
                let place = choose|place: int|
                    0 <= place < missing(deps, probes).len() && missing(deps, probes)[place]
                        == tool;
                assert(probes[last].reply is Failed);
                assert(place == earlier.len());
                assert(deps[last] == tool);
            }
        }
        if exists|at: int|
            0 <= at < deps.len() && deps[at] == tool && (#[trigger] probes[at]).reply is Failed {
            let at = choose|at: int|
                0 <= at < deps.len() && deps[at] == tool && (#[trigger] probes[at]).reply is Failed;
            if at < last {
                assert(deps.drop_last()[at] == tool && probes.drop_last()[at].reply is Failed);
                assert(earlier.contains(tool));
                let place = choose|place: int| 0 <= place < earlier.len() && earlier[place] == tool;
                assert(missing(deps, probes)[place] == tool);
            } else {
                assert(missing(deps, probes) == earlier.push(tool));
                assert(earlier.push(tool)[earlier.len() as int] == tool);
            }
        }
    }
}

/// A project that sets one of the two output flags itself never reaches the
/// compiler. Its command line is refused with the message that names the first
/// such flag among its options; its compilation fails, with that message
/// unless a tool is missing; and the journal of its compilation holds the
/// probes of the tools and nothing else, so that nothing at all is run where
/// the language asks for no tool.
pub proof fn managed_flag_stops_compilation(
    project: &Project,
    tools: Toolchain,
    journal: Seq<Exchange>,
    at: int,
) -> (first: int)
    requires
        assembled(project, tools, journal),
        0 <= at < project.compile_options@.len(),
        project.compile_options@[at].0@ == tools.out_flag || project.compile_options@[at].0@
            == tools.grpc_flag,
    ensures
        first_managed(project.compile_options@, tools.out_flag, tools.grpc_flag, first),
        first <= at,
        command_line(project, tools.out_flag, tools.grpc_flag, tools.plugin) == Err::<
            Seq<Seq<char>>,
            Seq<char>,
        >(managed_flag_message(project.compile_options@[first].0@)),
        assembly_result(project, tools, journal) is Err,
        missing(tools.deps, journal).len() == 0 ==> assembly_result(project, tools, journal)
            == Err::<(), Seq<char>>(managed_flag_message(project.compile_options@[first].0@)),
        probed(tools.deps, tools.version_flags, journal),
        forall|step: int| 0 <= step < journal.len() ==> is_probe((#[trigger] journal[step]).request),
{
    let options = project.compile_options@;
    lemma_some_option_is_first_managed(options, tools.out_flag, tools.grpc_flag, at);
    let first = choose|first: int| first_managed(options, tools.out_flag, tools.grpc_flag, first);
    assert(journal.take(tools.deps.len() as int) =~= journal);
    if at < first {
        assert(options[at].0@ != tools.out_flag);
    }
    first
}

/// Where the language needs a plugin handed to the compiler and the project
/// names no path for it, the project never reaches the compiler. Its command
/// line is refused, with the message that names the plugin unless one of its
/// options sets an output flag; its compilation fails; and the journal of its
/// compilation holds the probes of the tools and nothing else, so that nothing
/// at all is run where the language asks for no tool.
pub proof fn missing_plugin_path_stops_compilation(
    project: &Project,
    tools: Toolchain,
    journal: Seq<Exchange>,
)
    requires
        assembled(project, tools, journal),
        tools.plugin is Some,
        project.plugin_path is None,
    ensures
        command_line(project, tools.out_flag, tools.grpc_flag, tools.plugin) is Err,
        (forall|at: int|
            0 <= at < project.compile_options@.len() ==> (
            #[trigger] project.compile_options@[at]).0@ != tools.out_flag
                && project.compile_options@[at].0@ != tools.grpc_flag) ==> command_line(
            project,
            tools.out_flag,
            tools.grpc_flag,
            tools.plugin,
        ) == Err::<Seq<Seq<char>>, Seq<char>>(plugin_message(tools.plugin->0)),
        assembly_result(project, tools, journal) is Err,
        probed(tools.deps, tools.version_flags, journal),
        forall|step: int| 0 <= step < journal.len() ==> is_probe((#[trigger] journal[step]).request),
{
    assert(journal.take(tools.deps.len() as int) =~= journal);
}

} // verus!
