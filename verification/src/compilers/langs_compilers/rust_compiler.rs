//! Rust: messages by prost, services by tonic, and the repair of the generated
//! modules.
//!
//! The generators write, for a package `p`, the messages to `p/p.rs` and the
//! services to `p/p.tonic.rs`. A Rust module cannot be named `p.tonic`, so the
//! service file becomes `p/p_tonic.rs`, the messages no longer include it, the
//! services import the messages, and `p/mod.rs` declares both.

use crate::compilers::langs_compilers::compiler_types::RustCompiler;
use crate::compilers::packages::PackageSet;
use crate::compilers::protobuf_compiler::{
    compiled, toolchain, CompilerProperties, ProjectRun, ProtobufCompiler, Toolchain,
};
use crate::os::files::{edited, edited_by};
use crate::os::paths::{child, child_path, is_absolute, lemma_child_differs, SEPARATOR};
use crate::os::script::{carried_out, script_result};
use crate::os::types::{outcome, OSManager, Request, Session};
use crate::parser::types::{Lang, Project};
use crate::text::{concat2, concat3, inserted, literal_texts, replaced};
use vstd::prelude::*;
use vstd::utf8::encode_utf8;

verus! {

/// The compiler's flag for the directory that receives the messages.
pub const RUST_MESSAGES_OUT_ARGUMENT: &'static str = "--prost_out";

/// The compiler's flag for the directory that receives the services.
pub const RUST_GRPC_OUT_ARGUMENT: &'static str = "--tonic_out";

/// The name of the file that declares the modules of a directory.
pub const RUST_STANDARD_MODULE_FILENAME: &'static str = "mod.rs";

/// What generating Rust asks for. The two generators answer to no version
/// flag, so they are probed with an empty argument.
pub open spec fn rust_toolchain() -> Toolchain {
    Toolchain {
        deps: seq!["protoc"@, "protoc-gen-tonic"@, "protoc-gen-prost"@],
        version_flags: seq!["--version"@, ""@, ""@],
        out_flag: RUST_MESSAGES_OUT_ARGUMENT@,
        grpc_flag: RUST_GRPC_OUT_ARGUMENT@,
        plugin: None,
    }
}

/// The file that holds the messages of `package`, below `folder`.
pub open spec fn messages_file(folder: Seq<char>, package: Seq<char>) -> Seq<char> {
    child(child(folder, package), package + ".rs"@)
}

/// The name under which the generator writes the services of `package`.
pub open spec fn generated_services_name(package: Seq<char>) -> Seq<char> {
    package + ".tonic.rs"@
}

/// The file to which the generator writes the services of `package`.
pub open spec fn generated_services_file(folder: Seq<char>, package: Seq<char>) -> Seq<char> {
    child(child(folder, package), generated_services_name(package))
}

/// The file that holds the services of `package` after the repair.
pub open spec fn services_file(folder: Seq<char>, package: Seq<char>) -> Seq<char> {
    child(child(folder, package), package + "_tonic.rs"@)
}

/// The file that declares the modules of `package`.
pub open spec fn module_file(folder: Seq<char>, package: Seq<char>) -> Seq<char> {
    child(child(folder, package), RUST_STANDARD_MODULE_FILENAME@)
}

/// The line by which the generated messages include the generated services.
pub open spec fn include_directive(package: Seq<char>) -> Seq<char> {
    "include!(\""@ + generated_services_name(package) + "\");"@
}

/// The line by which the services import the messages of their package.
pub open spec fn use_directive(package: Seq<char>) -> Seq<char> {
    "use super::"@ + package + "::*;"@
}

/// The text of the file that declares the messages and the services of
/// `package` as public modules.
pub open spec fn module_text(package: Seq<char>) -> Seq<char> {
    "pub mod "@ + package + ";\npub mod "@ + package + "_tonic;"@
}

/// The four edits that repair the modules of `package`, in their order: rename
/// the services, take the include out of the messages, put the import at the
/// start of the services, write the declaring file.
pub open spec fn package_steps(folder: Seq<char>, package: Seq<char>) -> Seq<Request> {
    seq![
        Request::Rename {
            from: generated_services_file(folder, package),
            to: services_file(folder, package),
        },
        Request::FindReplace {
            path: messages_file(folder, package),
            find: include_directive(package),
            replace: Seq::empty(),
        },
        Request::Insert {
            path: services_file(folder, package),
            position: 0,
            text: use_directive(package),
        },
        Request::Write { path: module_file(folder, package), content: module_text(package) },
    ]
}

/// The edits that repair the modules of all of `packages`: the four edits of
/// each package, package after package.
pub open spec fn repair_steps(folder: Seq<char>, packages: Seq<Seq<char>>) -> Seq<Request> {
    Seq::new(4 * packages.len(), |at: int| package_steps(folder, packages[at / 4])[at % 4])
}

impl RustCompiler {
    /// Repairs the generated modules of every package of `packages` below
    /// `folder`, package after package in the order of the set. The first edit
    /// that fails ends the repair; what was done until then stays done.
    pub fn post_process<M: OSManager>(
        &self,
        os_manager: &mut Session<M>,
        folder: &str,
        packages: &PackageSet,
    ) -> (result: Result<(), String>)
        ensures
            final(os_manager).grew(old(os_manager)),
            carried_out(
                repair_steps(folder@, packages.names()),
                final(os_manager).since(old(os_manager)),
            ),
            outcome(result) == script_result(final(os_manager).since(old(os_manager))),
    {
        let ghost before = *os_manager;
        let ghost script = repair_steps(folder@, packages.names());
        let count = packages.len();
        let mut at: usize = 0;
        while at < count
            invariant
                at <= count,
                count == packages.names().len(),
                before == *old(os_manager),
                script == repair_steps(folder@, packages.names()),
                os_manager.grew(&before),
                os_manager.since(&before).len() == 4 * at,
                forall|done: int|
                    0 <= done < 4 * at ==> (#[trigger] os_manager.since(&before)[done]).request
                        == script[done] && !(os_manager.since(&before)[done].reply is Failed),
            decreases count - at,
        {
            let pkg = packages.get(at);
            let ghost steps = package_steps(folder@, pkg@);
            proof {
                repair_steps_by_package(folder@, packages.names(), at as int);
                assert forall|step: int| 0 <= step < 4 implies script[4 * at + step]
                    == steps[step] by {
                    assert(script.subrange(4 * at, 4 * at + 4)[step] == script[4 * at + step]);
                }
            }
            let directory = child_path(folder, pkg.as_str());
            let prost_name = concat2(pkg.as_str(), ".rs");
            let bad_tonic_filename = concat2(pkg.as_str(), ".tonic.rs");
            let good_tonic_filename = concat2(pkg.as_str(), "_tonic.rs");
            let prost_file = child_path(directory.as_str(), prost_name.as_str());
            let bad_tonic_file = child_path(directory.as_str(), bad_tonic_filename.as_str());
            let good_tonic_file = child_path(directory.as_str(), good_tonic_filename.as_str());
            let declaring_file = child_path(directory.as_str(), RUST_STANDARD_MODULE_FILENAME);
            let directive = concat3("include!(\"", bad_tonic_filename.as_str(), "\");");
            let import = concat3("use super::", pkg.as_str(), "::*;");
            let mut module_file_content = concat3("pub mod ", pkg.as_str(), ";\npub mod ");
            module_file_content.append(pkg.as_str());
            module_file_content.append("_tonic;");

            let ghost start = *os_manager;
            let renamed = os_manager.rename_file(bad_tonic_file.as_str(), good_tonic_file.as_str());
            proof {
                os_manager.chain(&start, &before);
            }
            if let Err(e) = renamed {
                return Err(e);
            }
            let ghost first = *os_manager;
            let stripped = os_manager.find_replace(prost_file.as_str(), directive, String::new());
            proof {
                os_manager.chain(&first, &before);
            }
            if let Err(e) = stripped {
                return Err(e);
            }
            let ghost second = *os_manager;
            let imported = os_manager.insert_in_position(good_tonic_file.as_str(), 0, import);
            proof {
                os_manager.chain(&second, &before);
            }
            if let Err(e) = imported {
                return Err(e);
            }
            let ghost third = *os_manager;
            let declared = os_manager.write_new_file(declaring_file.as_str(), module_file_content);
            proof {
                os_manager.chain(&third, &before);
            }
            if let Err(e) = declared {
                return Err(e);
            }
            at += 1;
        }
        Ok(())
    }
}

/// The tools that must be installed to generate Rust.
pub fn rust_deps() -> (deps: Vec<&'static str>)
    ensures
        literal_texts(deps@) == rust_toolchain().deps,
{
    let deps: Vec<&'static str> = vec!["protoc", "protoc-gen-tonic", "protoc-gen-prost"];
    assert(literal_texts(deps@) =~= rust_toolchain().deps);
    deps
}

/// The flag that probes each tool of [`rust_deps`].
pub fn rust_version_flags() -> (flags: Vec<&'static str>)
    ensures
        literal_texts(flags@) == rust_toolchain().version_flags,
{
    let flags: Vec<&'static str> = vec!["--version", "", ""];
    assert(literal_texts(flags@) =~= rust_toolchain().version_flags);
    flags
}

impl CompilerProperties for RustCompiler {
    open spec fn lang(&self) -> Lang {
        Lang::Rust
    }

    open spec fn base_path(&self) -> Seq<char> {
        self.params.input_file_path@
    }

    fn input_file_path(&self) -> (path: &String) {
        &self.params.input_file_path
    }
}

impl ProtobufCompiler for RustCompiler {
    /// Generates the Rust code of `project`: reads the packages of its proto
    /// files, so that a file without package fails before the compiler runs;
    /// runs the compiler; then repairs the modules of each package.
    fn compile_project<M: OSManager>(&self, os_manager: &mut Session<M>, project: &Project) -> (result:
        Result<(), String>) {
        let ghost before = *os_manager;
        let packages = match self.get_packages_set(os_manager, &project.associated_proto_files) {
            Ok(packages) => packages,
            Err(e) => {
                proof {
                    let run = ProjectRun {
                        scan: os_manager.since(&before),
                        assembly: Seq::empty(),
                        repair: Seq::empty(),
                    };
                    assert(run.journal() =~= os_manager.since(&before));
                    assert(compiled(Lang::Rust, project, run));
                }
                return Err(e);
            },
        };
        let ghost scanned = *os_manager;
        let deps = rust_deps();
        let version_flags = rust_version_flags();
        proof {
            assert(literal_texts(deps@).len() == deps.len());
            assert(literal_texts(version_flags@).len() == version_flags.len());
            assert(toolchain(
                deps@,
                version_flags@,
                RUST_MESSAGES_OUT_ARGUMENT,
                RUST_GRPC_OUT_ARGUMENT,
                None,
            ) =~= rust_toolchain());
        }
        let assembly = self.assemble_compilation(
            os_manager,
            project,
            deps,
            version_flags,
            RUST_MESSAGES_OUT_ARGUMENT,
            RUST_GRPC_OUT_ARGUMENT,
            None,
        );
        let ghost assembled = *os_manager;
        proof {
            assembled.chain(&scanned, &before);
        }
        if let Err(e) = assembly {
            proof {
                let run = ProjectRun {
                    scan: scanned.since(&before),
                    assembly: assembled.since(&scanned),
                    repair: Seq::empty(),
                };
                assert(run.journal() =~= os_manager.since(&before));
                assert(compiled(Lang::Rust, project, run));
            }
            return Err(e);
        }
        let result = self.post_process(
            os_manager,
            project.compiled_proto_folder.as_str(),
            &packages,
        );
        proof {
            os_manager.chain(&assembled, &before);
            let run = ProjectRun {
                scan: scanned.since(&before),
                assembly: assembled.since(&scanned),
                repair: os_manager.since(&assembled),
            };
            assert(run.journal() =~= os_manager.since(&before));
            assert(compiled(Lang::Rust, project, run));
        }
        result
    }
}

/// The edits that repair a list of packages are the four edits of each
/// package, one package behind the other.
pub proof fn repair_steps_by_package(folder: Seq<char>, packages: Seq<Seq<char>>, at: int)
    requires
        0 <= at < packages.len(),
    ensures
        repair_steps(folder, packages).len() == 4 * packages.len(),
        repair_steps(folder, packages).subrange(4 * at, 4 * at + 4) == package_steps(
            folder,
            packages[at],
        ),
{
    let all = repair_steps(folder, packages);
    let four = package_steps(folder, packages[at]);
    assert forall|step: int| 0 <= step < 4 implies all.subrange(4 * at, 4 * at + 4)[step]
        == four[step] by {
        assert((4 * at + step) / 4 == at);
        assert((4 * at + step) % 4 == step);
    }
    assert(all.subrange(4 * at, 4 * at + 4) =~= four);
}

/// The four files of a package are four different files, unless the package
/// is called `mod`: then its messages lie in the file that declares its
/// modules.
pub proof fn lemma_package_files_differ(folder: Seq<char>, package: Seq<char>)
    ensures
        generated_services_file(folder, package) != services_file(folder, package),
        generated_services_file(folder, package) != messages_file(folder, package),
        generated_services_file(folder, package) != module_file(folder, package),
        services_file(folder, package) != messages_file(folder, package),
        services_file(folder, package) != module_file(folder, package),
        package != "mod"@ ==> messages_file(folder, package) != module_file(folder, package),
{
    reveal_strlit(".rs");
    reveal_strlit(".tonic.rs");
    reveal_strlit("_tonic.rs");
    reveal_strlit("mod.rs");
    reveal_strlit("mod");
    let directory = child(folder, package);
    let generated = package + ".tonic.rs"@;
    let services = package + "_tonic.rs"@;
    let messages = package + ".rs"@;
    let module = RUST_STANDARD_MODULE_FILENAME@;
    assert(generated[package.len() as int] == '.');
    assert(services[package.len() as int] == '_');
    assert(generated.len() == package.len() + 9);
    assert(services.len() == package.len() + 9);
    assert(messages.len() == package.len() + 3);
    assert(module.len() == 6);
    assert(module[0] == 'm');
    if is_absolute(package) {
        assert(generated[0] == SEPARATOR);
        assert(services[0] == SEPARATOR);
        assert(messages[0] == SEPARATOR);
        assert(directory == package);
        assert(child(directory, module).len() >= package.len() + 6) by {
            if package.last() == SEPARATOR {
                assert(child(directory, module) =~= package + module);
            } else {
                assert(child(directory, module) =~= package + seq![SEPARATOR] + module);
            }
        }
        assert(child(directory, module).len() <= package.len() + 7) by {
            if package.last() == SEPARATOR {
                assert(child(directory, module) =~= package + module);
            } else {
                assert(child(directory, module) =~= package + seq![SEPARATOR] + module);
            }
        }
    } else {
        if package.len() > 0 {
            assert(generated[0] == package[0]);
            assert(services[0] == package[0]);
            assert(messages[0] == package[0]);
        } else {
            assert(generated[0] == '.');
            assert(services[0] == '_');
            assert(messages[0] == '.');
        }
        if messages == module {
            assert(package.len() == 3);
            assert(package =~= "mod"@) by {
                assert forall|at: int| 0 <= at < 3 implies package[at] == "mod"@[at] by {
                    assert(messages[at] == package[at]);
                }
            }
        }
        lemma_child_differs(directory, generated, services);
        lemma_child_differs(directory, generated, messages);
        lemma_child_differs(directory, generated, module);
        lemma_child_differs(directory, services, messages);
        lemma_child_differs(directory, services, module);
        if package != "mod"@ {
            lemma_child_differs(directory, messages, module);
        }
    }
}

/// What the repair of one package leaves behind. Where the generators have
/// written the messages and the services of `package` below `folder`, and the
/// platform carries out the four edits as asked, every edit has an outcome,
/// and afterwards: the services lie in their new file and no longer in the
/// generated one, and begin with the import of the messages, followed by all
/// that was generated; the messages are as generated, but for the include of
/// the generated services, which is gone; the declaring file holds the two
/// module declarations; and every other file is as it was.
///
/// A package called `mod` is left out: its messages lie in the file that the
/// last edit overwrites.
pub proof fn repair_of_a_package(
    files: Map<Seq<char>, Seq<u8>>,
    folder: Seq<char>,
    package: Seq<char>,
)
    requires
        files.contains_key(messages_file(folder, package)),
        files.contains_key(generated_services_file(folder, package)),
        package != "mod"@,
    ensures
        edited_by(files, package_steps(folder, package)) matches Some(after) && {
            &&& after.contains_key(services_file(folder, package))
            &&& after[services_file(folder, package)] == encode_utf8(use_directive(package))
                + files[generated_services_file(folder, package)]
            &&& !after.contains_key(generated_services_file(folder, package))
            &&& after.contains_key(messages_file(folder, package))
            &&& after[messages_file(folder, package)] == replaced(
                files[messages_file(folder, package)],
                encode_utf8(include_directive(package)),
                Seq::empty(),
            )
            &&& after.contains_key(module_file(folder, package))
            &&& after[module_file(folder, package)] == encode_utf8(module_text(package))
            &&& forall|path: Seq<char>|
                path != services_file(folder, package) && path != generated_services_file(
                    folder,
                    package,
                ) && path != messages_file(folder, package) && path != module_file(folder, package)
                    ==> after.contains_key(path) == files.contains_key(path) && (
                files.contains_key(path) ==> after[path] == files[path])
        },
{
    lemma_package_files_differ(folder, package);
    let steps = package_steps(folder, package);
    let generated = generated_services_file(folder, package);
    let services = services_file(folder, package);
    let messages = messages_file(folder, package);
    let renamed = files.remove(generated).insert(services, files[generated]);
    let stripped = renamed.insert(
        messages,
        replaced(renamed[messages], encode_utf8(include_directive(package)), encode_utf8(Seq::empty())),
    );
    let imported = stripped.insert(
        services,
        inserted(stripped[services], 0, encode_utf8(use_directive(package))),
    );
    let declared = imported.insert(
        module_file(folder, package),
        encode_utf8(module_text(package)),
    );
    assert(encode_utf8(Seq::<char>::empty()) =~= Seq::<u8>::empty());
    assert(inserted(stripped[services], 0, encode_utf8(use_directive(package))) =~= encode_utf8(
        use_directive(package),
    ) + files[generated]);
    let second = steps.drop_first();
    let third = second.drop_first();
    let fourth = third.drop_first();
    assert(edited(files, steps[0]) == Some(renamed));
    assert(edited(renamed, second[0]) == Some(stripped));
    assert(edited(stripped, third[0]) == Some(imported));
    assert(edited(imported, fourth[0]) == Some(declared));
    assert(fourth.drop_first().len() == 0);
    assert(edited_by(declared, fourth.drop_first()) == Some(declared));
    assert(edited_by(imported, fourth) == Some(declared));
    assert(edited_by(stripped, third) == Some(declared));
    assert(edited_by(renamed, second) == Some(declared));
    assert(edited_by(files, steps) == Some(declared));
}

} // verus!
