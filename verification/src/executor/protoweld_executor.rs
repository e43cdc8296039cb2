//! One run: the projects in their order, up to the first that fails.

use crate::compilers::protobuf_compiler::{compile_result, compiled, ProjectRun, ProtobufCompiler};
use crate::compilers::shared::get_compiler;
use crate::os::types::{outcome, Exchange, OSManager, Session};
use crate::parser::types::{Project, ProtoweldParser};
use vstd::prelude::*;

verus! {

/// The journals of `runs`, one run behind the other.
pub open spec fn journal_of(runs: Seq<ProjectRun>) -> Seq<Exchange>
    decreases runs.len(),
{
    if runs.len() == 0 {
        Seq::empty()
    } else {
        journal_of(runs.drop_last()) + runs.last().journal()
    }
}

/// `runs` is what generating the code of `projects` leaves behind: the
/// compilation of each project in their order, up to and including the first
/// that failed.
pub open spec fn generated(projects: Seq<Project>, runs: Seq<ProjectRun>) -> bool {
    &&& runs.len() <= projects.len()
    &&& forall|at: int|
        0 <= at < runs.len() ==> compiled(projects[at].lang, &projects[at], #[trigger] runs[at])
    &&& forall|at: int|
        0 <= at < runs.len() - 1 ==> compile_result(
            projects[at].lang,
            &projects[at],
            #[trigger] runs[at],
        ) is Ok
    &&& runs.len() < projects.len() ==> runs.len() > 0 && compile_result(
        projects[runs.len() - 1].lang,
        &projects[runs.len() - 1],
        runs.last(),
    ) is Err
}

/// What generating the code of `projects` came to: the failure of the last
/// project compiled if it failed, else success.
pub open spec fn generation_result(projects: Seq<Project>, runs: Seq<ProjectRun>) -> Result<
    (),
    Seq<char>,
> {
    if runs.len() > 0 {
        compile_result(projects[runs.len() - 1].lang, &projects[runs.len() - 1], runs.last())
    } else {
        Ok(())
    }
}

/// `journal` is what generating the code of `projects` leaves behind, and
/// `result` is what it came to.
pub open spec fn generates(
    projects: Seq<Project>,
    journal: Seq<Exchange>,
    result: Result<(), Seq<char>>,
) -> bool {
    exists|runs: Seq<ProjectRun>|
        {
            &&& #[trigger] generated(projects, runs)
            &&& journal_of(runs) == journal
            &&& generation_result(projects, runs) == result
        }
}

/// Generates the code of every project of `parser`, in their order, each with
/// the compiler of its language. The first project that fails ends the run
/// with its failure; the projects behind it are not touched.
pub fn generate_protos<M: OSManager>(
    parser: &ProtoweldParser,
    base_file_path: &String,
    os_manager: &mut Session<M>,
) -> (result: Result<(), String>)
    ensures
        final(os_manager).grew(old(os_manager)),
        generates(
            parser.active_projects@,
            final(os_manager).since(old(os_manager)),
            outcome(result),
        ),
{
    let ghost before = *os_manager;
    let ghost projects = parser.active_projects@;
    let ghost mut runs: Seq<ProjectRun> = Seq::empty();
    let mut at: usize = 0;
    proof {
        assert(os_manager.since(&before) =~= journal_of(runs));
    }
    while at < parser.active_projects.len()
        invariant
            at <= parser.active_projects.len(),
            projects == parser.active_projects@,
            before == *old(os_manager),
            os_manager.grew(&before),
            runs.len() == at,
            journal_of(runs) == os_manager.since(&before),
            forall|done: int|
                0 <= done < at ==> compiled(
                    projects[done].lang,
                    &projects[done],
                    #[trigger] runs[done],
                ) && compile_result(projects[done].lang, &projects[done], runs[done]) is Ok,
        decreases parser.active_projects.len() - at,
    {
        let ghost earlier = *os_manager;
        let project = &parser.active_projects[at];
        let compiler = get_compiler(&project.lang, base_file_path);
        let compilation_result = compiler.compile_project(os_manager, project);
        proof {
            os_manager.chain(&earlier, &before);
            let run = choose|run: ProjectRun|
                {
                    &&& #[trigger] compiled(project.lang, project, run)
                    &&& run.journal() == os_manager.since(&earlier)
                    &&& compile_result(project.lang, project, run) == outcome(
                        compilation_result,
                    )
                };
            let longer = runs.push(run);
            assert(longer.drop_last() =~= runs);
            assert forall|done: int| 0 <= done < longer.len() implies compiled(
                projects[done].lang,
                &projects[done],
                #[trigger] longer[done],
            ) by {
                if done < at {
                    assert(longer[done] == runs[done]);
                }
            }
            assert forall|done: int| 0 <= done < longer.len() - 1 implies compile_result(
                projects[done].lang,
                &projects[done],
                #[trigger] longer[done],
            ) is Ok by {
                assert(longer[done] == runs[done]);
            }
            runs = longer;
        }
        if let Err(error) = compilation_result {
            proof {
                assert(generated(projects, runs));
            }
            return Err(error);
        }
        at += 1;
    }
    proof {
        assert(generated(projects, runs));
    }
    Ok(())
}

/// The first project that fails is the last that is compiled: where the
/// compilation of the project at `at` failed, no project behind it has a run,
/// the journal of the whole ends with that of this project, and the failure
/// of the whole is the failure of this project.
pub proof fn failure_ends_the_run(projects: Seq<Project>, runs: Seq<ProjectRun>, at: int)
    requires
        generated(projects, runs),
        0 <= at < runs.len(),
        compile_result(projects[at].lang, &projects[at], runs[at]) is Err,
    ensures
        runs.len() == at + 1,
        journal_of(runs) == journal_of(runs.take(at)) + runs[at].journal(),
        generation_result(projects, runs) == compile_result(
            projects[at].lang,
            &projects[at],
            runs[at],
        ),
{
    if at < runs.len() - 1 {
        assert(compile_result(projects[at].lang, &projects[at], runs[at]) is Ok);
    }
    assert(runs.drop_last() =~= runs.take(at));
}

/// Where the whole succeeds, every project was compiled, and each succeeded.
pub proof fn success_compiles_all(projects: Seq<Project>, runs: Seq<ProjectRun>, at: int)
    requires
        generated(projects, runs),
        generation_result(projects, runs) is Ok,
        0 <= at < projects.len(),
    ensures
        runs.len() == projects.len(),
        compile_result(projects[at].lang, &projects[at], runs[at]) is Ok,
{
}

} // verus!
