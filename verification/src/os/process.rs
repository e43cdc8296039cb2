//! Running a program under a time limit: the limits, and what a run that has
//! ended came to.
//!
//! A probe of an installed tool answers at once, so it gets a short limit, and
//! a probe that has not answered by then counts as a missing tool. The
//! compiler gets a longer limit, and a compilation that has not ended by then
//! counts as done: some generators write all they have to write and then hang.

use crate::os::types::outcome;
use crate::text::{concat2, decimal, decimal_text};
use vstd::prelude::*;

verus! {

/// The seconds that a probe may take.
pub const PROBE_SECONDS: u64 = 1;

/// The seconds that a compilation may take.
pub const COMPILATION_SECONDS: u64 = 5;

/// How a program that was to be run ended.
pub enum ProcessOutcome {
    /// It could not be started; the platform's reason.
    NotStarted { reason: String },
    /// It ended within its time limit: whether it reported success, what it
    /// wrote to its error stream if that could be read, and the platform's
    /// wording of its exit status.
    Exited { success: bool, stderr: Option<String>, status: String },
    /// It was still running at its time limit, and has been ended.
    TimedOut,
}

/// The time limit of a run, in seconds.
pub fn timeout_seconds(dependency: bool) -> (seconds: u64)
    ensures
        seconds == if dependency {
            PROBE_SECONDS
        } else {
            COMPILATION_SECONDS
        },
{
    if dependency {
        PROBE_SECONDS
    } else {
        COMPILATION_SECONDS
    }
}

/// The failure of a probe that did not answer within its time limit.
pub open spec fn timed_out_message(command: Seq<char>) -> Seq<char> {
    command + " command timed out after "@ + decimal_text(PROBE_SECONDS as nat) + " seconds."@
}

/// The failure of a program that wrote nothing readable to its error stream.
pub open spec fn exit_status_message(status: Seq<char>) -> Seq<char> {
    "Dep command exited with status: "@ + status
}

/// What the run of `command` came to. A program that could not be started
/// fails with the platform's reason. One that ended by itself succeeds if it
/// reported success, and else fails with what it wrote to its error stream, or
/// with its exit status where that could not be read. One that ran into its
/// time limit fails if it was a probe, and succeeds if it was not.
pub open spec fn concluded(command: Seq<char>, dependency: bool, ended: ProcessOutcome) -> Result<
    (),
    Seq<char>,
> {
    match ended {
        ProcessOutcome::NotStarted { reason } => Err(reason@),
        ProcessOutcome::Exited { success, stderr, status } => if success {
            Ok(())
        } else {
            match stderr {
                Some(text) => Err(text@),
                None => Err(exit_status_message(status@)),
            }
        },
        ProcessOutcome::TimedOut => if dependency {
            Err(timed_out_message(command))
        } else {
            Ok(())
        },
    }
}

/// Decides what the run of `command` came to, from how it ended.
pub fn conclude(command: &str, dependency: bool, ended: ProcessOutcome) -> (result: Result<
    (),
    String,
>)
    ensures
        outcome(result) == concluded(command@, dependency, ended),
{
    match ended {
        ProcessOutcome::NotStarted { reason } => Err(reason),
        ProcessOutcome::Exited { success, stderr, status } => {
            if success {
                Ok(())
            } else {
                match stderr {
                    Some(text) => Err(text),
                    None => Err(concat2("Dep command exited with status: ", status.as_str())),
                }
            }
        },
        ProcessOutcome::TimedOut => {
            if dependency {
                let mut message = concat2(command, " command timed out after ");
                message.append(decimal(timeout_seconds(dependency)).as_str());
                message.append(" seconds.");
                Err(message)
            } else {
                Ok(())
            }
        },
    }
}

} // verus!
