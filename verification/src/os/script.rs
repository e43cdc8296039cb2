//! Scripts: requests that are carried out in their order until one fails.

use crate::os::types::{Exchange, Request};
use vstd::prelude::*;

verus! {

/// `journal` is what carrying out `script` leaves behind: its requests in their
/// order, up to and including the first that failed.
pub open spec fn carried_out(script: Seq<Request>, journal: Seq<Exchange>) -> bool {
    &&& journal.len() <= script.len()
    &&& forall|at: int| 0 <= at < journal.len() ==> (#[trigger] journal[at]).request == script[at]
    &&& forall|at: int| 0 <= at < journal.len() - 1 ==> !((#[trigger] journal[at]).reply is Failed)
    &&& journal.len() < script.len() ==> journal.len() > 0 && journal.last().reply is Failed
}

/// What carrying out a script came to, read from its journal: the failure of
/// the last request if it failed, else success.
pub open spec fn script_result(journal: Seq<Exchange>) -> Result<(), Seq<char>> {
    if journal.len() > 0 && journal.last().reply is Failed {
        Err(journal.last().reply->message)
    } else {
        Ok(())
    }
}

/// The first request that fails is the last that is asked: where the request
/// at `at` failed, the journal ends with it, nothing behind it in the script
/// was asked, and its failure is what the script came to.
pub proof fn failure_ends_the_script(script: Seq<Request>, journal: Seq<Exchange>, at: int)
    requires
        carried_out(script, journal),
        0 <= at < journal.len(),
        journal[at].reply is Failed,
    ensures
        at == journal.len() - 1,
        script_result(journal) == Err::<(), Seq<char>>(journal[at].reply->message),
{
}

/// Where a script succeeds, every request of it was asked, in the order of
/// the script, and none failed.
pub proof fn success_carries_out_all(script: Seq<Request>, journal: Seq<Exchange>, at: int)
    requires
        carried_out(script, journal),
        script_result(journal) is Ok,
        0 <= at < script.len(),
    ensures
        journal.len() == script.len(),
        journal[at].request == script[at],
        !(journal[at].reply is Failed),
{
}

} // verus!
