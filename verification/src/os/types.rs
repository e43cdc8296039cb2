//! The platform interface, and a session that journals every call made
//! through it.

use crate::text::texts;
use vstd::prelude::*;

verus! {

/// The services of the operating system that a compilation needs: running a
/// program under a time limit, and a handful of edits on files.
///
/// Every method reports failure as a message. Nothing is assumed of an
/// implementation: the contracts of this crate hold whatever it answers.
pub trait OSManager {
    /// Runs `command` with `arguments`. A `dependency` run only probes that the
    /// program is installed and gets the short time limit.
    fn execute_command(&self, command: &str, arguments: &Vec<String>, dependency: bool) -> Result<
        (),
        String,
    >;

    /// Reads the file at `path` and looks for `needle` in it: the contents, and
    /// the byte offset of the first occurrence or [`crate::text::NOT_FOUND`].
    fn grep(&self, path: &str, needle: &str) -> Result<(String, usize), String>;

    /// Renames the file at `from` to `to`.
    fn rename_file(&self, from: &str, to: &str) -> Result<(), String>;

    /// Replaces `find` by `replace` in the file at `path`.
    fn find_replace(&self, path: &str, find: String, replace: String) -> Result<(), String>;

    /// Puts `text` into the file at `path`, at byte offset `position`.
    fn insert_in_position(&self, path: &str, position: usize, text: String) -> Result<
        (),
        String,
    >;

    /// Writes `content` to the file at `path`, replacing what was there.
    fn write_new_file(&self, path: &str, content: String) -> Result<(), String>;
}

/// What was asked of the platform in one call.
pub enum Request {
    Run { command: Seq<char>, arguments: Seq<Seq<char>>, dependency: bool },
    Grep { path: Seq<char>, needle: Seq<char> },
    Rename { from: Seq<char>, to: Seq<char> },
    FindReplace { path: Seq<char>, find: Seq<char>, replace: Seq<char> },
    Insert { path: Seq<char>, position: usize, text: Seq<char> },
    Write { path: Seq<char>, content: Seq<char> },
}

/// What the platform answered.
pub enum Reply {
    /// The call succeeded and has nothing to report.
    Done,
    /// A search succeeded: the file's contents and the offset it reports.
    Found { content: Seq<char>, offset: usize },
    /// The call failed with this message.
    Failed { message: Seq<char> },
}

/// One call and its answer.
pub struct Exchange {
    pub request: Request,
    pub reply: Reply,
}

/// The reply that stands for the result of a call that reports nothing.
pub open spec fn plain_reply(result: Result<(), String>) -> Reply {
    match result {
        Ok(_) => Reply::Done,
        Err(message) => Reply::Failed { message: message@ },
    }
}

/// What a call that reports nothing came to, read from its reply.
pub open spec fn reply_result(reply: Reply) -> Result<(), Seq<char>> {
    match reply {
        Reply::Failed { message } => Err(message),
        _ => Ok(()),
    }
}

/// The text of a result that reports nothing on success.
pub open spec fn outcome(result: Result<(), String>) -> Result<(), Seq<char>> {
    match result {
        Ok(_) => Ok(()),
        Err(message) => Err(message@),
    }
}

/// The reply that stands for the result of a search.
pub open spec fn search_reply(result: Result<(String, usize), String>) -> Reply {
    match result {
        Ok(found) => Reply::Found { content: found.0@, offset: found.1 },
        Err(message) => Reply::Failed { message: message@ },
    }
}

/// A platform together with the journal of what was asked of it and what it
/// answered, oldest first. The journal exists only in proofs.
pub struct Session<M: OSManager> {
    os_manager: M,
    journal: Ghost<Seq<Exchange>>,
}

impl<M: OSManager> Session<M> {
    /// The exchanges made through this session so far.
    pub closed spec fn journal(&self) -> Seq<Exchange> {
        self.journal@
    }

    /// The platform behind this session.
    pub closed spec fn platform(&self) -> M {
        self.os_manager
    }

    /// The session is a later state of `before`: it stands on the same
    /// platform, and its journal begins with all that `before` had journalled.
    pub open spec fn grew(&self, before: &Self) -> bool {
        &&& self.platform() == before.platform()
        &&& before.journal().is_prefix_of(self.journal())
    }

    /// The exchanges journalled after those of `before`.
    pub open spec fn since(&self, before: &Self) -> Seq<Exchange> {
        self.journal().skip(before.journal().len() as int)
    }

    /// The session is `before` after exactly one more exchange.
    pub open spec fn asked(&self, before: &Self, request: Request, reply: Reply) -> bool {
        self.grew(before) && self.since(before) == seq![Exchange { request, reply }]
    }

    /// A session on `os_manager` with an empty journal.
    pub fn new(os_manager: M) -> (session: Self)
        ensures
            session.platform() == os_manager,
            session.journal() == Seq::<Exchange>::empty(),
    {
        Session { os_manager, journal: Ghost(Seq::empty()) }
    }

    /// The platform behind this session.
    pub fn os_manager(&self) -> (os_manager: &M)
        ensures
            *os_manager == self.platform(),
    {
        &self.os_manager
    }

    /// What was journalled from `before` to `self` is what was journalled
    /// from `before` to `between`, then from `between` to `self`.
    pub proof fn chain(&self, between: &Self, before: &Self)
        requires
            between.grew(before),
            self.grew(between),
        ensures
            self.grew(before),
            self.since(before) == between.since(before) + self.since(between),
    {
        assert(self.since(before) =~= between.since(before) + self.since(between));
    }

    /// Runs a program through the platform and journals the exchange.
    pub fn execute_command(&mut self, command: &str, arguments: &Vec<String>, dependency: bool) -> (result:
        Result<(), String>)
        ensures
            final(self).asked(
                old(self),
                Request::Run { command: command@, arguments: texts(arguments@), dependency },
                plain_reply(result),
            ),
    {
        let result = self.os_manager.execute_command(command, arguments, dependency);
        proof {
            self.journal@ = self.journal@.push(
                Exchange {
                    request: Request::Run {
                        command: command@,
                        arguments: texts(arguments@),
                        dependency,
                    },
                    reply: plain_reply(result),
                },
            );
            assert(self.since(old(self)) =~= seq![self.journal@.last()]);
        }
        result
    }

    /// Searches a file through the platform and journals the exchange.
    pub fn grep(&mut self, path: &str, needle: &str) -> (result: Result<(String, usize), String>)
        ensures
            final(self).asked(
                old(self),
                Request::Grep { path: path@, needle: needle@ },
                search_reply(result),
            ),
    {
        let result = self.os_manager.grep(path, needle);
        proof {
            self.journal@ = self.journal@.push(
                Exchange {
                    request: Request::Grep { path: path@, needle: needle@ },
                    reply: search_reply(result),
                },
            );
            assert(self.since(old(self)) =~= seq![self.journal@.last()]);
        }
        result
    }

    /// Renames a file through the platform and journals the exchange.
    pub fn rename_file(&mut self, from: &str, to: &str) -> (result: Result<(), String>)
        ensures
            final(self).asked(
                old(self),
                Request::Rename { from: from@, to: to@ },
                plain_reply(result),
            ),
    {
        let result = self.os_manager.rename_file(from, to);
        proof {
            self.journal@ = self.journal@.push(
                Exchange {
                    request: Request::Rename { from: from@, to: to@ },
                    reply: plain_reply(result),
                },
            );
            assert(self.since(old(self)) =~= seq![self.journal@.last()]);
        }
        result
    }

    /// Replaces a literal in a file through the platform and journals the
    /// exchange.
    pub fn find_replace(&mut self, path: &str, find: String, replace: String) -> (result: Result<
        (),
        String,
    >)
        ensures
            final(self).asked(
                old(self),
                Request::FindReplace { path: path@, find: find@, replace: replace@ },
                plain_reply(result),
            ),
    {
        let ghost request = Request::FindReplace { path: path@, find: find@, replace: replace@ };
        let result = self.os_manager.find_replace(path, find, replace);
        proof {
            self.journal@ = self.journal@.push(Exchange { request, reply: plain_reply(result) });
            assert(self.since(old(self)) =~= seq![self.journal@.last()]);
        }
        result
    }

    /// Inserts text into a file through the platform and journals the
    /// exchange.
    pub fn insert_in_position(&mut self, path: &str, position: usize, text: String) -> (result:
        Result<(), String>)
        ensures
            final(self).asked(
                old(self),
                Request::Insert { path: path@, position, text: text@ },
                plain_reply(result),
            ),
    {
        let ghost request = Request::Insert { path: path@, position, text: text@ };
        let result = self.os_manager.insert_in_position(path, position, text);
        proof {
            self.journal@ = self.journal@.push(Exchange { request, reply: plain_reply(result) });
            assert(self.since(old(self)) =~= seq![self.journal@.last()]);
        }
        result
    }

    /// Writes a file through the platform and journals the exchange.
    pub fn write_new_file(&mut self, path: &str, content: String) -> (result: Result<(), String>)
        ensures
            final(self).asked(
                old(self),
                Request::Write { path: path@, content: content@ },
                plain_reply(result),
            ),
    {
        let ghost request = Request::Write { path: path@, content: content@ };
        let result = self.os_manager.write_new_file(path, content);
        proof {
            self.journal@ = self.journal@.push(Exchange { request, reply: plain_reply(result) });
            assert(self.since(old(self)) =~= seq![self.journal@.last()]);
        }
        result
    }
}

} // verus!
