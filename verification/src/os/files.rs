//! A model of the files that the edits of a platform work on.
//!
//! The model says what an edit does to the files when the platform carries it
//! out as asked. It is the yardstick for an implementation of
//! [`crate::os::types::OSManager`], and what the scripts of this crate are
//! measured against.

use crate::os::types::Request;
use crate::text::{inserted, replaced};
use vstd::prelude::*;
use vstd::utf8::{encode_utf8, valid_utf8};

verus! {

/// The files after the edit `request` has been carried out on `files`, which
/// hold for each path the bytes of the file there.
///
/// Renaming takes the file from the old path and puts it at the new one, in
/// place of what was there. An insertion puts the text in at its byte offset.
/// A search leaves the files as they are. There is no outcome where the file
/// to be edited, searched or renamed does not exist, where a file to be
/// searched is no text, where the offset of an insertion lies behind the end
/// of the file, and for the run of a program, of whose work on the files the
/// model says nothing.
pub open spec fn edited(files: Map<Seq<char>, Seq<u8>>, request: Request) -> Option<
    Map<Seq<char>, Seq<u8>>,
> {
    match request {
        Request::Run { .. } => None,
        Request::Grep { path, .. } => if files.contains_key(path) && valid_utf8(files[path]) {
            Some(files)
        } else {
            None
        },
        Request::Rename { from, to } => if files.contains_key(from) {
            Some(files.remove(from).insert(to, files[from]))
        } else {
            None
        },
        Request::FindReplace { path, find, replace } => if files.contains_key(path) {
            Some(files.insert(path, replaced(files[path], encode_utf8(find), encode_utf8(replace))))
        } else {
            None
        },
        Request::Insert { path, position, text } => if files.contains_key(path) && position
            <= files[path].len() {
            Some(files.insert(path, inserted(files[path], position as int, encode_utf8(text))))
        } else {
            None
        },
        Request::Write { path, content } => Some(files.insert(path, encode_utf8(content))),
    }
}

/// The files after every edit of `script` has been carried out on `files`, one
/// after the other; no outcome where one of them has none.
pub open spec fn edited_by(files: Map<Seq<char>, Seq<u8>>, script: Seq<Request>) -> Option<
    Map<Seq<char>, Seq<u8>>,
>
    decreases script.len(),
{
    if script.len() == 0 {
        Some(files)
    } else {
        match edited(files, script[0]) {
            None => None,
            Some(next) => edited_by(next, script.drop_first()),
        }
    }
}

} // verus!
