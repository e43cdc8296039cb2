//! Fingerprinting the proto files of a directory tree.

use crate::algorithm::hash::{hash_sha, hex_text, sha256};
use crate::text::same_text;
use vstd::prelude::*;
use vstd::utf8::encode_utf8;

verus! {

/// The extension by which a proto file is known.
pub const PROTO_EXTENSION: &'static str = "proto";

/// The command that records a fingerprint of every proto file.
pub struct InitCommand;

/// The fingerprint of each file of `files`, which pairs a path with the
/// contents found there: the same paths in the same order, each with the
/// fingerprint of its contents.
pub open spec fn fingerprints(files: Seq<(String, String)>) -> Seq<(Seq<char>, Seq<char>)> {
    Seq::new(files.len(), |at: int| (files[at].0@, hex_text(sha256(encode_utf8(files[at].1@)))))
}

/// The texts of a list of pairs of strings.
pub open spec fn pair_texts(pairs: Seq<(String, String)>) -> Seq<(Seq<char>, Seq<char>)> {
    pairs.map_values(|pair: (String, String)| (pair.0@, pair.1@))
}

impl InitCommand {
    /// Whether an entry of the tree is fingerprinted: it has to be a file,
    /// and its name has to end in the extension `proto`.
    pub fn selects(is_file: bool, extension: Option<&str>) -> (selected: bool)
        ensures
            selected == (is_file && extension is Some && extension->0@ == PROTO_EXTENSION@),
    {
        match extension {
            Some(found) => is_file && same_text(found, PROTO_EXTENSION),
            None => false,
        }
    }

    /// Pairs the path of each file with the fingerprint of its contents.
    pub fn hash_entries(files: Vec<(String, String)>) -> (entries: Vec<(String, String)>)
        ensures
            pair_texts(entries@) == fingerprints(files@),
    {
        let mut entries: Vec<(String, String)> = Vec::new();
        let mut at: usize = 0;
        while at < files.len()
            invariant
                at <= files.len(),
                pair_texts(entries@) == fingerprints(files@.take(at as int)),
            decreases files.len() - at,
        {
            let path = files[at].0.clone();
            let fingerprint = hash_sha(files[at].1.clone());
            let ghost earlier = entries@;
            proof {
                assert(pair_texts(earlier).len() == at);
            }
            entries.push((path, fingerprint));
            proof {
                let wanted = fingerprints(files@.take(at + 1));
                assert(wanted.len() == at + 1);
                assert forall|i: int| 0 <= i < at + 1 implies pair_texts(entries@)[i]
                    == wanted[i] by {
                    if i < at {
                        assert(entries@[i] == earlier[i]);
                        assert(pair_texts(earlier)[i] == fingerprints(files@.take(at as int))[i]);
                        assert(files@.take(at as int)[i] == files@.take(at + 1)[i]);
                    }
                }
                assert(pair_texts(entries@) =~= wanted);
            }
            at += 1;
        }
        proof {
            assert(files@.take(at as int) =~= files@);
        }
        entries
    }
}

} // verus!
