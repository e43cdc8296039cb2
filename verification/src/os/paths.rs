//! Paths, written as a platform with `/` between the names reads them.

use vstd::prelude::*;

verus! {

/// The character that separates the names of a path.
pub const SEPARATOR: char = '/';

/// Whether `path` names a place by itself, wherever it is read.
pub open spec fn is_absolute(path: Seq<char>) -> bool {
    path.len() > 0 && path[0] == SEPARATOR
}

/// The path of `name` seen from the directory `directory`: `name` alone where
/// it is absolute; else `directory` and `name`, with a separator between them
/// unless `directory` is empty or ends in one.
pub open spec fn child(directory: Seq<char>, name: Seq<char>) -> Seq<char> {
    if is_absolute(name) {
        name
    } else if directory.len() == 0 || directory.last() == SEPARATOR {
        directory + name
    } else {
        directory + seq![SEPARATOR] + name
    }
}

/// The path of `name` seen from the directory `directory`.
pub fn child_path(directory: &str, name: &str) -> (path: String)
    ensures
        path@ == child(directory@, name@),
{
    if !name.is_empty() && name.get_char(0) == SEPARATOR {
        return String::from_str(name);
    }
    let length = directory.unicode_len();
    let mut path = String::from_str(directory);
    if length > 0 && directory.get_char(length - 1) != SEPARATOR {
        proof {
            reveal_strlit("/");
            assert("/"@ =~= seq![SEPARATOR]);
        }
        path.append("/");
    }
    path.append(name);
    path
}

/// Two names that are not absolute have the same path in a directory only if
/// they are the same name.
pub proof fn lemma_child_differs(directory: Seq<char>, name: Seq<char>, other: Seq<char>)
    requires
        name != other,
        !is_absolute(name),
        !is_absolute(other),
    ensures
        child(directory, name) != child(directory, other),
{
    let prefix = if directory.len() == 0 || directory.last() == SEPARATOR {
        directory
    } else {
        directory + seq![SEPARATOR]
    };
    assert(child(directory, name) =~= prefix + name);
    assert(child(directory, other) =~= prefix + other);
    if prefix + name == prefix + other {
        assert(name =~= (prefix + name).skip(prefix.len() as int));
        assert(other =~= (prefix + other).skip(prefix.len() as int));
    }
}

} // verus!
