//! Texts: the contents of files as byte strings, and strings put together.
//!
//! The first part holds what an [`crate::os::types::OSManager`] does to the
//! contents of a file once it has read them: find a literal, replace a
//! literal everywhere, insert at a byte offset. The second part compares,
//! joins and writes strings.

use vstd::prelude::*;
use vstd::utf8::encode_utf8_decode_utf8;

verus! {

/// The offset reported when a literal does not occur.
pub const NOT_FOUND: usize = usize::MAX;

/// `needle` stands in `text` at byte offset `at`.
pub open spec fn occurs_at(text: Seq<u8>, needle: Seq<u8>, at: int) -> bool {
    &&& 0 <= at
    &&& at + needle.len() <= text.len()
    &&& text.subrange(at, at + needle.len()) == needle
}

/// `needle` stands nowhere in `text` before byte offset `end`.
pub open spec fn absent_before(text: Seq<u8>, needle: Seq<u8>, end: int) -> bool {
    forall|at: int| 0 <= at < end ==> !occurs_at(text, needle, at)
}

/// `at` is the first byte offset at which `needle` stands in `text`.
pub open spec fn first_at(text: Seq<u8>, needle: Seq<u8>, at: int) -> bool {
    occurs_at(text, needle, at) && absent_before(text, needle, at)
}

/// `text` with every occurrence of `find` replaced by `with`, reading from the
/// left and never looking again at bytes already replaced. An empty `find`
/// occurs nowhere.
pub open spec fn replaced(text: Seq<u8>, find: Seq<u8>, with: Seq<u8>) -> Seq<u8>
    decreases text.len(),
{
    if find.len() == 0 || text.len() < find.len() {
        text
    } else if occurs_at(text, find, 0) {
        with + replaced(text.skip(find.len() as int), find, with)
    } else {
        seq![text[0]] + replaced(text.skip(1), find, with)
    }
}

/// `text` with `addition` put in at byte offset `at`.
pub open spec fn inserted(text: Seq<u8>, at: int, addition: Seq<u8>) -> Seq<u8> {
    text.subrange(0, at) + addition + text.subrange(at, text.len() as int)
}

/// Whether `needle` stands in `text` at `at`.
pub fn matches_at(text: &[u8], needle: &[u8], at: usize) -> (found: bool)
    ensures
        found == occurs_at(text@, needle@, at as int),
{
    if needle.len() > text.len() || at > text.len() - needle.len() {
        return false;
    }
    let mut k: usize = 0;
    while k < needle.len()
        invariant
            k <= needle.len(),
            at + needle.len() <= text.len(),
            forall|j: int| 0 <= j < k ==> text@[at + j] == needle@[j],
        decreases needle.len() - k,
    {
        if text[at + k] != needle[k] {
            proof {
                let window = text@.subrange(at as int, at + needle.len());
                assert(window[k as int] == text@[at + k]);
            }
            return false;
        }
        k += 1;
    }
    assert(text@.subrange(at as int, at + needle.len()) =~= needle@);
    true
}

/// The first byte offset at which `needle` stands in `text`, or [`NOT_FOUND`].
pub fn find(text: &[u8], needle: &[u8]) -> (at: usize)
    ensures
        at != NOT_FOUND ==> first_at(text@, needle@, at as int),
        at == NOT_FOUND ==> absent_before(text@, needle@, NOT_FOUND as int),
{
    let mut at: usize = 0;
    while at <= text.len() && at < NOT_FOUND
        invariant
            at <= text.len() + 1,
            absent_before(text@, needle@, at as int),
        decreases text.len() + 1 - at,
    {
        if matches_at(text, needle, at) {
            return at;
        }
        at += 1;
    }
    NOT_FOUND
}

/// Whether `needle` stands anywhere in `text`.
pub fn contains(text: &[u8], needle: &[u8]) -> (found: bool)
    ensures
        found == exists|at: int| occurs_at(text@, needle@, at),
{
    let at = find(text, needle);
    if at != NOT_FOUND {
        assert(occurs_at(text@, needle@, at as int));
        return true;
    }
    let found = matches_at(text, needle, NOT_FOUND);
    let length = text.len();
    proof {
        if !found {
            assert forall|other: int| !occurs_at(text@, needle@, other) by {
                if 0 <= other && other + needle@.len() <= text@.len() {
                    assert(other <= length);
                }
            }
        }
    }
    found
}

/// Replaces every occurrence of `find` in `text` by `with`, reading from the
/// left. An empty `find` occurs nowhere.
pub fn replace(text: &[u8], find: &[u8], with: &[u8]) -> (result: Vec<u8>)
    ensures
        result@ == replaced(text@, find@, with@),
{
    let mut result: Vec<u8> = Vec::new();
    if find.len() == 0 {
        let mut copied: usize = 0;
        while copied < text.len()
            invariant
                copied <= text.len(),
                result@ == text@.take(copied as int),
            decreases text.len() - copied,
        {
            result.push(text[copied]);
            assert(result@ =~= text@.take(copied + 1));
            copied += 1;
        }
        assert(text@.take(copied as int) =~= text@);
        return result;
    }
    let mut at: usize = 0;
    proof {
        assert(text@.skip(0) =~= text@);
        assert(result@ + replaced(text@, find@, with@) =~= replaced(text@, find@, with@));
    }
    while at < text.len()
        invariant
            at <= text.len(),
            find.len() > 0,
            result@ + replaced(text@.skip(at as int), find@, with@) == replaced(
                text@,
                find@,
                with@,
            ),
        decreases text.len() - at,
    {
        let ghost rest = text@.skip(at as int);
        let ghost before = result@;
        if matches_at(text, find, at) {
            proof {
                assert(rest.subrange(0, find@.len() as int) =~= text@.subrange(
                    at as int,
                    at + find@.len(),
                ));
                assert(rest.skip(find@.len() as int) =~= text@.skip(at + find@.len()));
            }
            let mut copied: usize = 0;
            while copied < with.len()
                invariant
                    copied <= with.len(),
                    result@ == before + with@.take(copied as int),
                decreases with.len() - copied,
            {
                result.push(with[copied]);
                assert(result@ =~= before + with@.take(copied + 1));
                copied += 1;
            }
            proof {
                assert(with@.take(copied as int) =~= with@);
                assert(result@ + replaced(text@.skip(at + find@.len()), find@, with@) =~= before
                    + replaced(rest, find@, with@));
            }
            at += find.len();
        } else {
            proof {
                if rest.len() >= find@.len() {
                    assert(rest.subrange(0, find@.len() as int) =~= text@.subrange(
                        at as int,
                        at + find@.len(),
                    ));
                    assert(rest.skip(1) =~= text@.skip(at + 1));
                    assert(before.push(text@[at as int]) + replaced(
                        text@.skip(at + 1),
                        find@,
                        with@,
                    ) =~= before + replaced(rest, find@, with@));
                } else {
                    lemma_short_text_is_kept(text@.skip(at + 1), find@, with@);
                    assert(before.push(text@[at as int]) + text@.skip(at + 1) =~= before + rest);
                }
            }
            result.push(text[at]);
            at += 1;
        }
    }
    proof {
        assert(text@.skip(at as int) =~= Seq::<u8>::empty());
        assert(result@ + Seq::<u8>::empty() =~= result@);
    }
    result
}

/// A text shorter than what is looked for is kept as it is.
pub proof fn lemma_short_text_is_kept(text: Seq<u8>, find: Seq<u8>, with: Seq<u8>)
    requires
        text.len() < find.len(),
    ensures
        replaced(text, find, with) == text,
{
}

/// Puts `addition` into `text` at byte offset `at`. There is no result where
/// `at` lies behind the end of `text`.
pub fn insert(text: &[u8], at: usize, addition: &[u8]) -> (result: Option<Vec<u8>>)
    ensures
        match result {
            Some(result) => at <= text@.len() && result@ == inserted(
                text@,
                at as int,
                addition@,
            ),
            None => at > text@.len(),
        },
{
    if at > text.len() {
        return None;
    }
    let mut result: Vec<u8> = Vec::new();
    let mut copied: usize = 0;
    while copied < at
        invariant
            copied <= at <= text.len(),
            result@ == text@.subrange(0, copied as int),
        decreases at - copied,
    {
        result.push(text[copied]);
        assert(result@ =~= text@.subrange(0, copied + 1));
        copied += 1;
    }
    let mut added: usize = 0;
    while added < addition.len()
        invariant
            added <= addition.len(),
            at <= text.len(),
            result@ == text@.subrange(0, at as int) + addition@.take(added as int),
        decreases addition.len() - added,
    {
        result.push(addition[added]);
        assert(result@ =~= text@.subrange(0, at as int) + addition@.take(added + 1));
        added += 1;
    }
    assert(addition@.take(added as int) =~= addition@);
    let mut copied: usize = at;
    while copied < text.len()
        invariant
            at <= copied <= text.len(),
            result@ == text@.subrange(0, at as int) + addition@ + text@.subrange(
                at as int,
                copied as int,
            ),
        decreases text.len() - copied,
    {
        result.push(text[copied]);
        assert(result@ =~= text@.subrange(0, at as int) + addition@ + text@.subrange(
            at as int,
            copied + 1,
        ));
        copied += 1;
    }
    Some(result)
}

/// Whether two byte strings are the same.
pub fn same_bytes(a: &[u8], b: &[u8]) -> (same: bool)
    ensures
        same == (a@ == b@),
{
    if a.len() != b.len() {
        return false;
    }
    let mut k: usize = 0;
    while k < a.len()
        invariant
            k <= a.len(),
            a.len() == b.len(),
            forall|j: int| 0 <= j < k ==> a@[j] == b@[j],
        decreases a.len() - k,
    {
        if a[k] != b[k] {
            return false;
        }
        k += 1;
    }
    assert(a@ =~= b@);
    true
}

/// Whether two strings are the same.
pub fn same_text(a: &str, b: &str) -> (same: bool)
    ensures
        same == (a@ == b@),
{
    proof {
        encode_utf8_decode_utf8(a@);
        encode_utf8_decode_utf8(b@);
    }
    same_bytes(a.as_bytes(), b.as_bytes())
}

/// The texts of a list of strings.
pub open spec fn texts(strings: Seq<String>) -> Seq<Seq<char>> {
    strings.map_values(|s: String| s@)
}

/// The texts of a list of string literals.
pub open spec fn literal_texts(literals: Seq<&'static str>) -> Seq<Seq<char>> {
    literals.map_values(|literal: &'static str| literal@)
}

/// The texts of a list with one more string are the texts of the list with
/// that string's text behind them.
pub proof fn lemma_texts_push(strings: Seq<String>, last: String)
    ensures
        texts(strings.push(last)) == texts(strings).push(last@),
{
    assert(texts(strings.push(last)) =~= texts(strings).push(last@));
}

/// Taking one more string takes one more text.
pub proof fn lemma_texts_take(strings: Seq<String>, count: int)
    requires
        0 <= count < strings.len(),
    ensures
        texts(strings.take(count + 1)) == texts(strings.take(count)).push(strings[count]@),
{
    assert(texts(strings.take(count + 1)) =~= texts(strings.take(count)).push(strings[count]@));
}

/// `first` and `second` written one behind the other.
pub fn concat2(first: &str, second: &str) -> (text: String)
    ensures
        text@ == first@ + second@,
{
    let mut text = String::from_str(first);
    text.append(second);
    text
}

/// `first`, `second` and `third` written one behind the other.
pub fn concat3(first: &str, second: &str, third: &str) -> (text: String)
    ensures
        text@ == first@ + second@ + third@,
{
    let mut text = String::from_str(first);
    text.append(second);
    text.append(third);
    text
}

/// The digit that stands for `value`, which is below ten.
pub open spec fn digit(value: nat) -> char {
    "0123456789"@[value as int]
}

/// `value` written in decimal digits.
pub open spec fn decimal_text(value: nat) -> Seq<char>
    decreases value,
{
    if value < 10 {
        seq![digit(value)]
    } else {
        decimal_text(value / 10).push(digit(value % 10))
    }
}

/// Writes `value` in decimal digits.
pub fn decimal(value: u64) -> (text: String)
    ensures
        text@ == decimal_text(value as nat),
    decreases value,
{
    let mut text = if value < 10 {
        String::new()
    } else {
        decimal(value / 10)
    };
    let last: u64 = value % 10;
    let all = "0123456789";
    proof {
        reveal_strlit("0123456789");
    }
    let ghost head = text@;
    text.append(all.substring_char(last as usize, last as usize + 1));
    proof {
        assert(text@ =~= head.push(digit(last as nat)));
        if value < 10 {
            assert(text@ =~= seq![digit(value as nat)]);
        }
    }
    text
}

/// `parts` written one behind the other with `separator` between them.
pub open spec fn joined(parts: Seq<Seq<char>>, separator: Seq<char>) -> Seq<char>
    decreases parts.len(),
{
    if parts.len() == 0 {
        Seq::empty()
    } else if parts.len() == 1 {
        parts[0]
    } else {
        joined(parts.drop_last(), separator) + separator + parts.last()
    }
}

/// Writes `parts` one behind the other with `separator` between them.
pub fn join(parts: &Vec<&'static str>, separator: &str) -> (text: String)
    ensures
        text@ == joined(literal_texts(parts@), separator@),
{
    let mut text = String::new();
    let mut at: usize = 0;
    while at < parts.len()
        invariant
            at <= parts.len(),
            text@ == joined(literal_texts(parts@).take(at as int), separator@),
        decreases parts.len() - at,
    {
        proof {
            let done = literal_texts(parts@).take(at as int);
            let next = literal_texts(parts@).take(at + 1);
            assert(next.drop_last() =~= done);
            assert(next.last() == parts@[at as int]@);
            if at == 0 {
                assert(text@ + parts@[at as int]@ =~= next[0]);
            }
        }
        if at > 0 {
            text.append(separator);
        }
        text.append(parts[at]);
        at += 1;
    }
    proof {
        assert(literal_texts(parts@).take(at as int) =~= literal_texts(parts@));
    }
    text
}

} // verus!
