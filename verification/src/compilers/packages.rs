//! Package names: cutting one out of a proto file, and the set of those found.

use crate::text::{same_text, texts};
use vstd::prelude::*;
use vstd::string::StringSliceAdditionalSpecFns;
use vstd::utf8::{
    char_is_scalar, char_u32_cast, decode_utf8, encode_scalar, encode_utf8,
    encode_utf8_decode_utf8, encode_utf8_first_scalar, encode_utf8_valid_utf8,
    has_width_1_encoding, is_ascii_chars, is_ascii_chars_encode_utf8, is_char_boundary,
    is_char_boundary_iff_not_is_continuation_byte, is_char_boundary_start_end_of_seq,
    pop_first_scalar,
};

verus! {

/// The word that opens a package declaration in a proto file.
pub const PACKAGE_KEYWORD: &'static str = "package";

/// The byte that closes a package declaration.
pub const SEMICOLON: u8 = 0x3b;

/// The first byte offset from `from` on at which `bytes` holds a semicolon, or
/// the length of `bytes` if there is none.
pub open spec fn terminator(bytes: Seq<u8>, from: int) -> int
    decreases bytes.len() - from,
{
    if from >= bytes.len() {
        bytes.len() as int
    } else if bytes[from] == SEMICOLON {
        from
    } else {
        terminator(bytes, from + 1)
    }
}

/// The package that `content` declares where its keyword stands at byte offset
/// `offset`: what lies between the keyword with the one byte that follows it
/// and the next semicolon, or the end of `content` if there is none. Nothing is
/// trimmed. There is no such name where `content` ends before the name begins,
/// or the name would begin inside a character.
pub open spec fn declared_package(content: Seq<char>, offset: usize) -> Option<Seq<char>> {
    let bytes = encode_utf8(content);
    let start = offset + PACKAGE_KEYWORD@.len() + 1;
    if start <= bytes.len() && is_char_boundary(bytes, start) {
        Some(decode_utf8(bytes.subrange(start, terminator(bytes, start))))
    } else {
        None
    }
}

/// Cuts the declared package out of `content`, whose keyword was found at
/// byte offset `offset`.
pub fn package_name(content: &str, offset: usize) -> (name: Option<String>)
    ensures
        match name {
            Some(name) => declared_package(content@, offset) == Some(name@),
            None => declared_package(content@, offset) is None,
        },
{
    let bytes = content.as_bytes();
    proof {
        reveal_strlit("package");
        assert(is_ascii_chars(PACKAGE_KEYWORD@));
        is_ascii_chars_encode_utf8(PACKAGE_KEYWORD@);
        encode_utf8_valid_utf8(content@);
    }
    let skip: usize = PACKAGE_KEYWORD.len() + 1;
    if offset > bytes.len() || bytes.len() - offset < skip {
        return None;
    }
    let start: usize = offset + skip;
    if !content.is_char_boundary(start) {
        return None;
    }
    let mut end: usize = start;
    while end < bytes.len() && bytes[end] != SEMICOLON
        invariant
            start <= end <= bytes.len(),
            terminator(bytes@, start as int) == terminator(bytes@, end as int),
        decreases bytes.len() - end,
    {
        end += 1;
    }
    let (_, tail) = content.split_at(start);
    proof {
        encode_utf8_valid_utf8(tail@);
        if end < bytes.len() {
            assert(tail.spec_bytes()[end - start] == SEMICOLON);
            is_char_boundary_iff_not_is_continuation_byte(tail.spec_bytes(), end - start);
        } else {
            is_char_boundary_start_end_of_seq(tail.spec_bytes());
        }
    }
    let (name, _) = tail.split_at(end - start);
    proof {
        assert(name.spec_bytes() =~= bytes@.subrange(start as int, end as int));
        encode_utf8_decode_utf8(name@);
    }
    Some(name.to_owned())
}

/// The bytes of two texts, one behind the other, are the bytes of the texts
/// written one behind the other.
pub proof fn lemma_bytes_of_concatenation(first: Seq<char>, second: Seq<char>)
    ensures
        encode_utf8(first + second) == encode_utf8(first) + encode_utf8(second),
    decreases first.len(),
{
    if first.len() == 0 {
        assert(first + second =~= second);
        assert(encode_utf8(first) + encode_utf8(second) =~= encode_utf8(second));
    } else {
        assert((first + second).drop_first() =~= first.drop_first() + second);
        lemma_bytes_of_concatenation(first.drop_first(), second);
        assert(encode_utf8(first + second) =~= encode_utf8(first) + encode_utf8(second));
    }
}

/// Where one text stands behind another, the second begins at a character
/// boundary of their bytes.
pub proof fn lemma_boundary_between_texts(first: Seq<char>, second: Seq<char>)
    ensures
        is_char_boundary(encode_utf8(first + second), encode_utf8(first).len() as int),
    decreases first.len(),
{
    let bytes = encode_utf8(first + second);
    encode_utf8_valid_utf8(first + second);
    if first.len() > 0 {
        let rest = first.drop_first();
        encode_utf8_first_scalar(first + second);
        assert((first + second).drop_first() =~= rest + second);
        assert(pop_first_scalar(bytes) =~= encode_utf8(rest + second));
        lemma_boundary_between_texts(rest, second);
        char_is_scalar(first[0]);
        assert(encode_utf8(first).len() == encode_scalar(first[0] as u32).len() + encode_utf8(
            rest,
        ).len());
    }
}

/// Only a semicolon is written with the byte of the semicolon: the bytes of a
/// text without semicolon hold none.
pub proof fn lemma_semicolon_free_bytes(text: Seq<char>, at: int)
    requires
        !text.contains(';'),
        0 <= at < encode_utf8(text).len(),
    ensures
        encode_utf8(text)[at] != SEMICOLON,
    decreases text.len(),
{
    assert(text.len() > 0);
    let first = text[0] as u32;
    let head = encode_scalar(first);
    char_is_scalar(text[0]);
    assert(text[0] != ';');
    if at < head.len() {
        if has_width_1_encoding(first) {
            assert(first != 0x3b) by {
                if first == 0x3b {
                    char_u32_cast(text[0], first);
                    char_u32_cast(';', 0x3b);
                }
            }
            assert((first & 0x7F) as u8 != 0x3bu8) by (bit_vector)
                requires
                    first <= 0x7F,
                    first != 0x3b,
            ;
        } else {
            assert(0xC0u8 | ((first >> 6) & 0x1F) as u8 >= 0x80u8) by (bit_vector);
            assert(0xE0u8 | ((first >> 12) & 0x0F) as u8 >= 0x80u8) by (bit_vector);
            assert(0xF0u8 | ((first >> 18) & 0x7) as u8 >= 0x80u8) by (bit_vector);
            assert(0x80u8 | (first & 0x3F) as u8 >= 0x80u8) by (bit_vector);
            assert(0x80u8 | ((first >> 6) & 0x3F) as u8 >= 0x80u8) by (bit_vector);
            assert(0x80u8 | ((first >> 12) & 0x3F) as u8 >= 0x80u8) by (bit_vector);
        }
    } else {
        let rest = text.drop_first();
        assert(!rest.contains(';')) by {
            if rest.contains(';') {
                let place = choose|place: int| 0 <= place < rest.len() && rest[place] == ';';
                assert(text[place + 1] == ';');
            }
        }
        lemma_semicolon_free_bytes(rest, at - head.len());
    }
}

/// A declaration ends where the first semicolon stands.
pub proof fn lemma_terminator(bytes: Seq<u8>, from: int, end: int)
    requires
        0 <= from <= end <= bytes.len(),
        forall|at: int| from <= at < end ==> bytes[at] != SEMICOLON,
        end < bytes.len() ==> bytes[end] == SEMICOLON,
    ensures
        terminator(bytes, from) == end,
    decreases end - from,
{
    if from < end {
        lemma_terminator(bytes, from + 1, end);
    }
}

/// A declaration is read back. Where a text holds the keyword, one plain
/// character behind it, a name without semicolon and a semicolon, the package
/// declared at the place of the keyword is that name, whatever stands before
/// the keyword and behind the semicolon.
pub proof fn declaration_is_read_back(
    before: Seq<char>,
    gap: char,
    name: Seq<char>,
    after: Seq<char>,
)
    requires
        gap <= '\u{7f}',
        !name.contains(';'),
        encode_utf8(before).len() <= usize::MAX,
    ensures
        declared_package(
            before + PACKAGE_KEYWORD@ + seq![gap] + name + seq![';'] + after,
            encode_utf8(before).len() as usize,
        ) == Some(name),
{
    let opening = before + PACKAGE_KEYWORD@ + seq![gap];
    let closing = seq![';'] + after;
    let content = before + PACKAGE_KEYWORD@ + seq![gap] + name + seq![';'] + after;
    let bytes = encode_utf8(content);
    let start: int = (encode_utf8(before).len() + PACKAGE_KEYWORD@.len() + 1) as int;
    let end: int = start + encode_utf8(name).len();
    assert(content =~= opening + (name + closing));
    reveal_strlit("package");
    assert(is_ascii_chars(PACKAGE_KEYWORD@));
    assert(is_ascii_chars(seq![gap]));
    assert(is_ascii_chars(seq![';']));
    is_ascii_chars_encode_utf8(PACKAGE_KEYWORD@);
    is_ascii_chars_encode_utf8(seq![gap]);
    is_ascii_chars_encode_utf8(seq![';']);
    lemma_bytes_of_concatenation(before + PACKAGE_KEYWORD@, seq![gap]);
    lemma_bytes_of_concatenation(before, PACKAGE_KEYWORD@);
    assert(encode_utf8(opening).len() == start);
    lemma_bytes_of_concatenation(opening, name + closing);
    lemma_bytes_of_concatenation(name, closing);
    lemma_bytes_of_concatenation(seq![';'], after);
    lemma_boundary_between_texts(opening, name + closing);
    assert(encode_utf8(closing)[0] == SEMICOLON);
    assert(bytes[end] == SEMICOLON);
    assert forall|at: int| start <= at < end implies bytes[at] != SEMICOLON by {
        lemma_semicolon_free_bytes(name, at - start);
        assert(bytes[at] == encode_utf8(name)[at - start]);
    }
    lemma_terminator(bytes, start, end);
    assert(bytes.subrange(start, end) =~= encode_utf8(name));
    encode_utf8_decode_utf8(name);
}

/// `names` without repetitions: each name stands where it first occurs.
pub open spec fn distinct(names: Seq<Seq<char>>) -> Seq<Seq<char>>
    decreases names.len(),
{
    if names.len() == 0 {
        Seq::empty()
    } else {
        let earlier = distinct(names.drop_last());
        if earlier.contains(names.last()) {
            earlier
        } else {
            earlier.push(names.last())
        }
    }
}

/// Taking the repetitions out of a list of names loses no name and adds none,
/// and leaves no name twice.
pub proof fn distinct_keeps_each_name_once(names: Seq<Seq<char>>)
    ensures
        distinct(names).no_duplicates(),
        forall|name: Seq<char>| distinct(names).contains(name) <==> names.contains(name),
    decreases names.len(),
{
    if names.len() > 0 {
        let earlier = distinct(names.drop_last());
        let last = names.last();
        distinct_keeps_each_name_once(names.drop_last());
        assert forall|name: Seq<char>| distinct(names).contains(name) <==> names.contains(
            name,
        ) by {
            if names.contains(name) {
                let at = choose|at: int| 0 <= at < names.len() && names[at] == name;
                if at < names.len() - 1 {
                    assert(names.drop_last()[at] == name);
                    assert(names.drop_last().contains(name));
                    assert(earlier.contains(name));
                    let place = choose|place: int| 0 <= place < earlier.len() && earlier[place] == name;
                    assert(distinct(names)[place] == name);
                } else if !earlier.contains(last) {
                    assert(earlier.push(last)[earlier.len() as int] == name);
                }
            }
            if distinct(names).contains(name) {
                let place = choose|place: int|
                    0 <= place < distinct(names).len() && distinct(names)[place] == name;
                if place < earlier.len() {
                    assert(earlier.contains(name));
                    assert(names.drop_last().contains(name));
                    let at = choose|at: int|
                        0 <= at < names.drop_last().len() && names.drop_last()[at] == name;
                    assert(names[at] == name);
                } else {
                    assert(names[names.len() - 1] == name);
                }
            }
        }
    }
}

/// A set of package names. It keeps the names in the order in which they were
/// first put in.
pub struct PackageSet {
    names: Vec<String>,
}

impl PackageSet {
    /// The names in the set, oldest first.
    pub closed spec fn names(&self) -> Seq<Seq<char>> {
        texts(self.names@)
    }

    /// No name stands in the set twice. Every set made by [`PackageSet::new`]
    /// and filled by [`PackageSet::insert`] is well formed.
    pub open spec fn wf(&self) -> bool {
        self.names().no_duplicates()
    }

    /// The empty set.
    pub fn new() -> (set: Self)
        ensures
            set.wf(),
            set.names() == Seq::<Seq<char>>::empty(),
    {
        let set = PackageSet { names: Vec::new() };
        assert(texts(set.names@) =~= Seq::empty());
        set
    }

    /// How many names the set holds.
    pub fn len(&self) -> (count: usize)
        ensures
            count == self.names().len(),
    {
        self.names.len()
    }

    /// The name at `at`, counting from the oldest.
    pub fn get(&self, at: usize) -> (name: &String)
        requires
            at < self.names().len(),
        ensures
            name@ == self.names()[at as int],
    {
        &self.names[at]
    }

    /// Whether `name` is in the set.
    pub fn contains(&self, name: &str) -> (found: bool)
        ensures
            found == self.names().contains(name@),
    {
        let mut at: usize = 0;
        while at < self.names.len()
            invariant
                at <= self.names.len(),
                forall|earlier: int| 0 <= earlier < at ==> texts(self.names@)[earlier] != name@,
            decreases self.names.len() - at,
        {
            if same_text(self.names[at].as_str(), name) {
                assert(texts(self.names@)[at as int] == name@);
                return true;
            }
            at += 1;
        }
        false
    }

    /// Puts `name` into the set, unless it is there already. Tells whether it
    /// was new.
    pub fn insert(&mut self, name: String) -> (new: bool)
        ensures
            new == !old(self).names().contains(name@),
            final(self).names() == if new {
                old(self).names().push(name@)
            } else {
                old(self).names()
            },
            old(self).wf() ==> final(self).wf(),
    {
        if self.contains(name.as_str()) {
            return false;
        }
        proof {
            assert(texts(self.names@.push(name)) =~= texts(self.names@).push(name@));
        }
        self.names.push(name);
        true
    }
}

} // verus!
