//! Literals in a text: what it means for one to occur, and the search for it.
//!
//! What occurs is said of character sequences; the search itself runs over the
//! bytes of the UTF-8 encoding, which holds an encoded literal exactly where
//! the text holds the literal.

use vstd::prelude::*;
use vstd::utf8::{
    decode_utf8, decode_utf8_split, encode_utf8, encode_utf8_decode_utf8, encode_utf8_first_scalar,
    encode_utf8_valid_utf8, is_char_boundary, is_char_boundary_iff_not_is_continuation_byte,
    is_continuation_byte, length_of_first_scalar, pop_first_scalar, utf8_byte_ranges_bitwise,
    valid_utf8, valid_utf8_split,
};

verus! {

/// `needle` occurs in `text` starting at position `at`.
pub open spec fn occurs_at<T>(needle: Seq<T>, text: Seq<T>, at: int) -> bool {
    &&& 0 <= at
    &&& at + needle.len() <= text.len()
    &&& text.subrange(at, at + needle.len()) == needle
}

/// `needle` occurs somewhere in `text` as a contiguous run.
pub open spec fn occurs_in<T>(needle: Seq<T>, text: Seq<T>) -> bool {
    exists|at: int| occurs_at(needle, text, at)
}

/// Literal containment, case-sensitive, over the whole text: whether `needle`
/// occurs in `text`. The empty literal occurs in every text.
pub fn contains(text: &str, needle: &str) -> (found: bool)
    ensures
        found == occurs_in(needle@, text@),
{
    proof {
        lemma_encoding_keeps_occurrence(needle@, text@);
    }
    stands_in(text.as_bytes(), needle.as_bytes())
}

/// The character sequences of a list of literals.
pub open spec fn literal_views(literals: Seq<&str>) -> Seq<Seq<char>> {
    Seq::new(literals.len(), |i: int| literals[i]@)
}

/// At least one of `needles` occurs in `text`.
pub open spec fn any_occurs_in(needles: Seq<Seq<char>>, text: Seq<char>) -> bool {
    exists|i: int| 0 <= i < needles.len() && occurs_in(#[trigger] needles[i], text)
}

/// Every one of `needles` occurs in `text`, each on its own: nothing is asked
/// of where they stand or in which order.
pub open spec fn all_occur_in(needles: Seq<Seq<char>>, text: Seq<char>) -> bool {
    forall|i: int| 0 <= i < needles.len() ==> occurs_in(#[trigger] needles[i], text)
}

/// Whether `text` contains at least one of `needles`.
pub fn contains_any(text: &str, needles: &[&str]) -> (found: bool)
    ensures
        found == any_occurs_in(literal_views(needles@), text@),
{
    let mut i: usize = 0;
    while i < needles.len()
        invariant
            i <= needles.len(),
            forall|j: int| 0 <= j < i ==> !occurs_in(#[trigger] literal_views(needles@)[j], text@),
        decreases needles.len() - i,
    {
        if contains(text, needles[i]) {
            assert(occurs_in(literal_views(needles@)[i as int], text@));
            return true;
        }
        i += 1;
    }
    false
}

/// Whether `text` contains every one of `needles`.
pub fn contains_all(text: &str, needles: &[&str]) -> (found: bool)
    ensures
        found == all_occur_in(literal_views(needles@), text@),
{
    let mut i: usize = 0;
    while i < needles.len()
        invariant
            i <= needles.len(),
            forall|j: int| 0 <= j < i ==> occurs_in(#[trigger] literal_views(needles@)[j], text@),
        decreases needles.len() - i,
    {
        if !contains(text, needles[i]) {
            assert(!occurs_in(literal_views(needles@)[i as int], text@));
            return false;
        }
        i += 1;
    }
    true
}

/// Whether `needle` stands in `hay` at `at`.
fn stands_at(hay: &[u8], needle: &[u8], at: usize) -> (found: bool)
    requires
        at + needle.len() <= hay.len(),
    ensures
        found == occurs_at(needle@, hay@, at as int),
{
    let mut i: usize = 0;
    while i < needle.len()
        invariant
            i <= needle.len(),
            at + needle.len() <= hay.len(),
            forall|j: int| 0 <= j < i ==> hay@[at + j] == needle@[j],
        decreases needle.len() - i,
    {
        if hay[at + i] != needle[i] {
            return false;
        }
        i += 1;
    }
    assert(hay@.subrange(at as int, at + needle@.len()) =~= needle@);
    true
}

/// Whether `needle` stands somewhere in `hay`.
fn stands_in(hay: &[u8], needle: &[u8]) -> (found: bool)
    ensures
        found == occurs_in(needle@, hay@),
{
    if needle.len() > hay.len() {
        return false;
    }
    let last: usize = hay.len() - needle.len();
    let mut at: usize = 0;
    loop
        invariant
            at <= last,
            last + needle.len() == hay.len(),
            forall|earlier: int| 0 <= earlier < at ==> !occurs_at(needle@, hay@, earlier),
        decreases last - at,
    {
        if stands_at(hay, needle, at) {
            return true;
        }
        if at == last {
            return false;
        }
        at += 1;
    }
}

/// Encoding keeps concatenation: the encoding of two texts joined is the
/// encodings of the two, joined.
pub proof fn lemma_encoding_of_joined(first: Seq<char>, second: Seq<char>)
    ensures
        encode_utf8(first + second) == encode_utf8(first) + encode_utf8(second),
    decreases first.len(),
{
    if first.len() > 0 {
        lemma_encoding_of_joined(first.drop_first(), second);
        assert((first + second).drop_first() =~= first.drop_first() + second);
    }
}

/// Where a well-formed encoding begins with a well-formed encoding, the
/// shorter one ends where a character of the longer one ends.
proof fn lemma_prefix_ends_at_boundary(bytes: Seq<u8>, end: int)
    requires
        valid_utf8(bytes),
        0 <= end <= bytes.len(),
        valid_utf8(bytes.subrange(0, end)),
    ensures
        is_char_boundary(bytes, end),
    decreases end,
{
    if end > 0 {
        // Both begin with the same byte, so with a character of the same
        // width, and what is left of the shorter begins what is left of the
        // longer.
        let prefix = bytes.subrange(0, end);
        let width = length_of_first_scalar(bytes);
        assert(pop_first_scalar(prefix) =~= pop_first_scalar(bytes).subrange(0, end - width));
        lemma_prefix_ends_at_boundary(pop_first_scalar(bytes), end - width);
    }
}

/// Searching the encodings is searching the texts: a text holds a literal
/// exactly when the encoding of the text holds the encoding of the literal.
pub proof fn lemma_encoding_keeps_occurrence(needle: Seq<char>, text: Seq<char>)
    ensures
        occurs_in(needle, text) <==> occurs_in(encode_utf8(needle), encode_utf8(text)),
{
    let pin = encode_utf8(needle);
    let hay = encode_utf8(text);
    encode_utf8_valid_utf8(needle);
    encode_utf8_valid_utf8(text);
    encode_utf8_decode_utf8(needle);
    encode_utf8_decode_utf8(text);
    if occurs_in(needle, text) {
        // The text is what stands before the literal, the literal, and what
        // stands after it, and so is its encoding.
        let at = choose|at: int| occurs_at(needle, text, at);
        let before = text.subrange(0, at);
        let after = text.subrange(at + needle.len(), text.len() as int);
        assert(text =~= before + needle + after);
        lemma_encoding_of_joined(before, needle);
        lemma_encoding_of_joined(before + needle, after);
        let start = encode_utf8(before).len() as int;
        assert(hay.subrange(start, start + pin.len()) =~= pin);
        assert(occurs_at(pin, hay, start));
    }
    if occurs_in(pin, hay) {
        if needle.len() == 0 {
            assert(text.subrange(0, 0) =~= needle);
            assert(occurs_at(needle, text, 0));
        } else {
            // The encoded literal begins with the first byte of a character,
            // so it begins where a character of the text begins, and it ends
            // where one ends. Decoding the three parts gives the text back,
            // with the literal in the middle.
            let start = choose|start: int| occurs_at(pin, hay, start);
            encode_utf8_first_scalar(needle);
            assert(!is_continuation_byte(pin[0])) by {
                utf8_byte_ranges_bitwise(pin[0]);
            }
            is_char_boundary_iff_not_is_continuation_byte(hay, start);
            valid_utf8_split(hay, start);
            decode_utf8_split(hay, start);
            let head = hay.subrange(0, start);
            let tail = hay.subrange(start, hay.len() as int);
            assert(tail.subrange(0, pin.len() as int) =~= pin);
            lemma_prefix_ends_at_boundary(tail, pin.len() as int);
            decode_utf8_split(tail, pin.len() as int);
            let rest = tail.subrange(pin.len() as int, tail.len() as int);
            let before = decode_utf8(head);
            let at = before.len() as int;
            assert(text =~= before + needle + decode_utf8(rest));
            assert(text.subrange(at, at + needle.len()) =~= needle);
            assert(occurs_at(needle, text, at));
        }
    }
}

} // verus!
