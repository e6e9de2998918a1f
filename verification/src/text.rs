//! Text helpers shared by the detector: ASCII case folding, trimming and
//! UTF-8 decoding, each with the mathematical function it computes.

use vstd::prelude::*;
use vstd::utf8::{decode_utf8, valid_utf8};

verus! {

/// The ASCII lower-case form of one character: `'A'..='Z'` map to
/// `'a'..='z'`, every other character is left as it is.
pub open spec fn ascii_lower_char(c: char) -> char {
    if 'A' <= c && c <= 'Z' {
        ((c as u8 + 32) as u8) as char
    } else {
        c
    }
}

/// The ASCII lower-case form of a text, character by character.
pub open spec fn ascii_lowercase(text: Seq<char>) -> Seq<char> {
    Seq::new(text.len(), |i: int| ascii_lower_char(text[i]))
}

/// Folding twice is folding once.
pub proof fn lemma_ascii_lowercase_idempotent(text: Seq<char>)
    ensures
        ascii_lowercase(ascii_lowercase(text)) == ascii_lowercase(text),
{
    assert forall|i: int| 0 <= i < text.len() implies ascii_lower_char(ascii_lower_char(text[i]))
        == ascii_lower_char(text[i]) by {
        let c = text[i];
        if 'A' <= c && c <= 'Z' {
            let l = ascii_lower_char(c);
            assert('a' <= l && l <= 'z');
        }
    }
    assert(ascii_lowercase(ascii_lowercase(text)) =~= ascii_lowercase(text));
}

/// `str::to_ascii_lowercase` of the standard library: a copy of the text in
/// which each ASCII upper-case letter is replaced by its lower-case
/// counterpart and every other character is unchanged.
#[verifier::external_body]
pub(crate) fn to_ascii_lowercase(text: &str) -> (lowered: String)
    ensures
        lowered@ == ascii_lowercase(text@),
{
    text.to_ascii_lowercase()
}

/// Whether a character is white space in the sense of Unicode's `White_Space`
/// property, which is what `char::is_whitespace` of the standard library
/// reports and what `str::trim` removes.
pub uninterp spec fn is_white_space(c: char) -> bool;

/// A text without its leading white space.
pub open spec fn trimmed_start(text: Seq<char>) -> Seq<char>
    decreases text.len(),
{
    if text.len() > 0 && is_white_space(text.first()) {
        trimmed_start(text.drop_first())
    } else {
        text
    }
}

/// A text without its trailing white space.
pub open spec fn trimmed_end(text: Seq<char>) -> Seq<char>
    decreases text.len(),
{
    if text.len() > 0 && is_white_space(text.last()) {
        trimmed_end(text.drop_last())
    } else {
        text
    }
}

/// A text without its leading and trailing white space.
pub open spec fn trimmed(text: Seq<char>) -> Seq<char> {
    trimmed_end(trimmed_start(text))
}

/// What trimming the start leaves is the end of the text, from some place
/// on, and does not begin with white space. The result is that place.
pub proof fn lemma_trimmed_start(text: Seq<char>) -> (from: int)
    ensures
        0 <= from <= text.len(),
        trimmed_start(text) == text.skip(from),
        forall|i: int| 0 <= i < from ==> is_white_space(#[trigger] text[i]),
        from < text.len() ==> !is_white_space(text[from]),
    decreases text.len(),
{
    if text.len() > 0 && is_white_space(text.first()) {
        let rest = text.drop_first();
        let from = lemma_trimmed_start(rest);
        assert(rest.skip(from) == text.skip(from + 1));
        assert forall|i: int| 0 <= i < from + 1 implies is_white_space(#[trigger] text[i]) by {
            if i > 0 {
                assert(text[i] == rest[i - 1]);
            }
        }
        from + 1
    } else {
        assert(text.skip(0) == text);
        0
    }
}

/// What trimming the end leaves is the start of the text, up to some place,
/// and does not end with white space. The result is that place.
pub proof fn lemma_trimmed_end(text: Seq<char>) -> (to: int)
    ensures
        0 <= to <= text.len(),
        trimmed_end(text) == text.take(to),
        forall|i: int| to <= i < text.len() ==> is_white_space(#[trigger] text[i]),
        0 < to ==> !is_white_space(text[to - 1]),
    decreases text.len(),
{
    if text.len() > 0 && is_white_space(text.last()) {
        let rest = text.drop_last();
        let to = lemma_trimmed_end(rest);
        assert(rest.take(to) == text.take(to));
        assert forall|i: int| to <= i < text.len() implies is_white_space(#[trigger] text[i]) by {
            if i < rest.len() {
                assert(text[i] == rest[i]);
            }
        }
        to
    } else {
        assert(text.take(text.len() as int) == text);
        text.len() as int
    }
}

/// A trimmed text is a part of the text that has nothing but white space
/// before and behind it, and neither begins nor ends with white space. The
/// result is where the part begins and where it ends.
pub proof fn law_trimmed_is_the_core(text: Seq<char>) -> (part: (int, int))
    ensures
        0 <= part.0 <= part.1 <= text.len(),
        trimmed(text) == text.subrange(part.0, part.1),
        forall|i: int| 0 <= i < part.0 ==> is_white_space(#[trigger] text[i]),
        forall|i: int| part.1 <= i < text.len() ==> is_white_space(#[trigger] text[i]),
        part.0 < part.1 ==> !is_white_space(text[part.0]) && !is_white_space(text[part.1 - 1]),
{
    let from = lemma_trimmed_start(text);
    let rest = text.skip(from);
    let to = lemma_trimmed_end(rest);
    assert(rest.take(to) == text.subrange(from, from + to));
    assert forall|i: int| from + to <= i < text.len() implies is_white_space(
        #[trigger] text[i],
    ) by {
        assert(text[i] == rest[i - from]);
    }
    if to > 0 {
        assert(rest[to - 1] == text[from + to - 1]);
    }
    (from, from + to)
}

/// `str::trim` of the standard library: the part of the text that is left
/// when leading and trailing white space is removed, so that what is left
/// neither begins nor ends with white space.
#[verifier::external_body]
pub(crate) fn trim(text: &str) -> (rest: &str)
    ensures
        rest@ == trimmed(text@),
        rest@.len() > 0 ==> !is_white_space(rest@.first()) && !is_white_space(rest@.last()),
{
    text.trim()
}

/// `std::str::from_utf8`: the text that the bytes encode; it fails exactly
/// on bytes that are not valid UTF-8.
#[verifier::external_body]
pub(crate) fn from_utf8(bytes: &[u8]) -> (decoded: Option<&str>)
    ensures
        match decoded {
            Some(text) => valid_utf8(bytes@) && text@ == decode_utf8(bytes@),
            None => !valid_utf8(bytes@),
        },
{
    match std::str::from_utf8(bytes) {
        Ok(text) => Some(text),
        Err(_) => None,
    }
}

} // verus!
