//! Text preparation for the orchestrator: canonical composition and
//! whitespace stripping, ahead of shaping.
//!
//! Whitespace has no visual extent and is not worth caching or erroring
//! on, so it is removed before the provider is asked for glyphs. The
//! normalization itself is `unicode-normalization`'s; what it returns is
//! named [`nfc_of`], and the stripping around it is verified against that
//! name.

use unicode_normalization::UnicodeNormalization;
use vstd::prelude::*;

verus! {

/// What `unicode-normalization` returns for a text: its Unicode
/// Normalization Form C (canonical decomposition followed by canonical
/// composition). A function of the characters alone.
pub uninterp spec fn nfc_of(s: Seq<char>) -> Seq<char>;

/// Whether `char::is_whitespace` holds of a character: the Unicode
/// `White_Space` property, a function of the character alone.
pub uninterp spec fn whitespace(c: char) -> bool;

/// The characters of `s` that are not whitespace, in order.
pub open spec fn strip_whitespace_spec(s: Seq<char>) -> Seq<char> {
    s.filter(|c: char| !whitespace(c))
}

/// What reaches the font provider for a text: its canonical composition,
/// with whitespace stripped.
pub open spec fn prepared_text(s: Seq<char>) -> Seq<char> {
    strip_whitespace_spec(nfc_of(s))
}

/// Relies on `unicode_normalization::UnicodeNormalization::nfc`: the
/// iterator yields the text in Normalization Form C, a function of the
/// characters alone.
#[verifier::external_body]
fn nfc_chars(s: &str) -> (r: Vec<char>)
    ensures
        r@ == nfc_of(s@),
{
    s.nfc().collect()
}

/// Relies on `char::is_whitespace`: whether the character has the Unicode
/// `White_Space` property.
#[verifier::external_body]
fn is_whitespace_char(c: char) -> (r: bool)
    ensures
        r == whitespace(c),
{
    c.is_whitespace()
}

/// Relies on `String::from_iter` over characters: the string of exactly
/// these characters, in order.
#[verifier::external_body]
fn string_from_chars(chars: &Vec<char>) -> (r: String)
    ensures
        r@ == chars@,
{
    chars.iter().collect()
}

/// Stripping distributes over appending one character: a whitespace
/// character is dropped, any other is kept at the end.
proof fn lemma_strip_push(s: Seq<char>, c: char)
    ensures
        strip_whitespace_spec(s.push(c)) == if whitespace(c) {
            strip_whitespace_spec(s)
        } else {
            strip_whitespace_spec(s).push(c)
        },
{
    reveal(Seq::filter);
    assert(s.push(c).drop_last() =~= s);
    assert(s.push(c).last() == c);
}

/// Normalize a text to its canonical composition and strip its whitespace:
/// exactly what the cache hands to the font provider for shaping.
pub fn prepare_string(s: &str) -> (r: String)
    ensures
        r@ == prepared_text(s@),
{
    let chars: Vec<char> = nfc_chars(s);
    let mut kept: Vec<char> = Vec::new();
    for i in 0..chars.len()
        invariant
            kept@ == strip_whitespace_spec(chars@.subrange(0, i as int)),
    {
        proof {
            assert(chars@.subrange(0, i + 1) =~= chars@.subrange(0, i as int).push(chars@[i as int]));
            lemma_strip_push(chars@.subrange(0, i as int), chars@[i as int]);
        }
        let c = chars[i];
        if !is_whitespace_char(c) {
            kept.push(c);
        }
    }
    proof {
        assert(chars@.subrange(0, chars@.len() as int) =~= chars@);
    }
    string_from_chars(&kept)
}

} // verus!
