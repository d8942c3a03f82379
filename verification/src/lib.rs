//! Romanization of Korean text (Hangul) into the latin alphabet.
//!
//! `convert` writes every Hangul syllable of a text in latin letters and keeps every other
//! character; `has_korean` tells whether a text holds a Hangul syllable at all.
pub mod hangul;
pub mod laws;
pub mod romanizer;

pub use hangul::{Choseong, Jongseong, Jungseong, Syllable};
pub use romanizer::{MixedChar, Romanizable};

use hangul::is_syllable_char;
use romanizer::{mixed_char_of, romanize_text};
use vstd::prelude::*;

verus! {

/// The characters of a text, each one decoded into a syllable where it is one.
pub open spec fn mixed_chars(s: Seq<char>) -> Seq<MixedChar> {
    s.map_values(|c: char| mixed_char_of(c))
}

/// The romanization of a text.
pub open spec fn romanized_text(s: Seq<char>) -> Seq<char> {
    romanize_text(mixed_chars(s))
}

/// Whether some character of a text lies in the Hangul syllables block.
pub open spec fn holds_korean(s: Seq<char>) -> bool {
    exists|i: int| 0 <= i < s.len() && is_syllable_char(#[trigger] s[i])
}

/// Converts Korean characters into romanized
/// text.
pub fn convert(text: &str) -> (r: String)
    ensures
        r@ == romanized_text(text@),
{
    broadcast use vstd::string::group_string_axioms;

    let mut blocks: Vec<MixedChar> = Vec::new();
    for c in it: text.chars()
        invariant
            it.seq() == text@,
            blocks@ == mixed_chars(text@.take(it.index())),
    {
        blocks.push(MixedChar::from(c));
        assert(text@.take(it.index() + 1) == text@.take(it.index()).push(c));
    }
    assert(text@.take(text@.len() as int) == text@);
    blocks.romanize()
}

/// Checks if the input string is in Korean.
/// Returns true if any character in the string is Korean.
pub fn has_korean(input: &str) -> (r: bool)
    ensures
        r == holds_korean(input@),
{
    broadcast use vstd::string::group_string_axioms;

    for c in it: input.chars()
        invariant
            it.seq() == input@,
            forall|j: int| 0 <= j < it.index() ==> !is_syllable_char(#[trigger] input@[j]),
    {
        if Syllable::is_syllable(c) {
            return true;
        }
    }
    false
}

} // verus!
