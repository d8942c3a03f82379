//! Romanization of Hangul: letter tables for jamo, the syllable-by-syllable romanization, and
//! the romanization of whole texts, where a final consonant is written according to the
//! syllable that follows it.
use crate::hangul::{decode_syllable, Choseong, Jongseong, Jungseong, Syllable};
use vstd::prelude::*;
use vstd::std_specs::convert::TryFromSpec;

verus! {

/// A character of a text: either a decoded Hangul syllable or any other character.
#[derive(Clone, Copy, Debug, PartialEq, Eq, Structural)]
pub enum MixedChar {
    Character(char),
    Syllable(Syllable),
}

/// The `MixedChar` that a character becomes.
pub open spec fn mixed_char_of(c: char) -> MixedChar {
    match decode_syllable(c) {
        Ok(s) => MixedChar::Syllable(s),
        Err(_) => MixedChar::Character(c),
    }
}

impl vstd::std_specs::convert::FromSpecImpl<char> for MixedChar {
    open spec fn obeys_from_spec() -> bool {
        true
    }

    open spec fn from_spec(c: char) -> MixedChar {
        mixed_char_of(c)
    }
}

impl From<char> for MixedChar {
    fn from(c: char) -> (r: Self) {
        match Syllable::try_from(c) {
            Ok(s) => MixedChar::Syllable(s),
            Err(_) => MixedChar::Character(c),
        }
    }
}

/// Something that can be written in the latin alphabet.
pub trait Romanizable: Sized {
    /// The text that `romanize` gives.
    spec fn romanized(&self) -> Seq<char>;

    /// Writes this value in latin letters.
    fn romanize(self) -> (r: String)
        ensures
            r@ == self.romanized(),
    ;
}

/// Appends `c` to `s` with `String::push`, which the standard library documents as
/// appending the given char to the end of the string.
#[verifier::external_body]
fn push_char(s: &mut String, c: char)
    ensures
        final(s)@ == old(s)@.push(c),
{
    s.push(c);
}

/// Letters of an initial consonant (silent `ㅇ` has none).
pub open spec fn choseong_letters(j: Choseong) -> Seq<char> {
    match j {
        Choseong::Giyeok => "g"@,
        Choseong::SsangGiyeok => "kk"@,
        Choseong::Nieun => "n"@,
        Choseong::Digeut => "d"@,
        Choseong::SsangDigeut => "tt"@,
        Choseong::Rieul => "r"@,
        Choseong::Mieum => "m"@,
        Choseong::Bieup => "b"@,
        Choseong::SsangBieup => "pp"@,
        Choseong::Siot => "s"@,
        Choseong::SsangSiot => "ss"@,
        Choseong::Ieung => ""@,
        Choseong::Jieut => "j"@,
        Choseong::SsangJieut => "jj"@,
        Choseong::Chieut => "ch"@,
        Choseong::Kieuk => "k"@,
        Choseong::Tieut => "t"@,
        Choseong::Pieup => "p"@,
        Choseong::Hieuh => "h"@,
    }
}

fn choseong_str(j: Choseong) -> (r: &'static str)
    ensures
        r@ == choseong_letters(j),
{
    match j {
        Choseong::Giyeok => "g",
        Choseong::SsangGiyeok => "kk",
        Choseong::Nieun => "n",
        Choseong::Digeut => "d",
        Choseong::SsangDigeut => "tt",
        Choseong::Rieul => "r",
        Choseong::Mieum => "m",
        Choseong::Bieup => "b",
        Choseong::SsangBieup => "pp",
        Choseong::Siot => "s",
        Choseong::SsangSiot => "ss",
        Choseong::Ieung => "",
        Choseong::Jieut => "j",
        Choseong::SsangJieut => "jj",
        Choseong::Chieut => "ch",
        Choseong::Kieuk => "k",
        Choseong::Tieut => "t",
        Choseong::Pieup => "p",
        Choseong::Hieuh => "h",
    }
}

/// Letters of a vowel.
pub open spec fn jungseong_letters(j: Jungseong) -> Seq<char> {
    match j {
        Jungseong::A => "a"@,
        Jungseong::AE => "ae"@,
        Jungseong::YA => "ya"@,
        Jungseong::YAE => "yae"@,
        Jungseong::EO => "eo"@,
        Jungseong::E => "e"@,
        Jungseong::YEO => "yeo"@,
        Jungseong::YE => "ye"@,
        Jungseong::O => "o"@,
        Jungseong::WA => "wa"@,
        Jungseong::WAE => "wae"@,
        Jungseong::OE => "oe"@,
        Jungseong::YO => "yo"@,
        Jungseong::U => "u"@,
        Jungseong::WEO => "wo"@,
        Jungseong::WE => "we"@,
        Jungseong::WI => "wi"@,
        Jungseong::YU => "yu"@,
        Jungseong::EU => "eu"@,
        Jungseong::YI => "ui"@,
        Jungseong::I => "i"@,
    }
}

fn jungseong_str(j: Jungseong) -> (r: &'static str)
    ensures
        r@ == jungseong_letters(j),
{
    match j {
        Jungseong::A => "a",
        Jungseong::AE => "ae",
        Jungseong::YA => "ya",
        Jungseong::YAE => "yae",
        Jungseong::EO => "eo",
        Jungseong::E => "e",
        Jungseong::YEO => "yeo",
        Jungseong::YE => "ye",
        Jungseong::O => "o",
        Jungseong::WA => "wa",
        Jungseong::WAE => "wae",
        Jungseong::OE => "oe",
        Jungseong::YO => "yo",
        Jungseong::U => "u",
        Jungseong::WEO => "wo",
        Jungseong::WE => "we",
        Jungseong::WI => "wi",
        Jungseong::YU => "yu",
        Jungseong::EU => "eu",
        Jungseong::YI => "ui",
        Jungseong::I => "i",
    }
}

/// Letters of a final consonant on its own, letter by letter.
pub open spec fn jongseong_letters(j: Jongseong) -> Seq<char> {
    match j {
        Jongseong::Empty => ""@,
        Jongseong::Giyeok => "g"@,
        Jongseong::SsangGiyeok => "kk"@,
        Jongseong::GiyeokSiot => "ks"@,
        Jongseong::Nieun => "n"@,
        Jongseong::NieunJieut => "nj"@,
        Jongseong::NieunHieuh => "nh"@,
        Jongseong::Digeut => "d"@,
        Jongseong::Rieul => "l"@,
        Jongseong::RieulGiyeok => "lg"@,
        Jongseong::RieulMieum => "lm"@,
        Jongseong::RieulBieup => "lb"@,
        Jongseong::RieulSiot => "ls"@,
        Jongseong::RieulTieut => "lt"@,
        Jongseong::RieulPieup => "lp"@,
        Jongseong::RieulHieuh => "lh"@,
        Jongseong::Mieum => "m"@,
        Jongseong::Bieup => "b"@,
        Jongseong::BieupSiot => "bs"@,
        Jongseong::Siot => "s"@,
        Jongseong::SsangSiot => "ss"@,
        Jongseong::Ieung => "ng"@,
        Jongseong::Jieut => "j"@,
        Jongseong::Chieut => "ch"@,
        Jongseong::Kieuk => "k"@,
        Jongseong::Tieut => "t"@,
        Jongseong::Pieup => "p"@,
        Jongseong::Hieuh => "h"@,
    }
}

fn jongseong_str(j: Jongseong) -> (r: &'static str)
    ensures
        r@ == jongseong_letters(j),
{
    match j {
        Jongseong::Empty => "",
        Jongseong::Giyeok => "g",
        Jongseong::SsangGiyeok => "kk",
        Jongseong::GiyeokSiot => "ks",
        Jongseong::Nieun => "n",
        Jongseong::NieunJieut => "nj",
        Jongseong::NieunHieuh => "nh",
        Jongseong::Digeut => "d",
        Jongseong::Rieul => "l",
        Jongseong::RieulGiyeok => "lg",
        Jongseong::RieulMieum => "lm",
        Jongseong::RieulBieup => "lb",
        Jongseong::RieulSiot => "ls",
        Jongseong::RieulTieut => "lt",
        Jongseong::RieulPieup => "lp",
        Jongseong::RieulHieuh => "lh",
        Jongseong::Mieum => "m",
        Jongseong::Bieup => "b",
        Jongseong::BieupSiot => "bs",
        Jongseong::Siot => "s",
        Jongseong::SsangSiot => "ss",
        Jongseong::Ieung => "ng",
        Jongseong::Jieut => "j",
        Jongseong::Chieut => "ch",
        Jongseong::Kieuk => "k",
        Jongseong::Tieut => "t",
        Jongseong::Pieup => "p",
        Jongseong::Hieuh => "h",
    }
}

impl Romanizable for char {
    open spec fn romanized(&self) -> Seq<char> {
        seq![*self]
    }

    fn romanize(self) -> (r: String) {
        let mut r = String::new();
        push_char(&mut r, self);
        r
    }
}

impl Romanizable for Choseong {
    open spec fn romanized(&self) -> Seq<char> {
        choseong_letters(*self)
    }

    fn romanize(self) -> (r: String) {
        String::from_str(choseong_str(self))
    }
}

impl Romanizable for Jungseong {
    open spec fn romanized(&self) -> Seq<char> {
        jungseong_letters(*self)
    }

    fn romanize(self) -> (r: String) {
        String::from_str(jungseong_str(self))
    }
}

impl Romanizable for Jongseong {
    open spec fn romanized(&self) -> Seq<char> {
        jongseong_letters(*self)
    }

    fn romanize(self) -> (r: String) {
        String::from_str(jongseong_str(self))
    }
}

/// Romanizes a syllable on its own, jamo by jamo.
impl Romanizable for Syllable {
    open spec fn romanized(&self) -> Seq<char> {
        choseong_letters(self.0) + jungseong_letters(self.1) + jongseong_letters(self.2)
    }

    fn romanize(self) -> (r: String) {
        let Syllable(choseong, jungseong, jongseong) = self;
        let mut r = choseong.romanize();
        r.append(jungseong_str(jungseong));
        r.append(jongseong_str(jongseong));
        r
    }
}

impl Romanizable for MixedChar {
    open spec fn romanized(&self) -> Seq<char> {
        match *self {
            MixedChar::Character(c) => seq![c],
            MixedChar::Syllable(s) => s.romanized(),
        }
    }

    /// Creates a romanized string of this character.
    fn romanize(self) -> (r: String) {
        match self {
            MixedChar::Character(c) => c.romanize(),
            MixedChar::Syllable(syllable) => syllable.romanize(),
        }
    }
}

/// How a final consonant sounds, which decides how it is written next to the following syllable.
#[derive(Clone, Copy, Debug, PartialEq, Eq, Structural)]
pub enum Coda {
    /// No final consonant.
    Silent,
    /// Sounds as `ㄱ`.
    K,
    /// Sounds as `ㄴ`.
    N,
    /// Sounds as `ㄷ`.
    T,
    /// Sounds as `ㄹ`.
    L,
    /// Sounds as `ㅁ`.
    M,
    /// Sounds as `ㅂ`.
    P,
    /// Sounds as `ㅇ`.
    Ng,
    /// `ㅎ`.
    H,
}

/// The sound of a final consonant.
pub open spec fn coda_of(j: Jongseong) -> Coda {
    match j {
        Jongseong::Empty => Coda::Silent,
        Jongseong::Giyeok | Jongseong::SsangGiyeok | Jongseong::GiyeokSiot
        | Jongseong::RieulGiyeok | Jongseong::Kieuk => Coda::K,
        Jongseong::Nieun | Jongseong::NieunJieut | Jongseong::NieunHieuh => Coda::N,
        Jongseong::Digeut | Jongseong::Siot | Jongseong::SsangSiot | Jongseong::Jieut
        | Jongseong::Chieut | Jongseong::Tieut => Coda::T,
        Jongseong::Rieul | Jongseong::RieulBieup | Jongseong::RieulSiot | Jongseong::RieulTieut
        | Jongseong::RieulHieuh => Coda::L,
        Jongseong::Mieum | Jongseong::RieulMieum => Coda::M,
        Jongseong::Bieup | Jongseong::BieupSiot | Jongseong::RieulPieup | Jongseong::Pieup => Coda::P,
        Jongseong::Ieung => Coda::Ng,
        Jongseong::Hieuh => Coda::H,
    }
}

fn coda_class(j: Jongseong) -> (r: Coda)
    ensures
        r == coda_of(j),
{
    match j {
        Jongseong::Empty => Coda::Silent,
        Jongseong::Giyeok | Jongseong::SsangGiyeok | Jongseong::GiyeokSiot
        | Jongseong::RieulGiyeok | Jongseong::Kieuk => Coda::K,
        Jongseong::Nieun | Jongseong::NieunJieut | Jongseong::NieunHieuh => Coda::N,
        Jongseong::Digeut | Jongseong::Siot | Jongseong::SsangSiot | Jongseong::Jieut
        | Jongseong::Chieut | Jongseong::Tieut => Coda::T,
        Jongseong::Rieul | Jongseong::RieulBieup | Jongseong::RieulSiot | Jongseong::RieulTieut
        | Jongseong::RieulHieuh => Coda::L,
        Jongseong::Mieum | Jongseong::RieulMieum => Coda::M,
        Jongseong::Bieup | Jongseong::BieupSiot | Jongseong::RieulPieup | Jongseong::Pieup => Coda::P,
        Jongseong::Ieung => Coda::Ng,
        Jongseong::Hieuh => Coda::H,
    }
}

/// How a final consonant is written at the end of a word or before a consonant that does not
/// change it: `ㄱ`, `ㄷ` and `ㅂ` become `k`, `t` and `p`.
pub open spec fn coda_letters(k: Coda) -> Seq<char> {
    match k {
        Coda::Silent => ""@,
        Coda::K => "k"@,
        Coda::N => "n"@,
        Coda::T => "t"@,
        Coda::L => "l"@,
        Coda::M => "m"@,
        Coda::P => "p"@,
        Coda::Ng => "ng"@,
        Coda::H => "h"@,
    }
}

fn coda_str(k: Coda) -> (r: &'static str)
    ensures
        r@ == coda_letters(k),
{
    match k {
        Coda::Silent => "",
        Coda::K => "k",
        Coda::N => "n",
        Coda::T => "t",
        Coda::L => "l",
        Coda::M => "m",
        Coda::P => "p",
        Coda::Ng => "ng",
        Coda::H => "h",
    }
}

/// How a final consonant is written before `ㄴ`, `ㅁ` or `ㄹ`, which make `ㄱ`, `ㄷ` and `ㅂ`
/// nasal (`ng`, `n`, `m`).
pub open spec fn nasal_letters(k: Coda) -> Seq<char> {
    match k {
        Coda::K => "ng"@,
        Coda::T => "n"@,
        Coda::P => "m"@,
        _ => coda_letters(k),
    }
}

fn nasal_str(k: Coda) -> (r: &'static str)
    ensures
        r@ == nasal_letters(k),
{
    match k {
        Coda::K => "ng",
        Coda::T => "n",
        Coda::P => "m",
        _ => coda_str(k),
    }
}

/// Whether a vowel begins with a `y` glide, before which a `ㄴ` sound is inserted after a
/// final consonant.
pub open spec fn is_y_vowel(v: Jungseong) -> bool {
    match v {
        Jungseong::YA | Jungseong::YAE | Jungseong::YEO | Jungseong::YE | Jungseong::YO
        | Jungseong::YU => true,
        _ => false,
    }
}

fn y_vowel(v: Jungseong) -> (r: bool)
    ensures
        r == is_y_vowel(v),
{
    match v {
        Jungseong::YA | Jungseong::YAE | Jungseong::YEO | Jungseong::YE | Jungseong::YO
        | Jungseong::YU => true,
        _ => false,
    }
}

/// A final consonant before a following `ㄴ` sound: `ㄹ` turns the `ㄴ` into `l`, any other
/// final is made nasal.
pub open spec fn before_nieun(k: Coda) -> (Seq<char>, Seq<char>) {
    if k is L {
        ("l"@, "l"@)
    } else {
        (nasal_letters(k), "n"@)
    }
}

fn before_nieun_str(k: Coda) -> (r: (&'static str, &'static str))
    ensures
        r.0@ == before_nieun(k).0,
        r.1@ == before_nieun(k).1,
{
    match k {
        Coda::L => ("l", "l"),
        _ => (nasal_str(k), "n"),
    }
}

/// A compound final consonant before a vowel: its second consonant moves to the next
/// syllable, and an `ㅎ` falls silent.
pub open spec fn compound_split(j: Jongseong) -> (Seq<char>, Seq<char>) {
    match j {
        Jongseong::GiyeokSiot => ("k"@, "s"@),
        Jongseong::NieunJieut => ("n"@, "j"@),
        Jongseong::NieunHieuh => (""@, "n"@),
        Jongseong::RieulGiyeok => ("l"@, "g"@),
        Jongseong::RieulMieum => ("l"@, "m"@),
        Jongseong::RieulBieup => ("l"@, "b"@),
        Jongseong::RieulSiot => ("l"@, "s"@),
        Jongseong::RieulTieut => ("l"@, "t"@),
        Jongseong::RieulPieup => ("l"@, "p"@),
        Jongseong::RieulHieuh => (""@, "r"@),
        Jongseong::BieupSiot => ("p"@, "s"@),
        _ => (""@, ""@),
    }
}

fn compound_split_str(j: Jongseong) -> (r: (&'static str, &'static str))
    ensures
        r.0@ == compound_split(j).0,
        r.1@ == compound_split(j).1,
{
    match j {
        Jongseong::GiyeokSiot => ("k", "s"),
        Jongseong::NieunJieut => ("n", "j"),
        Jongseong::NieunHieuh => ("", "n"),
        Jongseong::RieulGiyeok => ("l", "g"),
        Jongseong::RieulMieum => ("l", "m"),
        Jongseong::RieulBieup => ("l", "b"),
        Jongseong::RieulSiot => ("l", "s"),
        Jongseong::RieulTieut => ("l", "t"),
        Jongseong::RieulPieup => ("l", "p"),
        Jongseong::RieulHieuh => ("", "r"),
        Jongseong::BieupSiot => ("p", "s"),
        _ => ("", ""),
    }
}

/// A final consonant before a vowel moves to the next syllable and is written there as an
/// initial consonant; of a compound final only the second consonant moves.
pub open spec fn liaison(j: Jongseong) -> (Seq<char>, Seq<char>) {
    match <Choseong as TryFromSpec<Jongseong>>::try_from_spec(j) {
        Ok(c) => (""@, choseong_letters(c)),
        Err(_) => compound_split(j),
    }
}

fn liaison_str(j: Jongseong) -> (r: (&'static str, &'static str))
    ensures
        r.0@ == liaison(j).0,
        r.1@ == liaison(j).1,
{
    match Choseong::try_from(j) {
        Ok(c) => ("", choseong_str(c)),
        Err(_) => compound_split_str(j),
    }
}

/// How the final consonant `f` of a syllable and the initial consonant `i` of the next
/// syllable (whose vowel is `v`) are written, in that order.
#[verifier::opaque]
pub open spec fn junction(f: Jongseong, i: Choseong, v: Jungseong) -> (Seq<char>, Seq<char>) {
    let k = coda_of(f);
    if k is Silent {
        (""@, choseong_letters(i))
    } else if i is Ieung && !(k is Ng) {
        if k is H {
            (""@, ""@)
        } else if is_y_vowel(v) {
            before_nieun(k)
        } else {
            liaison(f)
        }
    } else if i is Rieul {
        if k is N || k is L {
            ("l"@, "l"@)
        } else {
            (nasal_letters(k), "n"@)
        }
    } else if i is Nieun {
        before_nieun(k)
    } else if i is Mieum {
        (nasal_letters(k), "m"@)
    } else {
        (coda_letters(k), choseong_letters(i))
    }
}

fn junction_str(f: Jongseong, i: Choseong, v: Jungseong) -> (r: (&'static str, &'static str))
    ensures
        r.0@ == junction(f, i, v).0,
        r.1@ == junction(f, i, v).1,
{
    reveal(junction);
    let k = coda_class(f);
    match k {
        Coda::Silent => {
            return ("", choseong_str(i));
        },
        _ => {},
    }
    match (i, k) {
        (Choseong::Ieung, Coda::Ng) => (coda_str(k), choseong_str(i)),
        (Choseong::Ieung, Coda::H) => ("", ""),
        (Choseong::Ieung, _) => {
            if y_vowel(v) {
                before_nieun_str(k)
            } else {
                liaison_str(f)
            }
        },
        (Choseong::Rieul, Coda::N) | (Choseong::Rieul, Coda::L) => ("l", "l"),
        (Choseong::Rieul, _) => (nasal_str(k), "n"),
        (Choseong::Nieun, _) => before_nieun_str(k),
        (Choseong::Mieum, _) => (nasal_str(k), "m"),
        _ => (coda_str(k), choseong_str(i)),
    }
}

/// The syllable at position `i` of `v`, if there is one.
pub open spec fn syllable_at(v: Seq<MixedChar>, i: int) -> Option<Syllable> {
    if 0 <= i < v.len() {
        match v[i] {
            MixedChar::Syllable(s) => Some(s),
            MixedChar::Character(_) => None,
        }
    } else {
        None
    }
}

/// How the initial consonant of `cur` is written after the syllable `prev`, if any.
pub open spec fn onset_in_context(prev: Option<Syllable>, cur: Syllable) -> Seq<char> {
    match prev {
        Some(p) => junction(p.2, cur.0, cur.1).1,
        None => choseong_letters(cur.0),
    }
}

/// How the final consonant of `cur` is written before the syllable `next`, if any.
pub open spec fn coda_in_context(cur: Syllable, next: Option<Syllable>) -> Seq<char> {
    match next {
        Some(n) => junction(cur.2, n.0, n.1).0,
        None => coda_letters(coda_of(cur.2)),
    }
}

/// The romanization of position `i` of `v`: a character other than a syllable stays as it is.
pub open spec fn romanized_at(v: Seq<MixedChar>, i: int) -> Seq<char> {
    match v[i] {
        MixedChar::Character(c) => seq![c],
        MixedChar::Syllable(s) => onset_in_context(syllable_at(v, i - 1), s) + jungseong_letters(s.1)
            + coda_in_context(s, syllable_at(v, i + 1)),
    }
}

/// The romanizations of positions `lo..hi` of `v`, one after the other.
pub open spec fn romanize_range(v: Seq<MixedChar>, lo: int, hi: int) -> Seq<char>
    decreases hi - lo,
{
    if hi <= lo {
        seq![]
    } else {
        romanize_range(v, lo, hi - 1) + romanized_at(v, hi - 1)
    }
}

/// The romanization of a text given as characters and syllables.
pub open spec fn romanize_text(v: Seq<MixedChar>) -> Seq<char> {
    romanize_range(v, 0, v.len() as int)
}

fn syllable_at_exec(v: &Vec<MixedChar>, i: usize) -> (r: Option<Syllable>)
    ensures
        r == syllable_at(v@, i as int),
{
    if i < v.len() {
        match v[i] {
            MixedChar::Syllable(s) => Some(s),
            MixedChar::Character(_) => None,
        }
    } else {
        None
    }
}

fn onset_str(prev: Option<Syllable>, cur: Syllable) -> (r: &'static str)
    ensures
        r@ == onset_in_context(prev, cur),
{
    match prev {
        Some(p) => junction_str(p.2, cur.0, cur.1).1,
        None => choseong_str(cur.0),
    }
}

fn coda_in_context_str(cur: Syllable, next: Option<Syllable>) -> (r: &'static str)
    ensures
        r@ == coda_in_context(cur, next),
{
    match next {
        Some(n) => junction_str(cur.2, n.0, n.1).0,
        None => coda_str(coda_class(cur.2)),
    }
}

fn append_romanized_at(out: &mut String, v: &Vec<MixedChar>, i: usize)
    requires
        i < v@.len(),
    ensures
        final(out)@ == old(out)@ + romanized_at(v@, i as int),
{
    let n = v.len();
    match v[i] {
        MixedChar::Character(c) => push_char(out, c),
        MixedChar::Syllable(s) => {
            let prev = if i == 0 {
                None
            } else {
                syllable_at_exec(v, i - 1)
            };
            let next = syllable_at_exec(v, i + 1);
            out.append(onset_str(prev, s));
            out.append(jungseong_str(s.1));
            out.append(coda_in_context_str(s, next));
        },
    }
}

/// Romanizes a text: each syllable is written according to its neighbours, and every other
/// character is kept.
impl Romanizable for Vec<MixedChar> {
    open spec fn romanized(&self) -> Seq<char> {
        romanize_text(self@)
    }

    fn romanize(self) -> (r: String) {
        let mut out = String::new();
        let n = self.len();
        for i in 0..n
            invariant
                n == self@.len(),
                out@ == romanize_range(self@, 0, i as int),
        {
            append_romanized_at(&mut out, &self, i);
        }
        out
    }
}

} // verus!
