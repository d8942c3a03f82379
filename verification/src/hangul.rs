//! Hangul syllables and their jamo (initial consonant, vowel, final consonant).
//!
//! A precomposed Hangul syllable at code point `0xAC00 + (initial * 21 + vowel) * 28 + final`
//! decomposes into its three jamo; this module models that decomposition.
use vstd::prelude::*;
use vstd::std_specs::convert::TryFromSpec;

verus! {

/// First code point of the Hangul syllables block.
pub const HANGUL_START: u32 = 0xAC00;

/// Last code point that this library treats as part of the Hangul syllables block.
pub const HANGUL_END: u32 = 0xD7AF;

/// Last code point that holds a precomposed syllable (`0xAC00 + 19 * 21 * 28 - 1`).
pub const HANGUL_LAST_SYLLABLE: u32 = 0xD7A3;

/// `c` lies in the Hangul syllables block.
pub open spec fn is_syllable_char(c: char) -> bool {
    HANGUL_START <= (c as u32) <= HANGUL_END
}

/// The code point of the syllable made of the jamo with these indices.
pub open spec fn compose_code(cho: nat, jung: nat, jong: nat) -> int {
    HANGUL_START + cho * 588 + jung * 28 + jong
}

/// A syllable decomposed into its initial consonant, vowel and final consonant.
#[derive(Clone, Copy, Debug, PartialEq, Eq, Structural)]
pub struct Syllable(pub Choseong, pub Jungseong, pub Jongseong);

impl Syllable {
    /// The code point that this syllable is written with.
    pub open spec fn code(self) -> int {
        compose_code(self.0.index(), self.1.index(), self.2.index())
    }

    /// Whether `c` lies in the Hangul syllables block.
    pub fn is_syllable(c: char) -> (r: bool)
        ensures
            r == is_syllable_char(c),
    {
        let unicode = c as u32;
        unicode >= HANGUL_START && unicode <= HANGUL_END
    }
}

/// What decoding a character gives: the three jamo of a precomposed syllable, else an error.
pub open spec fn decode_syllable(c: char) -> Result<Syllable, ()> {
    if is_syllable_char(c) {
        let index = (c as u32 - HANGUL_START) as u32;
        match (
            Choseong::try_from_spec((index / 588) as u32),
            Jungseong::try_from_spec((index % 588 / 28) as u32),
            Jongseong::try_from_spec((index % 28) as u32),
        ) {
            (Ok(a), Ok(b), Ok(c)) => Ok(Syllable(a, b, c)),
            _ => Err(()),
        }
    } else {
        Err(())
    }
}

impl vstd::std_specs::convert::TryFromSpecImpl<char> for Syllable {
    open spec fn obeys_try_from_spec() -> bool {
        true
    }

    open spec fn try_from_spec(value: char) -> Result<Self, ()> {
        decode_syllable(value)
    }
}

proof fn lemma_decode_arith(index: int)
    requires
        0 <= index,
    ensures
        index == (index / 588) * 588 + (index % 588 / 28) * 28 + index % 28,
        index % 588 / 28 < 21,
        index % 28 < 28,
        index < 11172 <==> index / 588 < 19,
{
    assert(index == (index / 588) * 588 + (index % 588 / 28) * 28 + index % 28) by (nonlinear_arith)
        requires 0 <= index;
    assert(index % 588 / 28 < 21) by (nonlinear_arith)
        requires 0 <= index;
    assert(index < 11172 <==> index / 588 < 19) by (nonlinear_arith)
        requires 0 <= index;
}

impl TryFrom<char> for Syllable {
    type Error = ();

    fn try_from(value: char) -> (r: Result<Self, ()>)
        ensures
            r is Ok <==> HANGUL_START <= (value as u32) <= HANGUL_LAST_SYLLABLE,
            r matches Ok(s) ==> s.code() == value as u32,
    {
        if !Syllable::is_syllable(value) {
            return Err(());
        }
        let unicode = value as u32;
        let index = unicode - HANGUL_START;
        proof {
            lemma_decode_arith(index as int);
        }
        let choseong = index / 588;
        let jungseong = index % 588 / 28;
        let jongseong = index % 28;
        match (Choseong::try_from(choseong), Jungseong::try_from(jungseong), Jongseong::try_from(jongseong)) {
            (Ok(a), Ok(b), Ok(c)) => Ok(Syllable(a, b, c)),
            _ => Err(()),
        }
    }
}

/// Initial consonant.
#[derive(Clone, Copy, Debug, PartialEq, Eq, Structural)]
pub enum Choseong {
    /// ㄱ
    Giyeok,
    /// ㄲ
    SsangGiyeok,
    /// ㄴ
    Nieun,
    /// ㄷ
    Digeut,
    /// ㄸ
    SsangDigeut,
    /// ㄹ
    Rieul,
    /// ㅁ
    Mieum,
    /// ㅂ
    Bieup,
    /// ㅃ
    SsangBieup,
    /// ㅅ
    Siot,
    /// ㅆ
    SsangSiot,
    /// ㅇ
    Ieung,
    /// ㅈ
    Jieut,
    /// ㅉ
    SsangJieut,
    /// ㅊ
    Chieut,
    /// ㅋ
    Kieuk,
    /// ㅌ
    Tieut,
    /// ㅍ
    Pieup,
    /// ㅎ
    Hieuh,
}

impl Choseong {
    /// Position of this jamo in the Unicode syllable ordering.
    pub open spec fn index(self) -> nat {
        match self {
            Choseong::Giyeok => 0,
            Choseong::SsangGiyeok => 1,
            Choseong::Nieun => 2,
            Choseong::Digeut => 3,
            Choseong::SsangDigeut => 4,
            Choseong::Rieul => 5,
            Choseong::Mieum => 6,
            Choseong::Bieup => 7,
            Choseong::SsangBieup => 8,
            Choseong::Siot => 9,
            Choseong::SsangSiot => 10,
            Choseong::Ieung => 11,
            Choseong::Jieut => 12,
            Choseong::SsangJieut => 13,
            Choseong::Chieut => 14,
            Choseong::Kieuk => 15,
            Choseong::Tieut => 16,
            Choseong::Pieup => 17,
            Choseong::Hieuh => 18,
        }
    }
}

impl vstd::std_specs::convert::TryFromSpecImpl<u32> for Choseong {
    open spec fn obeys_try_from_spec() -> bool {
        true
    }

    open spec fn try_from_spec(value: u32) -> Result<Self, ()> {
        match value {
            0 => Ok(Choseong::Giyeok),
            1 => Ok(Choseong::SsangGiyeok),
            2 => Ok(Choseong::Nieun),
            3 => Ok(Choseong::Digeut),
            4 => Ok(Choseong::SsangDigeut),
            5 => Ok(Choseong::Rieul),
            6 => Ok(Choseong::Mieum),
            7 => Ok(Choseong::Bieup),
            8 => Ok(Choseong::SsangBieup),
            9 => Ok(Choseong::Siot),
            10 => Ok(Choseong::SsangSiot),
            11 => Ok(Choseong::Ieung),
            12 => Ok(Choseong::Jieut),
            13 => Ok(Choseong::SsangJieut),
            14 => Ok(Choseong::Chieut),
            15 => Ok(Choseong::Kieuk),
            16 => Ok(Choseong::Tieut),
            17 => Ok(Choseong::Pieup),
            18 => Ok(Choseong::Hieuh),
            _ => Err(()),
        }
    }
}

impl TryFrom<u32> for Choseong {
    type Error = ();

    fn try_from(value: u32) -> (r: Result<Self, ()>)
        ensures
            r is Ok <==> value < 19,
            r matches Ok(j) ==> j.index() == value,
    {
        match value {
            0 => Ok(Choseong::Giyeok),
            1 => Ok(Choseong::SsangGiyeok),
            2 => Ok(Choseong::Nieun),
            3 => Ok(Choseong::Digeut),
            4 => Ok(Choseong::SsangDigeut),
            5 => Ok(Choseong::Rieul),
            6 => Ok(Choseong::Mieum),
            7 => Ok(Choseong::Bieup),
            8 => Ok(Choseong::SsangBieup),
            9 => Ok(Choseong::Siot),
            10 => Ok(Choseong::SsangSiot),
            11 => Ok(Choseong::Ieung),
            12 => Ok(Choseong::Jieut),
            13 => Ok(Choseong::SsangJieut),
            14 => Ok(Choseong::Chieut),
            15 => Ok(Choseong::Kieuk),
            16 => Ok(Choseong::Tieut),
            17 => Ok(Choseong::Pieup),
            18 => Ok(Choseong::Hieuh),
            _ => Err(()),
        }
    }
}

/// Vowel.
#[derive(Clone, Copy, Debug, PartialEq, Eq, Structural)]
pub enum Jungseong {
    /// ㅏ
    A,
    /// ㅐ
    AE,
    /// ㅑ
    YA,
    /// ㅒ
    YAE,
    /// ㅓ
    EO,
    /// ㅔ
    E,
    /// ㅕ
    YEO,
    /// ㅖ
    YE,
    /// ㅗ
    O,
    /// ㅘ
    WA,
    /// ㅙ
    WAE,
    /// ㅚ
    OE,
    /// ㅛ
    YO,
    /// ㅜ
    U,
    /// ㅝ
    WEO,
    /// ㅞ
    WE,
    /// ㅟ
    WI,
    /// ㅠ
    YU,
    /// ㅡ
    EU,
    /// ㅢ
    YI,
    /// ㅣ
    I,
}

impl Jungseong {
    /// Position of this jamo in the Unicode syllable ordering.
    pub open spec fn index(self) -> nat {
        match self {
            Jungseong::A => 0,
            Jungseong::AE => 1,
            Jungseong::YA => 2,
            Jungseong::YAE => 3,
            Jungseong::EO => 4,
            Jungseong::E => 5,
            Jungseong::YEO => 6,
            Jungseong::YE => 7,
            Jungseong::O => 8,
            Jungseong::WA => 9,
            Jungseong::WAE => 10,
            Jungseong::OE => 11,
            Jungseong::YO => 12,
            Jungseong::U => 13,
            Jungseong::WEO => 14,
            Jungseong::WE => 15,
            Jungseong::WI => 16,
            Jungseong::YU => 17,
            Jungseong::EU => 18,
            Jungseong::YI => 19,
            Jungseong::I => 20,
        }
    }
}

impl vstd::std_specs::convert::TryFromSpecImpl<u32> for Jungseong {
    open spec fn obeys_try_from_spec() -> bool {
        true
    }

    open spec fn try_from_spec(value: u32) -> Result<Self, ()> {
        match value {
            0 => Ok(Jungseong::A),
            1 => Ok(Jungseong::AE),
            2 => Ok(Jungseong::YA),
            3 => Ok(Jungseong::YAE),
            4 => Ok(Jungseong::EO),
            5 => Ok(Jungseong::E),
            6 => Ok(Jungseong::YEO),
            7 => Ok(Jungseong::YE),
            8 => Ok(Jungseong::O),
            9 => Ok(Jungseong::WA),
            10 => Ok(Jungseong::WAE),
            11 => Ok(Jungseong::OE),
            12 => Ok(Jungseong::YO),
            13 => Ok(Jungseong::U),
            14 => Ok(Jungseong::WEO),
            15 => Ok(Jungseong::WE),
            16 => Ok(Jungseong::WI),
            17 => Ok(Jungseong::YU),
            18 => Ok(Jungseong::EU),
            19 => Ok(Jungseong::YI),
            20 => Ok(Jungseong::I),
            _ => Err(()),
        }
    }
}

impl TryFrom<u32> for Jungseong {
    type Error = ();

    fn try_from(value: u32) -> (r: Result<Self, ()>)
        ensures
            r is Ok <==> value < 21,
            r matches Ok(j) ==> j.index() == value,
    {
        match value {
            0 => Ok(Jungseong::A),
            1 => Ok(Jungseong::AE),
            2 => Ok(Jungseong::YA),
            3 => Ok(Jungseong::YAE),
            4 => Ok(Jungseong::EO),
            5 => Ok(Jungseong::E),
            6 => Ok(Jungseong::YEO),
            7 => Ok(Jungseong::YE),
            8 => Ok(Jungseong::O),
            9 => Ok(Jungseong::WA),
            10 => Ok(Jungseong::WAE),
            11 => Ok(Jungseong::OE),
            12 => Ok(Jungseong::YO),
            13 => Ok(Jungseong::U),
            14 => Ok(Jungseong::WEO),
            15 => Ok(Jungseong::WE),
            16 => Ok(Jungseong::WI),
            17 => Ok(Jungseong::YU),
            18 => Ok(Jungseong::EU),
            19 => Ok(Jungseong::YI),
            20 => Ok(Jungseong::I),
            _ => Err(()),
        }
    }
}

/// Final consonant.
#[derive(Clone, Copy, Debug, PartialEq, Eq, Structural)]
pub enum Jongseong {
    /// Jongseong is optional.
    Empty,
    /// ᆨ
    Giyeok,
    /// ᆩ
    SsangGiyeok,
    /// ᆪ
    GiyeokSiot,
    /// ᆫ
    Nieun,
    /// ᆬ
    NieunJieut,
    /// ᆭ
    NieunHieuh,
    /// ᆮ
    Digeut,
    /// ᆯ
    Rieul,
    /// ᆰ
    RieulGiyeok,
    /// ᆱ
    RieulMieum,
    /// ᆲ
    RieulBieup,
    /// ᆳ
    RieulSiot,
    /// ᆴ
    RieulTieut,
    /// ᆵ
    RieulPieup,
    /// ᆶ
    RieulHieuh,
    /// ᆷ
    Mieum,
    /// ᆸ
    Bieup,
    /// ᆹ
    BieupSiot,
    /// ᆺ
    Siot,
    /// ᆻ
    SsangSiot,
    /// ᆼ
    Ieung,
    /// ᆽ
    Jieut,
    /// ᆾ
    Chieut,
    /// ᆿ
    Kieuk,
    /// ᇀ
    Tieut,
    /// ᇁ
    Pieup,
    /// ᇂ
    Hieuh,
}

impl Jongseong {
    /// Position of this jamo in the Unicode syllable ordering.
    pub open spec fn index(self) -> nat {
        match self {
            Jongseong::Empty => 0,
            Jongseong::Giyeok => 1,
            Jongseong::SsangGiyeok => 2,
            Jongseong::GiyeokSiot => 3,
            Jongseong::Nieun => 4,
            Jongseong::NieunJieut => 5,
            Jongseong::NieunHieuh => 6,
            Jongseong::Digeut => 7,
            Jongseong::Rieul => 8,
            Jongseong::RieulGiyeok => 9,
            Jongseong::RieulMieum => 10,
            Jongseong::RieulBieup => 11,
            Jongseong::RieulSiot => 12,
            Jongseong::RieulTieut => 13,
            Jongseong::RieulPieup => 14,
            Jongseong::RieulHieuh => 15,
            Jongseong::Mieum => 16,
            Jongseong::Bieup => 17,
            Jongseong::BieupSiot => 18,
            Jongseong::Siot => 19,
            Jongseong::SsangSiot => 20,
            Jongseong::Ieung => 21,
            Jongseong::Jieut => 22,
            Jongseong::Chieut => 23,
            Jongseong::Kieuk => 24,
            Jongseong::Tieut => 25,
            Jongseong::Pieup => 26,
            Jongseong::Hieuh => 27,
        }
    }
}

impl vstd::std_specs::convert::TryFromSpecImpl<u32> for Jongseong {
    open spec fn obeys_try_from_spec() -> bool {
        true
    }

    open spec fn try_from_spec(value: u32) -> Result<Self, ()> {
        match value {
            0 => Ok(Jongseong::Empty),
            1 => Ok(Jongseong::Giyeok),
            2 => Ok(Jongseong::SsangGiyeok),
            3 => Ok(Jongseong::GiyeokSiot),
            4 => Ok(Jongseong::Nieun),
            5 => Ok(Jongseong::NieunJieut),
            6 => Ok(Jongseong::NieunHieuh),
            7 => Ok(Jongseong::Digeut),
            8 => Ok(Jongseong::Rieul),
            9 => Ok(Jongseong::RieulGiyeok),
            10 => Ok(Jongseong::RieulMieum),
            11 => Ok(Jongseong::RieulBieup),
            12 => Ok(Jongseong::RieulSiot),
            13 => Ok(Jongseong::RieulTieut),
            14 => Ok(Jongseong::RieulPieup),
            15 => Ok(Jongseong::RieulHieuh),
            16 => Ok(Jongseong::Mieum),
            17 => Ok(Jongseong::Bieup),
            18 => Ok(Jongseong::BieupSiot),
            19 => Ok(Jongseong::Siot),
            20 => Ok(Jongseong::SsangSiot),
            21 => Ok(Jongseong::Ieung),
            22 => Ok(Jongseong::Jieut),
            23 => Ok(Jongseong::Chieut),
            24 => Ok(Jongseong::Kieuk),
            25 => Ok(Jongseong::Tieut),
            26 => Ok(Jongseong::Pieup),
            27 => Ok(Jongseong::Hieuh),
            _ => Err(()),
        }
    }
}

impl TryFrom<u32> for Jongseong {
    type Error = ();

    fn try_from(value: u32) -> (r: Result<Self, ()>)
        ensures
            r is Ok <==> value < 28,
            r matches Ok(j) ==> j.index() == value,
    {
        match value {
            0 => Ok(Jongseong::Empty),
            1 => Ok(Jongseong::Giyeok),
            2 => Ok(Jongseong::SsangGiyeok),
            3 => Ok(Jongseong::GiyeokSiot),
            4 => Ok(Jongseong::Nieun),
            5 => Ok(Jongseong::NieunJieut),
            6 => Ok(Jongseong::NieunHieuh),
            7 => Ok(Jongseong::Digeut),
            8 => Ok(Jongseong::Rieul),
            9 => Ok(Jongseong::RieulGiyeok),
            10 => Ok(Jongseong::RieulMieum),
            11 => Ok(Jongseong::RieulBieup),
            12 => Ok(Jongseong::RieulSiot),
            13 => Ok(Jongseong::RieulTieut),
            14 => Ok(Jongseong::RieulPieup),
            15 => Ok(Jongseong::RieulHieuh),
            16 => Ok(Jongseong::Mieum),
            17 => Ok(Jongseong::Bieup),
            18 => Ok(Jongseong::BieupSiot),
            19 => Ok(Jongseong::Siot),
            20 => Ok(Jongseong::SsangSiot),
            21 => Ok(Jongseong::Ieung),
            22 => Ok(Jongseong::Jieut),
            23 => Ok(Jongseong::Chieut),
            24 => Ok(Jongseong::Kieuk),
            25 => Ok(Jongseong::Tieut),
            26 => Ok(Jongseong::Pieup),
            27 => Ok(Jongseong::Hieuh),
            _ => Err(()),
        }
    }
}

impl vstd::std_specs::convert::TryFromSpecImpl<Jongseong> for Choseong {
    open spec fn obeys_try_from_spec() -> bool {
        true
    }

    open spec fn try_from_spec(value: Jongseong) -> Result<Self, ()> {
        match value {
            Jongseong::Giyeok => Ok(Choseong::Giyeok),
            Jongseong::SsangGiyeok => Ok(Choseong::SsangGiyeok),
            Jongseong::Nieun => Ok(Choseong::Nieun),
            Jongseong::Digeut => Ok(Choseong::Digeut),
            Jongseong::Rieul => Ok(Choseong::Rieul),
            Jongseong::Mieum => Ok(Choseong::Mieum),
            Jongseong::Bieup => Ok(Choseong::Bieup),
            Jongseong::Siot => Ok(Choseong::Siot),
            Jongseong::SsangSiot => Ok(Choseong::SsangSiot),
            Jongseong::Ieung => Ok(Choseong::Ieung),
            Jongseong::Jieut => Ok(Choseong::Jieut),
            Jongseong::Chieut => Ok(Choseong::Chieut),
            Jongseong::Kieuk => Ok(Choseong::Kieuk),
            Jongseong::Tieut => Ok(Choseong::Tieut),
            Jongseong::Pieup => Ok(Choseong::Pieup),
            Jongseong::Hieuh => Ok(Choseong::Hieuh),
            _ => Err(()),
        }
    }
}

impl TryFrom<Jongseong> for Choseong {
    type Error = ();

    fn try_from(value: Jongseong) -> (r: Result<Self, ()>) {
        match value {
            Jongseong::Giyeok => Ok(Choseong::Giyeok),
            Jongseong::SsangGiyeok => Ok(Choseong::SsangGiyeok),
            Jongseong::Nieun => Ok(Choseong::Nieun),
            Jongseong::Digeut => Ok(Choseong::Digeut),
            Jongseong::Rieul => Ok(Choseong::Rieul),
            Jongseong::Mieum => Ok(Choseong::Mieum),
            Jongseong::Bieup => Ok(Choseong::Bieup),
            Jongseong::Siot => Ok(Choseong::Siot),
            Jongseong::SsangSiot => Ok(Choseong::SsangSiot),
            Jongseong::Ieung => Ok(Choseong::Ieung),
            Jongseong::Jieut => Ok(Choseong::Jieut),
            Jongseong::Chieut => Ok(Choseong::Chieut),
            Jongseong::Kieuk => Ok(Choseong::Kieuk),
            Jongseong::Tieut => Ok(Choseong::Tieut),
            Jongseong::Pieup => Ok(Choseong::Pieup),
            Jongseong::Hieuh => Ok(Choseong::Hieuh),
            _ => Err(()),
        }
    }
}

impl vstd::std_specs::convert::TryFromSpecImpl<Choseong> for Jongseong {
    open spec fn obeys_try_from_spec() -> bool {
        true
    }

    open spec fn try_from_spec(value: Choseong) -> Result<Self, ()> {
        match value {
            Choseong::Giyeok => Ok(Jongseong::Giyeok),
            Choseong::SsangGiyeok => Ok(Jongseong::SsangGiyeok),
            Choseong::Nieun => Ok(Jongseong::Nieun),
            Choseong::Digeut => Ok(Jongseong::Digeut),
            Choseong::Rieul => Ok(Jongseong::Rieul),
            Choseong::Mieum => Ok(Jongseong::Mieum),
            Choseong::Bieup => Ok(Jongseong::Bieup),
            Choseong::Siot => Ok(Jongseong::Siot),
            Choseong::SsangSiot => Ok(Jongseong::SsangSiot),
            Choseong::Ieung => Ok(Jongseong::Ieung),
            Choseong::Jieut => Ok(Jongseong::Jieut),
            Choseong::Chieut => Ok(Jongseong::Chieut),
            Choseong::Kieuk => Ok(Jongseong::Kieuk),
            Choseong::Tieut => Ok(Jongseong::Tieut),
            Choseong::Pieup => Ok(Jongseong::Pieup),
            Choseong::Hieuh => Ok(Jongseong::Hieuh),
            _ => Err(()),
        }
    }
}

impl TryFrom<Choseong> for Jongseong {
    type Error = ();

    fn try_from(value: Choseong) -> (r: Result<Self, ()>) {
        match value {
            Choseong::Giyeok => Ok(Jongseong::Giyeok),
            Choseong::SsangGiyeok => Ok(Jongseong::SsangGiyeok),
            Choseong::Nieun => Ok(Jongseong::Nieun),
            Choseong::Digeut => Ok(Jongseong::Digeut),
            Choseong::Rieul => Ok(Jongseong::Rieul),
            Choseong::Mieum => Ok(Jongseong::Mieum),
            Choseong::Bieup => Ok(Jongseong::Bieup),
            Choseong::Siot => Ok(Jongseong::Siot),
            Choseong::SsangSiot => Ok(Jongseong::SsangSiot),
            Choseong::Ieung => Ok(Jongseong::Ieung),
            Choseong::Jieut => Ok(Jongseong::Jieut),
            Choseong::Chieut => Ok(Jongseong::Chieut),
            Choseong::Kieuk => Ok(Jongseong::Kieuk),
            Choseong::Tieut => Ok(Jongseong::Tieut),
            Choseong::Pieup => Ok(Jongseong::Pieup),
            Choseong::Hieuh => Ok(Jongseong::Hieuh),
            _ => Err(()),
        }
    }
}


proof fn lemma_compose_arith(cho: int, jung: int, jong: int)
    requires
        0 <= cho < 19,
        0 <= jung < 21,
        0 <= jong < 28,
    ensures
        0 <= cho * 588 + jung * 28 + jong < 11172,
        (cho * 588 + jung * 28 + jong) / 588 == cho,
        (cho * 588 + jung * 28 + jong) % 588 / 28 == jung,
        (cho * 588 + jung * 28 + jong) % 28 == jong,
{
    let index = cho * 588 + jung * 28 + jong;
    assert(0 <= jung * 28 + jong < 588) by (nonlinear_arith)
        requires 0 <= jung < 21, 0 <= jong < 28;
    assert(0 <= index < 11172) by (nonlinear_arith)
        requires 0 <= cho < 19, 0 <= jung * 28 + jong < 588, index == cho * 588 + jung * 28 + jong;
    vstd::arithmetic::div_mod::lemma_fundamental_div_mod_converse(index, 588, cho, jung * 28 + jong);
    vstd::arithmetic::div_mod::lemma_fundamental_div_mod_converse(jung * 28 + jong, 28, jung, jong);
    assert(index % 28 == jong) by (nonlinear_arith)
        requires index == cho * 588 + jung * 28 + jong, 0 <= jong < 28, 0 <= cho, 0 <= jung;
}

/// Every triple of jamo is written by exactly one precomposed syllable: its code point lies in
/// `HANGUL_START..=HANGUL_LAST_SYLLABLE`, and decoding that code point gives the triple back.
pub proof fn lemma_syllable_code_roundtrip(s: Syllable)
    ensures
        HANGUL_START <= s.code() <= HANGUL_LAST_SYLLABLE,
        decode_syllable(s.code() as char) == Ok::<Syllable, ()>(s),
{
    let (cho, jung, jong) = (s.0.index() as int, s.1.index() as int, s.2.index() as int);
    assert(cho < 19 && jung < 21 && jong < 28);
    lemma_compose_arith(cho, jung, jong);
    let c = s.code() as char;
    assert(c as u32 == s.code());
    assert(Choseong::try_from_spec(cho as u32) == Ok::<Choseong, ()>(s.0));
    assert(Jungseong::try_from_spec(jung as u32) == Ok::<Jungseong, ()>(s.1));
    assert(Jongseong::try_from_spec(jong as u32) == Ok::<Jongseong, ()>(s.2));
}

/// The initial and final consonants that are written with the same letter correspond one to
/// one: turning a final consonant into an initial one and back gives the final consonant again,
/// and the other way round.
pub proof fn lemma_jamo_position_roundtrip(c: Choseong, j: Jongseong)
    ensures
        <Choseong as TryFromSpec<Jongseong>>::try_from_spec(j) matches Ok(c2)
            ==> <Jongseong as TryFromSpec<Choseong>>::try_from_spec(c2) == Ok::<Jongseong, ()>(j),
        <Jongseong as TryFromSpec<Choseong>>::try_from_spec(c) matches Ok(j2)
            ==> <Choseong as TryFromSpec<Jongseong>>::try_from_spec(j2) == Ok::<Choseong, ()>(c),
{
}

} // verus!
