use korean_romanize::hangul::{HANGUL_END, HANGUL_LAST_SYLLABLE, HANGUL_START};
use korean_romanize::{convert, has_korean, Choseong, Jongseong, Jungseong, MixedChar, Romanizable, Syllable};

#[test]
fn jamo_from_index() {
    assert_eq!(Choseong::try_from(0u32), Ok(Choseong::Giyeok));
    assert_eq!(Choseong::try_from(11u32), Ok(Choseong::Ieung));
    assert_eq!(Choseong::try_from(18u32), Ok(Choseong::Hieuh));
    assert_eq!(Choseong::try_from(19u32), Err(()));
    assert_eq!(Jungseong::try_from(0u32), Ok(Jungseong::A));
    assert_eq!(Jungseong::try_from(20u32), Ok(Jungseong::I));
    assert_eq!(Jungseong::try_from(21u32), Err(()));
    assert_eq!(Jongseong::try_from(0u32), Ok(Jongseong::Empty));
    assert_eq!(Jongseong::try_from(27u32), Ok(Jongseong::Hieuh));
    assert_eq!(Jongseong::try_from(28u32), Err(()));
    assert_eq!(Jongseong::try_from(u32::MAX), Err(()));
}

#[test]
fn jamo_between_positions() {
    assert_eq!(Choseong::try_from(Jongseong::Rieul), Ok(Choseong::Rieul));
    assert_eq!(Choseong::try_from(Jongseong::Empty), Err(()));
    assert_eq!(Choseong::try_from(Jongseong::GiyeokSiot), Err(()));
    assert_eq!(Jongseong::try_from(Choseong::Ieung), Ok(Jongseong::Ieung));
    assert_eq!(Jongseong::try_from(Choseong::SsangDigeut), Err(()));
    assert_eq!(Jongseong::try_from(Choseong::SsangJieut), Err(()));
    // There and back again gives the same jamo.
    let c = Choseong::try_from(Jongseong::Chieut).unwrap();
    assert_eq!(Jongseong::try_from(c), Ok(Jongseong::Chieut));
}

#[test]
fn syllable_bounds() {
    assert!(Syllable::is_syllable('\u{AC00}'));
    assert!(Syllable::is_syllable('\u{D7AF}'));
    assert!(!Syllable::is_syllable('\u{ABFF}'));
    assert!(!Syllable::is_syllable('\u{D7B0}'));
    assert!(!Syllable::is_syllable('a'));
    assert_eq!(HANGUL_START, 0xAC00);
    assert_eq!(HANGUL_END, 0xD7AF);
    assert_eq!(HANGUL_LAST_SYLLABLE, 0xD7A3);
}

#[test]
fn syllable_decomposition() {
    assert_eq!(
        Syllable::try_from('안'),
        Ok(Syllable(Choseong::Ieung, Jungseong::A, Jongseong::Nieun))
    );
    assert_eq!(
        Syllable::try_from('가'),
        Ok(Syllable(Choseong::Giyeok, Jungseong::A, Jongseong::Empty))
    );
    assert_eq!(
        Syllable::try_from('힣'),
        Ok(Syllable(Choseong::Hieuh, Jungseong::I, Jongseong::Hieuh))
    );
    // In the block, but past the last precomposed syllable.
    assert_eq!(Syllable::try_from('\u{D7A4}'), Err(()));
    assert_eq!(Syllable::try_from('\u{D7AF}'), Err(()));
    assert_eq!(Syllable::try_from('a'), Err(()));
}

#[test]
fn syllable_code_roundtrip() {
    // Composing the jamo indices gives the code point back.
    for code in 0xAC00u32..=0xD7A3 {
        let c = char::from_u32(code).unwrap();
        let Syllable(a, b, f) = Syllable::try_from(c).unwrap();
        let (ia, ib, jf) = (a as u32, b as u32, f as u32);
        assert_eq!(HANGUL_START + ia * 588 + ib * 28 + jf, code);
    }
}

#[test]
fn mixed_char_from() {
    assert_eq!(MixedChar::from('a'), MixedChar::Character('a'));
    assert_eq!(MixedChar::from('\u{D7A4}'), MixedChar::Character('\u{D7A4}'));
    assert_eq!(
        MixedChar::from('한'),
        MixedChar::Syllable(Syllable(Choseong::Hieuh, Jungseong::A, Jongseong::Nieun))
    );
}

#[test]
fn jamo_tables() {
    assert_eq!(Choseong::Ieung.romanize(), "");
    assert_eq!(Choseong::SsangGiyeok.romanize(), "kk");
    assert_eq!(Choseong::Kieuk.romanize(), "k");
    assert_eq!(Choseong::Rieul.romanize(), "r");
    assert_eq!(Jungseong::YI.romanize(), "ui");
    assert_eq!(Jungseong::WEO.romanize(), "wo");
    assert_eq!(Jongseong::Empty.romanize(), "");
    assert_eq!(Jongseong::Ieung.romanize(), "ng");
    assert_eq!(Jongseong::RieulHieuh.romanize(), "lh");
    assert_eq!(Jongseong::Rieul.romanize(), "l");
}

#[test]
fn standalone_romanize() {
    assert_eq!(Syllable(Choseong::Hieuh, Jungseong::A, Jongseong::Nieun).romanize(), "han");
    assert_eq!(Syllable(Choseong::Giyeok, Jungseong::A, Jongseong::Giyeok).romanize(), "gag");
    assert_eq!('z'.romanize(), "z");
    assert_eq!('é'.romanize(), "é");
    assert_eq!(MixedChar::Character('x').romanize(), "x");
    assert_eq!(MixedChar::from('벚').romanize(), "beoj");
    let text: Vec<MixedChar> = "백마!".chars().map(MixedChar::from).collect();
    assert_eq!(text.romanize(), "baengma!");
    let empty: Vec<MixedChar> = Vec::new();
    assert_eq!(empty.romanize(), "");
}

#[test]
fn empty_and_other_text() {
    assert_eq!(convert(""), "");
    assert!(!has_korean(""));
    assert_eq!(convert("Hello, world!"), "Hello, world!");
    assert_eq!(convert("abc"), "abc");
    assert_eq!(convert("é ü"), "é ü");
    // Past the last syllable: counts as Korean, but is kept as it is.
    assert!(has_korean("\u{D7A4}"));
    assert_eq!(convert("\u{D7A4}"), "\u{D7A4}");
}

#[test]
fn words_romanize_independently() {
    let whole = convert("학여울 알약");
    let parts = convert("학여울") + " " + &convert("알약");
    assert_eq!(whole, parts);
    assert_eq!(convert("백.마"), "baek.ma");
    assert_eq!(convert("백마"), "baengma");
}

#[test]
fn output_is_latin() {
    let input = "대관령 abc 왕십리!";
    let out = convert(input);
    assert_eq!(out, "daegwallyeong abc wangsimni!");
    for c in out.chars() {
        assert!(c.is_ascii_lowercase() || (input.contains(c) && Syllable::try_from(c).is_err()));
    }
}

#[test]
fn plosive_finals() {
    assert_eq!(convert("각"), "gak");
    assert_eq!(convert("각이"), "gagi");
    assert_eq!(convert("닫아"), "dada");
    assert_eq!(convert("밥"), "bap");
    assert_eq!(convert("밥도"), "bapdo");
}

#[test]
fn rieul_rules() {
    assert_eq!(convert("라"), "ra");
    assert_eq!(convert("말이"), "mari");
    assert_eq!(convert("말"), "mal");
    assert_eq!(convert("말고"), "malgo");
    assert_eq!(convert("빨래"), "ppallae");
}

#[test]
fn nasal_assimilation() {
    assert_eq!(convert("국민"), "gungmin");
    assert_eq!(convert("신라"), "silla");
    assert_eq!(convert("독립"), "dongnip");
    assert_eq!(convert("닫는"), "danneun");
    assert_eq!(convert("심리"), "simni");
}

#[test]
fn epenthetic_nieun() {
    assert_eq!(convert("색연필"), "saengnyeonpil");
    assert_eq!(convert("만이"), "mani");
}

#[test]
fn compound_finals() {
    assert_eq!(convert("읽어"), "ilgeo");
    assert_eq!(convert("많이"), "mani");
    assert_eq!(convert("닭"), "dak");
    assert_eq!(convert("없다"), "eopda");
    assert_eq!(convert("앉아"), "anja");
}

#[test]
fn hieuh_finals() {
    assert_eq!(convert("좋아"), "joa");
    assert_eq!(convert("좋은"), "joeun");
    assert_eq!(convert("좋고"), "johgo");
    assert_eq!(convert("좋"), "joh");
}
