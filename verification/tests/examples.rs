use korean_romanize::{convert, has_korean};

/// Common sentences
#[test]
fn greetings() {
    assert_eq!(&convert("안녕"), "annyeong");
    assert_eq!(&convert("여보세요"), "yeoboseyo");
    assert_eq!(&convert("어떻게 지내세요"), "eotteohge jinaeseyo");
    assert_eq!(&convert("잘 지내요"), "jal jinaeyo");
    assert_eq!(&convert("오랜만이에요"), "oraenmanieyo");
    assert_eq!(&convert("안녕"), "annyeong");
    assert_eq!(&convert("안녕히 가세요"), "annyeonghi gaseyo");
    assert_eq!(&convert("안녕히 계세요"), "annyeonghi gyeseyo");
    assert_eq!(&convert("잘 가요"), "jal gayo");
}

#[test]
fn test_is_korean() {
    assert!(has_korean("안녕"));
    assert!(has_korean("안녕 Hello"));
    assert!(!has_korean("Hello"));
}

/// The sounds ㄱ, ㄷ, and ㅂ are transcribed respectively
/// as g, d, and b before a vowel; they are transcribed as
/// k, t, and p when they appear before another consonant
/// or as the last sound of a word.
#[test]
fn simple_1() {
    assert_eq!(&convert("구미"), "gumi");
    assert_eq!(&convert("영동"), "yeongdong");
    assert_eq!(&convert("백암"), "baegam");
    assert_eq!(&convert("옥천"), "okcheon");
    assert_eq!(&convert("합덕"), "hapdeok");
    assert_eq!(&convert("호법"), "hobeop");
    assert_eq!(&convert("월곶"), "wolgot");
    assert_eq!(&convert("벚꽃"), "beotkkot");
    assert_eq!(&convert("한밭"), "hanbat");
}

/// ㄹ is transcribed as r before a vowel,
/// and as l before a consonant or at the end of a word:
/// ㄹㄹ is transcribed as ll.
#[test]
fn simple_2() {
    assert_eq!(&convert("구리"), "guri");
    assert_eq!(&convert("설악"), "seorak");
    assert_eq!(&convert("칠곡"), "chilgok");
    assert_eq!(&convert("임실"), "imsil");
    assert_eq!(&convert("울릉"), "ulleung");
    assert_eq!(&convert("대관령"), "daegwallyeong");
}

/// When Korean sound values change as in the following cases,
/// the results of those changes are transcribed as follows
#[test]
fn assimilation() {
    assert_eq!(&convert("백마"), "baengma");
    assert_eq!(&convert("종로"), "jongno");
    assert_eq!(&convert("왕십리"), "wangsimni");
    assert_eq!(&convert("별내"), "byeollae");
}

/// The case of the epenthetic ㄴ and ㄹ
#[test]
fn epenthetic() {
    assert_eq!(&convert("학여울"), "hangnyeoul");
    assert_eq!(&convert("알약"), "allyak");
}
