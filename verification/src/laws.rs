//! Properties of romanization: what the letter tables hold, how the romanization of a text is
//! made of the romanizations of its parts, and the transcription rules for consonants that meet
//! across a syllable boundary.
use crate::hangul::{decode_syllable, is_syllable_char, Choseong, Jongseong, Jungseong, Syllable};
use crate::romanizer::{
    before_nieun, choseong_letters, jongseong_letters, coda_in_context, coda_letters, coda_of, compound_split,
    is_y_vowel, jungseong_letters, junction, nasal_letters, onset_in_context, romanize_range,
    mixed_char_of, romanized_at, syllable_at, Coda, MixedChar,
};
use crate::{holds_korean, mixed_chars, romanized_text};
use vstd::prelude::*;
use vstd::std_specs::convert::TryFromSpec;

verus! {

/// Every character of `s` is a lowercase latin letter.
pub open spec fn is_latin_lower(s: Seq<char>) -> bool {
    forall|i: int| 0 <= i < s.len() ==> 'a' <= #[trigger] s[i] <= 'z'
}

proof fn lemma_latin_concat(a: Seq<char>, b: Seq<char>)
    requires
        is_latin_lower(a),
        is_latin_lower(b),
    ensures
        is_latin_lower(a + b),
{
    assert forall|i: int| 0 <= i < (a + b).len() implies 'a' <= #[trigger] (a + b)[i] <= 'z' by {
        if i >= a.len() {
            assert((a + b)[i] == b[i - a.len()]);
        }
    }
}

proof fn lemma_choseong_letters_latin(c: Choseong)
    ensures
        is_latin_lower(choseong_letters(c)),
{
    match c {
        Choseong::Giyeok => {
            reveal_strlit("g");
        },
        Choseong::SsangGiyeok => {
            reveal_strlit("kk");
        },
        Choseong::Nieun => {
            reveal_strlit("n");
        },
        Choseong::Digeut => {
            reveal_strlit("d");
        },
        Choseong::SsangDigeut => {
            reveal_strlit("tt");
        },
        Choseong::Rieul => {
            reveal_strlit("r");
        },
        Choseong::Mieum => {
            reveal_strlit("m");
        },
        Choseong::Bieup => {
            reveal_strlit("b");
        },
        Choseong::SsangBieup => {
            reveal_strlit("pp");
        },
        Choseong::Siot => {
            reveal_strlit("s");
        },
        Choseong::SsangSiot => {
            reveal_strlit("ss");
        },
        Choseong::Ieung => {
            reveal_strlit("");
        },
        Choseong::Jieut => {
            reveal_strlit("j");
        },
        Choseong::SsangJieut => {
            reveal_strlit("jj");
        },
        Choseong::Chieut => {
            reveal_strlit("ch");
        },
        Choseong::Kieuk => {
            reveal_strlit("k");
        },
        Choseong::Tieut => {
            reveal_strlit("t");
        },
        Choseong::Pieup => {
            reveal_strlit("p");
        },
        Choseong::Hieuh => {
            reveal_strlit("h");
        },
    }
}

proof fn lemma_jungseong_letters_latin(v: Jungseong)
    ensures
        is_latin_lower(jungseong_letters(v)),
{
    match v {
        Jungseong::A => {
            reveal_strlit("a");
        },
        Jungseong::AE => {
            reveal_strlit("ae");
        },
        Jungseong::YA => {
            reveal_strlit("ya");
        },
        Jungseong::YAE => {
            reveal_strlit("yae");
        },
        Jungseong::EO => {
            reveal_strlit("eo");
        },
        Jungseong::E => {
            reveal_strlit("e");
        },
        Jungseong::YEO => {
            reveal_strlit("yeo");
        },
        Jungseong::YE => {
            reveal_strlit("ye");
        },
        Jungseong::O => {
            reveal_strlit("o");
        },
        Jungseong::WA => {
            reveal_strlit("wa");
        },
        Jungseong::WAE => {
            reveal_strlit("wae");
        },
        Jungseong::OE => {
            reveal_strlit("oe");
        },
        Jungseong::YO => {
            reveal_strlit("yo");
        },
        Jungseong::U => {
            reveal_strlit("u");
        },
        Jungseong::WEO => {
            reveal_strlit("wo");
        },
        Jungseong::WE => {
            reveal_strlit("we");
        },
        Jungseong::WI => {
            reveal_strlit("wi");
        },
        Jungseong::YU => {
            reveal_strlit("yu");
        },
        Jungseong::EU => {
            reveal_strlit("eu");
        },
        Jungseong::YI => {
            reveal_strlit("ui");
        },
        Jungseong::I => {
            reveal_strlit("i");
        },
    }
}

proof fn lemma_coda_letters_latin(k: Coda)
    ensures
        is_latin_lower(coda_letters(k)),
{
    match k {
        Coda::Silent => {
            reveal_strlit("");
        },
        Coda::K => {
            reveal_strlit("k");
        },
        Coda::N => {
            reveal_strlit("n");
        },
        Coda::T => {
            reveal_strlit("t");
        },
        Coda::L => {
            reveal_strlit("l");
        },
        Coda::M => {
            reveal_strlit("m");
        },
        Coda::P => {
            reveal_strlit("p");
        },
        Coda::Ng => {
            reveal_strlit("ng");
        },
        Coda::H => {
            reveal_strlit("h");
        },
    }
}

proof fn lemma_compound_split_latin(j: Jongseong)
    ensures
        is_latin_lower(compound_split(j).0),
        is_latin_lower(compound_split(j).1),
{
    match j {
        Jongseong::GiyeokSiot => {
            reveal_strlit("k");
            reveal_strlit("s");
        },
        Jongseong::NieunJieut => {
            reveal_strlit("n");
            reveal_strlit("j");
        },
        Jongseong::NieunHieuh => {
            reveal_strlit("");
            reveal_strlit("n");
        },
        Jongseong::RieulGiyeok => {
            reveal_strlit("l");
            reveal_strlit("g");
        },
        Jongseong::RieulMieum => {
            reveal_strlit("l");
            reveal_strlit("m");
        },
        Jongseong::RieulBieup => {
            reveal_strlit("l");
            reveal_strlit("b");
        },
        Jongseong::RieulSiot => {
            reveal_strlit("l");
            reveal_strlit("s");
        },
        Jongseong::RieulTieut => {
            reveal_strlit("l");
            reveal_strlit("t");
        },
        Jongseong::RieulPieup => {
            reveal_strlit("l");
            reveal_strlit("p");
        },
        Jongseong::RieulHieuh => {
            reveal_strlit("");
            reveal_strlit("r");
        },
        Jongseong::BieupSiot => {
            reveal_strlit("p");
            reveal_strlit("s");
        },
        _ => {
            reveal_strlit("");
        },
    }
}

proof fn lemma_nasal_letters_latin(k: Coda)
    ensures
        is_latin_lower(nasal_letters(k)),
{
    lemma_coda_letters_latin(k);
    reveal_strlit("ng");
    reveal_strlit("n");
    reveal_strlit("m");
}

proof fn lemma_junction_latin(f: Jongseong, i: Choseong, v: Jungseong)
    ensures
        is_latin_lower(junction(f, i, v).0),
        is_latin_lower(junction(f, i, v).1),
{
    reveal(junction);
    let k = coda_of(f);
    lemma_coda_letters_latin(k);
    lemma_nasal_letters_latin(k);
    lemma_choseong_letters_latin(i);
    lemma_compound_split_latin(f);
    if let Ok(c) = <Choseong as TryFromSpec<Jongseong>>::try_from_spec(f) {
        lemma_choseong_letters_latin(c);
    }
    reveal_strlit("");
    reveal_strlit("l");
    reveal_strlit("n");
    reveal_strlit("m");
}

/// Every character that the romanization of position `i` of `v` gives is a lowercase latin
/// letter, or the character at that position where it is not a syllable.
proof fn lemma_romanized_at_latin(v: Seq<MixedChar>, i: int)
    requires
        0 <= i < v.len(),
    ensures
        v[i] matches MixedChar::Syllable(_) ==> is_latin_lower(romanized_at(v, i)),
        v[i] matches MixedChar::Character(c) ==> romanized_at(v, i) == seq![c],
{
    if let MixedChar::Syllable(s) = v[i] {
        lemma_choseong_letters_latin(s.0);
        lemma_jungseong_letters_latin(s.1);
        lemma_coda_letters_latin(coda_of(s.2));
        if let Some(p) = syllable_at(v, i - 1) {
            lemma_junction_latin(p.2, s.0, s.1);
        }
        if let Some(n) = syllable_at(v, i + 1) {
            lemma_junction_latin(s.2, n.0, n.1);
        }
        lemma_latin_concat(onset_in_context(syllable_at(v, i - 1), s), jungseong_letters(s.1));
        lemma_latin_concat(
            onset_in_context(syllable_at(v, i - 1), s) + jungseong_letters(s.1),
            coda_in_context(s, syllable_at(v, i + 1)),
        );
    }
}

/// The romanization of positions `lo..hi` is that of `lo..mid` followed by that of `mid..hi`.
proof fn lemma_range_split(v: Seq<MixedChar>, lo: int, mid: int, hi: int)
    requires
        lo <= mid <= hi,
    ensures
        romanize_range(v, lo, hi) == romanize_range(v, lo, mid) + romanize_range(v, mid, hi),
    decreases hi - mid,
{
    if hi == mid {
        assert(romanize_range(v, mid, hi) == Seq::<char>::empty());
        assert(romanize_range(v, lo, mid) + Seq::<char>::empty() == romanize_range(v, lo, mid));
    } else {
        lemma_range_split(v, lo, mid, hi - 1);
        assert(romanize_range(v, lo, hi) == romanize_range(v, lo, hi - 1) + romanized_at(v, hi - 1));
        assert(romanize_range(v, mid, hi) == romanize_range(v, mid, hi - 1) + romanized_at(v, hi - 1));
    }
}

/// The romanization of position `lo + k` of `v`.
pub open spec fn romanized_at_offset(v: Seq<MixedChar>, lo: int, k: int) -> Seq<char> {
    romanized_at(v, lo + k)
}

/// Two stretches whose positions romanize alike, one by one, romanize alike.
proof fn lemma_range_congruent(v: Seq<MixedChar>, lo: int, w: Seq<MixedChar>, off: int, len: int)
    requires
        0 <= len,
        forall|k: int| 0 <= k < len ==> #[trigger] romanized_at_offset(v, lo, k) == romanized_at_offset(w, off, k),
    ensures
        romanize_range(v, lo, lo + len) == romanize_range(w, off, off + len),
    decreases len,
{
    if len > 0 {
        lemma_range_congruent(v, lo, w, off, len - 1);
        assert(romanized_at_offset(v, lo, len - 1) == romanized_at_offset(w, off, len - 1));
    }
}

/// `ㄱ`, `ㄷ` and `ㅂ` as final consonants are written `g`, `d` and `b` before a vowel (they move
/// to the next syllable); `k`, `t` and `p` before another consonant that leaves them unchanged
/// (any but `ㅇ`, `ㄴ`, `ㅁ` and `ㄹ`) and as the last sound of a word.
pub proof fn lemma_plosive_finals(f: Jongseong, i: Choseong, v: Jungseong)
    requires
        f is Giyeok || f is Digeut || f is Bieup,
    ensures
        i is Ieung && !is_y_vowel(v) ==> junction(f, i, v) == (""@, if f is Giyeok {
            "g"@
        } else if f is Digeut {
            "d"@
        } else {
            "b"@
        }),
        !(i is Ieung || i is Nieun || i is Mieum || i is Rieul) ==> junction(f, i, v).0 == (
        if f is Giyeok {
            "k"@
        } else if f is Digeut {
            "t"@
        } else {
            "p"@
        }),
        coda_letters(coda_of(f)) == (if f is Giyeok {
            "k"@
        } else if f is Digeut {
            "t"@
        } else {
            "p"@
        }),
{
    reveal(junction);
}

/// `ㄹ` is written `r` before a vowel and `l` before a consonant or at the end of a word, and
/// `ㄹㄹ` is written `ll`.
pub proof fn lemma_rieul(i: Choseong, v: Jungseong)
    ensures
        !is_y_vowel(v) ==> junction(Jongseong::Rieul, Choseong::Ieung, v) == (""@, "r"@),
        junction(Jongseong::Empty, Choseong::Rieul, v) == (""@, "r"@),
        !(i is Ieung) ==> junction(Jongseong::Rieul, i, v).0 == "l"@,
        junction(Jongseong::Rieul, Choseong::Rieul, v) == ("l"@, "l"@),
        coda_letters(coda_of(Jongseong::Rieul)) == "l"@,
{
    reveal(junction);
}

/// Before `ㄴ`, `ㅁ` and `ㄹ` a final consonant is made nasal (`ㄱ`, `ㄷ`, `ㅂ` sound as
/// `ng`, `n`, `m`), an `ㄹ` after any final but `ㄴ` and `ㄹ` sounds as `n`, and `ㄴ` next to `ㄹ`
/// sounds as `ㄹ` (`ll`).
pub proof fn lemma_nasal_assimilation(f: Jongseong, i: Choseong, v: Jungseong)
    requires
        i is Nieun || i is Mieum || i is Rieul,
        !(coda_of(f) is Silent),
    ensures
        (coda_of(f) is L && (i is Nieun || i is Rieul)) || (coda_of(f) is N && i is Rieul)
            ==> junction(f, i, v) == ("l"@, "l"@),
        !((coda_of(f) is L && (i is Nieun || i is Rieul)) || (coda_of(f) is N && i is Rieul))
            ==> junction(f, i, v) == (nasal_letters(coda_of(f)), if i is Mieum {
            "m"@
        } else {
            "n"@
        }),
{
    reveal(junction);
}

/// Between a final consonant (other than `ㅇ` and `ㅎ`) and a vowel that begins with a `y`
/// glide, a `ㄴ` sound is inserted: it is written `n`, or `l` after an `ㄹ`, and it makes the
/// final consonant nasal.
pub proof fn lemma_epenthetic_nieun(f: Jongseong, v: Jungseong)
    requires
        is_y_vowel(v),
        !(coda_of(f) is Silent || coda_of(f) is Ng || coda_of(f) is H),
    ensures
        junction(f, Choseong::Ieung, v) == before_nieun(coda_of(f)),
        junction(f, Choseong::Ieung, v).1 == (if coda_of(f) is L {
            "l"@
        } else {
            "n"@
        }),
{
    reveal(junction);
}

/// Every character of `out` is a lowercase latin letter or a character of `s` that is not a
/// Hangul syllable.
pub open spec fn latin_or_kept(out: Seq<char>, s: Seq<char>) -> bool {
    forall|i: int|
        0 <= i < out.len() ==> ('a' <= #[trigger] out[i] <= 'z' || (decode_syllable(out[i]) is Err
            && s.contains(out[i])))
}

proof fn lemma_latin_or_kept_prefix(s: Seq<char>, n: int)
    requires
        0 <= n <= s.len(),
    ensures
        latin_or_kept(romanize_range(mixed_chars(s), 0, n), s),
    decreases n,
{
    let v = mixed_chars(s);
    if n > 0 {
        lemma_latin_or_kept_prefix(s, n - 1);
        lemma_romanized_at_latin(v, n - 1);
        let prev = romanize_range(v, 0, n - 1);
        let last = romanized_at(v, n - 1);
        assert(romanize_range(v, 0, n) == prev + last);
        assert forall|i: int| 0 <= i < (prev + last).len() implies ('a' <= #[trigger] (prev
            + last)[i] <= 'z' || (decode_syllable((prev + last)[i]) is Err && s.contains(
            (prev + last)[i],
        ))) by {
            if i >= prev.len() {
                assert((prev + last)[i] == last[i - prev.len()]);
                if let MixedChar::Character(c) = v[n - 1] {
                    assert(v[n - 1] == mixed_char_of(s[n - 1]));
                    assert(c == s[n - 1]);
                    assert(s.contains(c));
                }
            } else {
                assert((prev + last)[i] == prev[i]);
            }
        }
    }
}

/// Romanization writes Hangul in the latin alphabet: every character of the romanization of a
/// text is a lowercase latin letter, or a character of the text that is not a Hangul syllable,
/// so no Hangul syllable is left in it.
pub proof fn lemma_romanized_text_latin(s: Seq<char>)
    ensures
        latin_or_kept(romanized_text(s), s),
{
    lemma_latin_or_kept_prefix(s, s.len() as int);
}

proof fn lemma_identity_prefix(s: Seq<char>, n: int)
    requires
        0 <= n <= s.len(),
        forall|i: int| 0 <= i < s.len() ==> decode_syllable(#[trigger] s[i]) is Err,
    ensures
        romanize_range(mixed_chars(s), 0, n) == s.take(n),
    decreases n,
{
    if n > 0 {
        lemma_identity_prefix(s, n - 1);
        assert(decode_syllable(s[n - 1]) is Err);
        assert(s.take(n) == s.take(n - 1).push(s[n - 1]));
    }
}

/// A text without Hangul syllables romanizes to itself.
pub proof fn lemma_romanized_text_keeps_other_text(s: Seq<char>)
    requires
        forall|i: int| 0 <= i < s.len() ==> decode_syllable(#[trigger] s[i]) is Err,
    ensures
        romanized_text(s) == s,
{
    lemma_identity_prefix(s, s.len() as int);
    assert(s.take(s.len() as int) == s);
}

/// Words are romanized one by one: a character that is not a Hangul syllable (such as a space)
/// separates the text into parts that are romanized independently, and is itself kept.
pub proof fn lemma_romanized_text_splits(a: Seq<char>, c: char, b: Seq<char>)
    requires
        decode_syllable(c) is Err,
    ensures
        romanized_text(a + seq![c] + b) == romanized_text(a) + seq![c] + romanized_text(b),
{
    let t = a + seq![c] + b;
    let v = mixed_chars(t);
    let va = mixed_chars(a);
    let vb = mixed_chars(b);
    let la = a.len() as int;
    let lb = b.len() as int;
    assert(v.len() == la + 1 + lb);
    assert forall|k: int| 0 <= k < v.len() implies #[trigger] v[k] == (if k < la {
        va[k]
    } else if k == la {
        MixedChar::Character(c)
    } else {
        vb[k - la - 1]
    }) by {
        if k < la {
            assert(t[k] == a[k]);
        } else if k == la {
            assert(t[k] == c);
        } else {
            assert(t[k] == b[k - la - 1]);
        }
    }
    assert forall|k: int| 0 <= k < la implies #[trigger] romanized_at_offset(v, 0, k)
        == romanized_at_offset(va, 0, k) by {
        assert(v[k] == va[k]);
        if k > 0 {
            assert(v[k - 1] == va[k - 1]);
        }
        if k + 1 < la {
            assert(v[k + 1] == va[k + 1]);
        } else {
            assert(v[k + 1] == MixedChar::Character(c));
        }
    }
    assert forall|k: int| 0 <= k < lb implies #[trigger] romanized_at_offset(v, la + 1, k)
        == romanized_at_offset(vb, 0, k) by {
        assert(v[la + 1 + k] == vb[k]);
        if k > 0 {
            assert(v[la + k] == vb[k - 1]);
        } else {
            assert(v[la] == MixedChar::Character(c));
        }
        if k + 1 < lb {
            assert(v[la + 2 + k] == vb[k + 1]);
        }
    }
    lemma_range_congruent(v, 0, va, 0, la);
    lemma_range_congruent(v, la + 1, vb, 0, lb);
    lemma_range_split(v, 0, la, v.len() as int);
    lemma_range_split(v, la, la + 1, v.len() as int);
    assert(romanize_range(v, la, la + 1) == seq![c]) by {
        assert(romanize_range(v, la, la) == Seq::<char>::empty());
        assert(romanized_at(v, la) == seq![c]);
    }
}

/// A text in which `has_korean` finds no Korean is left unchanged by `convert`.
pub proof fn lemma_text_without_korean_unchanged(s: Seq<char>)
    requires
        !holds_korean(s),
    ensures
        romanized_text(s) == s,
{
    assert forall|i: int| 0 <= i < s.len() implies decode_syllable(#[trigger] s[i]) is Err by {
        assert(!is_syllable_char(s[i]));
    }
    lemma_romanized_text_keeps_other_text(s);
}

/// The letters of each vowel, one character at a time.
spec fn vowel_spelling(v: Jungseong) -> Seq<char> {
    match v {
        Jungseong::A => seq!['a'],
        Jungseong::AE => seq!['a', 'e'],
        Jungseong::YA => seq!['y', 'a'],
        Jungseong::YAE => seq!['y', 'a', 'e'],
        Jungseong::EO => seq!['e', 'o'],
        Jungseong::E => seq!['e'],
        Jungseong::YEO => seq!['y', 'e', 'o'],
        Jungseong::YE => seq!['y', 'e'],
        Jungseong::O => seq!['o'],
        Jungseong::WA => seq!['w', 'a'],
        Jungseong::WAE => seq!['w', 'a', 'e'],
        Jungseong::OE => seq!['o', 'e'],
        Jungseong::YO => seq!['y', 'o'],
        Jungseong::U => seq!['u'],
        Jungseong::WEO => seq!['w', 'o'],
        Jungseong::WE => seq!['w', 'e'],
        Jungseong::WI => seq!['w', 'i'],
        Jungseong::YU => seq!['y', 'u'],
        Jungseong::EU => seq!['e', 'u'],
        Jungseong::YI => seq!['u', 'i'],
        Jungseong::I => seq!['i'],
    }
}

proof fn lemma_vowel_letters_spelled(v: Jungseong)
    ensures
        jungseong_letters(v) == vowel_spelling(v),
{
    match v {
        Jungseong::A => {
            reveal_strlit("a");
            assert(jungseong_letters(v) =~= seq!['a']);
        },
        Jungseong::AE => {
            reveal_strlit("ae");
            assert(jungseong_letters(v) =~= seq!['a', 'e']);
        },
        Jungseong::YA => {
            reveal_strlit("ya");
            assert(jungseong_letters(v) =~= seq!['y', 'a']);
        },
        Jungseong::YAE => {
            reveal_strlit("yae");
            assert(jungseong_letters(v) =~= seq!['y', 'a', 'e']);
        },
        Jungseong::EO => {
            reveal_strlit("eo");
            assert(jungseong_letters(v) =~= seq!['e', 'o']);
        },
        Jungseong::E => {
            reveal_strlit("e");
            assert(jungseong_letters(v) =~= seq!['e']);
        },
        Jungseong::YEO => {
            reveal_strlit("yeo");
            assert(jungseong_letters(v) =~= seq!['y', 'e', 'o']);
        },
        Jungseong::YE => {
            reveal_strlit("ye");
            assert(jungseong_letters(v) =~= seq!['y', 'e']);
        },
        Jungseong::O => {
            reveal_strlit("o");
            assert(jungseong_letters(v) =~= seq!['o']);
        },
        Jungseong::WA => {
            reveal_strlit("wa");
            assert(jungseong_letters(v) =~= seq!['w', 'a']);
        },
        Jungseong::WAE => {
            reveal_strlit("wae");
            assert(jungseong_letters(v) =~= seq!['w', 'a', 'e']);
        },
        Jungseong::OE => {
            reveal_strlit("oe");
            assert(jungseong_letters(v) =~= seq!['o', 'e']);
        },
        Jungseong::YO => {
            reveal_strlit("yo");
            assert(jungseong_letters(v) =~= seq!['y', 'o']);
        },
        Jungseong::U => {
            reveal_strlit("u");
            assert(jungseong_letters(v) =~= seq!['u']);
        },
        Jungseong::WEO => {
            reveal_strlit("wo");
            assert(jungseong_letters(v) =~= seq!['w', 'o']);
        },
        Jungseong::WE => {
            reveal_strlit("we");
            assert(jungseong_letters(v) =~= seq!['w', 'e']);
        },
        Jungseong::WI => {
            reveal_strlit("wi");
            assert(jungseong_letters(v) =~= seq!['w', 'i']);
        },
        Jungseong::YU => {
            reveal_strlit("yu");
            assert(jungseong_letters(v) =~= seq!['y', 'u']);
        },
        Jungseong::EU => {
            reveal_strlit("eu");
            assert(jungseong_letters(v) =~= seq!['e', 'u']);
        },
        Jungseong::YI => {
            reveal_strlit("ui");
            assert(jungseong_letters(v) =~= seq!['u', 'i']);
        },
        Jungseong::I => {
            reveal_strlit("i");
            assert(jungseong_letters(v) =~= seq!['i']);
        },
    }
}

/// Distinct vowels are written differently, so a vowel can be read back from its letters.
pub proof fn lemma_vowel_letters_distinct(v1: Jungseong, v2: Jungseong)
    ensures
        v1 != v2 ==> jungseong_letters(v1) != jungseong_letters(v2),
{
    lemma_vowel_letters_spelled(v1);
    lemma_vowel_letters_spelled(v2);
    if v1 != v2 && vowel_spelling(v1) == vowel_spelling(v2) {
        let a = vowel_spelling(v1);
        let b = vowel_spelling(v2);
        assert(a.len() == b.len());
        assert(a[0] == b[0]);
        if a.len() > 1 {
            assert(a[1] == b[1]);
        }
        if a.len() > 2 {
            assert(a[2] == b[2]);
        }
        assert(false);
    }
}

/// The vowel that a `y` glide is put in front of: `ㅑ` is `y` + `ㅏ`, `ㅕ` is `y` + `ㅓ`, and so on.
pub open spec fn y_glide_base(v: Jungseong) -> Jungseong {
    match v {
        Jungseong::YA => Jungseong::A,
        Jungseong::YAE => Jungseong::AE,
        Jungseong::YEO => Jungseong::EO,
        Jungseong::YE => Jungseong::E,
        Jungseong::YO => Jungseong::O,
        Jungseong::YU => Jungseong::U,
        _ => v,
    }
}

/// Whether a vowel is a `w` glide in front of a simple vowel (`ㅘ`, `ㅙ`, `ㅞ`, `ㅟ`).
pub open spec fn is_w_vowel(v: Jungseong) -> bool {
    v is WA || v is WAE || v is WE || v is WI
}

/// The vowel that a `w` glide is put in front of: `ㅘ` is `w` + `ㅏ`, `ㅙ` is `w` + `ㅐ`,
/// `ㅞ` is `w` + `ㅔ`, `ㅟ` is `w` + `ㅣ`.
pub open spec fn w_glide_base(v: Jungseong) -> Jungseong {
    match v {
        Jungseong::WA => Jungseong::A,
        Jungseong::WAE => Jungseong::AE,
        Jungseong::WE => Jungseong::E,
        Jungseong::WI => Jungseong::I,
        _ => v,
    }
}

/// A vowel that begins with a glide is written as the glide's letter (`y` or `w`) followed by
/// the letters of the vowel the glide is put in front of, so `ㅠ` is `yu` since `ㅜ` is `u`.
pub proof fn lemma_glide_vowel_letters(v: Jungseong)
    ensures
        is_y_vowel(v) ==> jungseong_letters(v) == seq!['y'] + jungseong_letters(y_glide_base(v)),
        is_w_vowel(v) ==> jungseong_letters(v) == seq!['w'] + jungseong_letters(w_glide_base(v)),
{
    lemma_vowel_letters_spelled(v);
    lemma_vowel_letters_spelled(y_glide_base(v));
    lemma_vowel_letters_spelled(w_glide_base(v));
    assert(is_y_vowel(v) ==> vowel_spelling(v) =~= seq!['y'] + vowel_spelling(y_glide_base(v)));
    assert(is_w_vowel(v) ==> vowel_spelling(v) =~= seq!['w'] + vowel_spelling(w_glide_base(v)));
}

/// A final `ㅇ` is always written `ng`, whatever follows it: it never moves to the next
/// syllable and is never dropped, and the initial after it that is a silent `ㅇ` stays silent.
pub proof fn lemma_final_ieung_kept(i: Choseong, v: Jungseong, cur: Syllable, next: Option<Syllable>)
    ensures
        junction(Jongseong::Ieung, i, v).0 == "ng"@,
        junction(Jongseong::Ieung, Choseong::Ieung, v) == ("ng"@, ""@),
        cur.2 is Ieung ==> coda_in_context(cur, next) == "ng"@,
{
    reveal(junction);
    reveal_strlit("ng");
    reveal_strlit("");
}

/// A final consonant that is written on its own with the letters of the sound it makes keeps
/// those letters: no final, `ㄴ`, `ㄹ`, `ㅁ`, `ㅇ` and `ㅎ` are written `""`, `n`, `l`, `m`, `ng`
/// and `h`, alone and at the end of a word alike.
pub proof fn lemma_simple_final_letters(j: Jongseong)
    requires
        j is Empty || j is Nieun || j is Rieul || j is Mieum || j is Ieung || j is Hieuh,
    ensures
        jongseong_letters(j) == coda_letters(coda_of(j)),
{
}

/// Turning a final consonant into an initial one, or the other way round, keeps the consonant:
/// both are written with the same letters, except `ㄹ` (`l` as a final, `r` as an initial) and
/// `ㅇ` (`ng` as a final, silent as an initial).
pub proof fn lemma_position_change_keeps_consonant(c: Choseong, j: Jongseong)
    ensures
        <Choseong as TryFromSpec<Jongseong>>::try_from_spec(j) matches Ok(c2) ==> (
        if j is Rieul {
            jongseong_letters(j) == "l"@ && choseong_letters(c2) == "r"@
        } else if j is Ieung {
            jongseong_letters(j) == "ng"@ && choseong_letters(c2) == ""@
        } else {
            choseong_letters(c2) == jongseong_letters(j)
        }),
        <Jongseong as TryFromSpec<Choseong>>::try_from_spec(c) matches Ok(j2) ==> (
        if c is Rieul {
            jongseong_letters(j2) == "l"@ && choseong_letters(c) == "r"@
        } else if c is Ieung {
            jongseong_letters(j2) == "ng"@ && choseong_letters(c) == ""@
        } else {
            choseong_letters(c) == jongseong_letters(j2)
        }),
{
}

/// A text holds Korean exactly when one of its characters lies in the Hangul syllables block
/// `U+AC00..=U+D7AF`: characters outside it (latin letters, emoji, fullwidth forms) never count.
pub proof fn lemma_korean_means_hangul_block(s: Seq<char>)
    ensures
        holds_korean(s) <==> exists|i: int|
            0 <= i < s.len() && 0xAC00 <= (#[trigger] s[i]) as u32 <= 0xD7AF,
{
    if holds_korean(s) {
        let i = choose|i: int| 0 <= i < s.len() && is_syllable_char(#[trigger] s[i]);
        assert(0xAC00 <= s[i] as u32 <= 0xD7AF);
    }
    if exists|i: int| 0 <= i < s.len() && 0xAC00 <= (#[trigger] s[i]) as u32 <= 0xD7AF {
        let i = choose|i: int| 0 <= i < s.len() && 0xAC00 <= (#[trigger] s[i]) as u32 <= 0xD7AF;
        assert(is_syllable_char(s[i]));
    }
}

/// `has_korean` on a one-character text agrees with `Syllable::is_syllable`, and every character
/// that decodes into a syllable makes a text Korean.
pub proof fn lemma_korean_single_char(c: char, s: Seq<char>, i: int)
    ensures
        holds_korean(seq![c]) == is_syllable_char(c),
        0 <= i < s.len() && decode_syllable(s[i]) is Ok ==> holds_korean(s),
{
    if is_syllable_char(c) {
        assert(seq![c][0] == c);
    }
    if 0 <= i < s.len() && decode_syllable(s[i]) is Ok {
        assert(is_syllable_char(s[i]));
    }
}

/// The tense initial consonant that a doubled letter writes, with the consonant whose letter
/// is doubled: `ㄲ` is `kk`, `ㄸ` `tt`, `ㅃ` `pp`, `ㅆ` `ss`, `ㅉ` `jj`.
pub open spec fn tense_base(c: Choseong) -> Option<Choseong> {
    match c {
        Choseong::SsangGiyeok => Some(Choseong::Kieuk),
        Choseong::SsangDigeut => Some(Choseong::Tieut),
        Choseong::SsangBieup => Some(Choseong::Pieup),
        Choseong::SsangSiot => Some(Choseong::Siot),
        Choseong::SsangJieut => Some(Choseong::Jieut),
        _ => None,
    }
}

/// A tense initial consonant is written by doubling a single-letter consonant.
pub proof fn lemma_tense_initials_doubled(c: Choseong)
    ensures
        tense_base(c) matches Some(b) ==> (choseong_letters(b).len() == 1 && choseong_letters(c)
            == choseong_letters(b) + choseong_letters(b)),
{
    reveal_strlit("kk");
    reveal_strlit("tt");
    reveal_strlit("pp");
    reveal_strlit("ss");
    reveal_strlit("jj");
    reveal_strlit("k");
    reveal_strlit("t");
    reveal_strlit("p");
    reveal_strlit("s");
    reveal_strlit("j");
    if let Some(b) = tense_base(c) {
        assert(choseong_letters(c) =~= choseong_letters(b) + choseong_letters(b));
    }
}

} // verus!
