# korean_romanize

Romanizes Hangul (Korean script) into the latin alphabet, verified with Verus.

```rust
assert_eq!(&korean_romanize::convert("안녕히 가세요"), "annyeonghi gaseyo");
assert!(korean_romanize::has_korean("안녕 Hello"));
```

Layout:

- `src/hangul.rs`: the jamo (`Choseong`, `Jungseong`, `Jongseong`), the decomposition of a
  precomposed syllable into them, and the proof that this decomposition is one to one.
- `src/romanizer.rs`: letter tables, the romanization of single jamo and syllables, and the
  romanization of a whole text, where a final consonant and the next initial consonant are
  written according to the Revised Romanization rules (liaison, nasal assimilation, `ㄹ`
  assimilation, the epenthetic `ㄴ`).
- `src/laws.rs`: properties of the romanization (its output is latin except for the characters
  it keeps, text without Hangul is unchanged, words are romanized independently, and the
  consonant rules).
- `src/lib.rs`: `convert` and `has_korean`.
