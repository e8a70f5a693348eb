//! Cutting a text field into its whitespace-separated tokens.

use vstd::prelude::*;

verus! {

/// The characters that separate tokens: the code points with the Unicode
/// property `White_Space`.
pub open spec fn is_space(c: char) -> bool {
    ||| '\u{9}' <= c <= '\u{d}'
    ||| c == ' '
    ||| c == '\u{85}'
    ||| c == '\u{a0}'
    ||| c == '\u{1680}'
    ||| '\u{2000}' <= c <= '\u{200a}'
    ||| c == '\u{2028}'
    ||| c == '\u{2029}'
    ||| c == '\u{202f}'
    ||| c == '\u{205f}'
    ||| c == '\u{3000}'
}

/// The length of the longest prefix of `s` that holds no separator.
pub open spec fn word_len(s: Seq<char>) -> nat
    decreases s.len(),
{
    if s.len() == 0 || is_space(s[0]) {
        0
    } else {
        1 + word_len(s.drop_first())
    }
}

/// The tokens of `s`: its maximal runs of characters that are no separators,
/// from left to right.
pub open spec fn split_words(s: Seq<char>) -> Seq<Seq<char>>
    decreases s.len(),
{
    if s.len() == 0 {
        Seq::empty()
    } else if is_space(s[0]) {
        split_words(s.drop_first())
    } else {
        proof {
            lemma_word_len_bounds(s);
        }
        let n = word_len(s) as int;
        seq![s.take(n)] + split_words(s.skip(n))
    }
}

/// A word is no longer than the text it starts, and is not empty where the
/// text starts with a character that is no separator.
pub proof fn lemma_word_len_bounds(s: Seq<char>)
    ensures
        word_len(s) <= s.len(),
        s.len() > 0 && !is_space(s[0]) ==> word_len(s) >= 1,
    decreases s.len(),
{
    if s.len() > 0 && !is_space(s[0]) {
        lemma_word_len_bounds(s.drop_first());
    }
}

/// A run of `n` characters that are no separators, ended by a separator or by
/// the end of the text, is the first word.
pub proof fn lemma_word_len_of_run(s: Seq<char>, n: int)
    requires
        0 <= n <= s.len(),
        forall|k: int| 0 <= k < n ==> !is_space(#[trigger] s[k]),
        n == s.len() || is_space(s[n]),
    ensures
        word_len(s) == n,
    decreases n,
{
    if n > 0 {
        let rest = s.drop_first();
        assert forall|k: int| 0 <= k < n - 1 implies !is_space(#[trigger] rest[k]) by {
            assert(rest[k] == s[k + 1]);
        }
        lemma_word_len_of_run(rest, n - 1);
    }
}

/// Every token holds a character, and none holds a separator.
pub proof fn lemma_words_are_solid(s: Seq<char>)
    ensures
        forall|i: int|
            0 <= i < split_words(s).len() ==> (#[trigger] split_words(s)[i]).len() > 0,
        forall|i: int, j: int|
            0 <= i < split_words(s).len() && 0 <= j < split_words(s)[i].len() ==> !is_space(
                #[trigger] split_words(s)[i][j],
            ),
    decreases s.len(),
{
    if s.len() == 0 {
        assert(split_words(s).len() == 0);
    } else if is_space(s[0]) {
        lemma_words_are_solid(s.drop_first());
        assert(split_words(s) == split_words(s.drop_first()));
    } else {
        lemma_word_len_bounds(s);
        let n = word_len(s) as int;
        lemma_word_holds_no_space(s);
        let rest = split_words(s.skip(n));
        lemma_words_are_solid(s.skip(n));
        let all = split_words(s);
        assert(all == seq![s.take(n)] + rest);
        assert forall|i: int| 0 <= i < all.len() implies (#[trigger] all[i]).len() > 0 by {
            if i > 0 {
                assert(all[i] == rest[i - 1]);
            }
        }
        assert forall|i: int, j: int| 0 <= i < all.len() && 0 <= j < all[i].len() implies !is_space(
            #[trigger] all[i][j],
        ) by {
            if i > 0 {
                assert(all[i] == rest[i - 1]);
            } else {
                assert(all[0][j] == s[j]);
            }
        }
    }
}

/// The first word holds no separator.
pub proof fn lemma_word_holds_no_space(s: Seq<char>)
    ensures
        forall|k: int| 0 <= k < word_len(s) ==> !is_space(#[trigger] s[k]),
    decreases s.len(),
{
    if s.len() > 0 && !is_space(s[0]) {
        let rest = s.drop_first();
        lemma_word_holds_no_space(rest);
        lemma_word_len_bounds(rest);
        assert forall|k: int| 0 <= k < word_len(s) implies !is_space(#[trigger] s[k]) by {
            if k > 0 {
                assert(s[k] == rest[k - 1]);
            }
        }
    }
}

/// A text has no token exactly when each of its characters is a separator.
pub proof fn lemma_no_words_iff_blank(s: Seq<char>)
    ensures
        split_words(s).len() == 0 <==> (forall|k: int| 0 <= k < s.len() ==> is_space(#[trigger] s[k])),
    decreases s.len(),
{
    if s.len() > 0 && is_space(s[0]) {
        let rest = s.drop_first();
        lemma_no_words_iff_blank(rest);
        if split_words(s).len() == 0 {
            assert forall|k: int| 0 <= k < s.len() implies is_space(#[trigger] s[k]) by {
                if k > 0 {
                    assert(s[k] == rest[k - 1]);
                }
            }
        } else {
            let k = choose|k: int| 0 <= k < rest.len() && !is_space(#[trigger] rest[k]);
            assert(s[k + 1] == rest[k]);
        }
    } else if s.len() > 0 {
        lemma_word_len_bounds(s);
        assert(!is_space(s[0]));
    }
}

/// The test that a character is no separator.
pub open spec fn solid() -> spec_fn(char) -> bool {
    |c: char| !is_space(c)
}

/// The tokens of a text, put one behind the other, are the text without its
/// separators: cutting drops no other character, adds none and keeps the
/// order.
pub proof fn lemma_words_keep_text(s: Seq<char>)
    ensures
        split_words(s).flatten() == s.filter(solid()),
    decreases s.len(),
{
    if s.len() == 0 {
        reveal(Seq::filter);
    } else {
        let rest = s.drop_first();
        assert(s =~= seq![s[0]] + rest);
        rest.lemma_filter_prepend(s[0], solid());
        lemma_words_keep_text(rest);
        if !is_space(s[0]) {
            lemma_word_len_bounds(s);
            lemma_word_len_bounds(rest);
            let n = word_len(s) as int;
            let tail = split_words(s.skip(n));
            assert((seq![s.take(n)] + tail).drop_first() =~= tail);
            assert(split_words(s).flatten() == s.take(n) + tail.flatten());
            if rest.len() > 0 && !is_space(rest[0]) {
                assert(rest.skip(n - 1) =~= s.skip(n));
                assert((seq![rest.take(n - 1)] + tail).drop_first() =~= tail);
                assert(split_words(rest).flatten() == rest.take(n - 1) + tail.flatten());
                assert(s.take(n) =~= seq![s[0]] + rest.take(n - 1));
                assert(s.take(n) + tail.flatten() =~= seq![s[0]] + (rest.take(n - 1)
                    + tail.flatten()));
            } else {
                assert(s.skip(1) =~= rest);
                assert(s.take(1) =~= seq![s[0]]);
            }
        } else {
            assert(Seq::<char>::empty() + rest.filter(solid()) =~= rest.filter(solid()));
        }
    }
}

/// The views of the strings of `v`, in order.
pub open spec fn texts(v: Seq<String>) -> Seq<Seq<char>> {
    Seq::new(v.len(), |i: int| v[i]@)
}

/// Whether `c` separates tokens.
pub fn is_separator(c: char) -> (b: bool)
    ensures
        b == is_space(c),
{
    ('\u{9}' <= c && c <= '\u{d}') || c == ' ' || c == '\u{85}' || c == '\u{a0}' || c
        == '\u{1680}' || ('\u{2000}' <= c && c <= '\u{200a}') || c == '\u{2028}' || c
        == '\u{2029}' || c == '\u{202f}' || c == '\u{205f}' || c == '\u{3000}'
}

/// The characters of `s`, in order.
fn chars_of(s: &str) -> (v: Vec<char>)
    ensures
        v@ == s@,
{
    let mut v: Vec<char> = Vec::new();
    for c in it: s.chars()
        invariant
            it.seq() == s@,
            v@ == s@.take(it.index() as int),
    {
        v.push(c);
        assert(v@ =~= s@.take(it.index() + 1));
    }
    assert(v@ =~= s@);
    v
}

/// Cuts `field` at each run of separators and returns what stands between
/// them, from left to right; a run at either end yields no empty token.
pub fn split_whitespace(field: &str) -> (tokens: Vec<String>)
    ensures
        texts(tokens@) == split_words(field@),
{
    let chars = chars_of(field);
    let n = chars.len();
    let mut tokens: Vec<String> = Vec::new();
    let mut i: usize = 0;
    assert(field@.skip(0) =~= field@);
    assert(texts(tokens@) =~= Seq::<Seq<char>>::empty());
    while i < n
        invariant
            chars@ == field@,
            n == chars.len(),
            i <= n,
            split_words(field@) == texts(tokens@) + split_words(field@.skip(i as int)),
        decreases n - i,
    {
        let ghost rest = field@.skip(i as int);
        if is_separator(chars[i]) {
            assert(rest.drop_first() =~= field@.skip(i + 1));
            i += 1;
        } else {
            let start = i;
            while i < n && !is_separator(chars[i])
                invariant
                    chars@ == field@,
                    n == chars.len(),
                    start <= i <= n,
                    forall|k: int| start <= k < i ==> !is_space(#[trigger] field@[k]),
                decreases n - i,
            {
                i += 1;
            }
            let word = field.substring_char(start, i);
            let ghost before = texts(tokens@);
            tokens.push(String::from_str(word));
            proof {
                let len = i - start;
                assert forall|k: int| 0 <= k < len implies !is_space(#[trigger] rest[k]) by {
                    assert(rest[k] == field@[start + k]);
                }
                lemma_word_len_of_run(rest, len);
                assert(rest.take(len) =~= field@.subrange(start as int, i as int));
                assert(rest.skip(len) =~= field@.skip(i as int));
                assert(texts(tokens@) =~= before + seq![rest.take(len)]);
                assert(split_words(rest) == seq![rest.take(len)] + split_words(rest.skip(len)));
                assert(before + split_words(rest) =~= texts(tokens@) + split_words(
                    field@.skip(i as int),
                ));
            }
        }
    }
    assert(field@.skip(n as int) =~= Seq::<char>::empty());
    assert(texts(tokens@) + Seq::<Seq<char>>::empty() =~= texts(tokens@));
    tokens
}

} // verus!
