//! Whitespace tokenization of one line of interactive input.
//!
//! A line is cut into words on blanks; the words are what the command
//! grammar is matched against.

use vstd::prelude::*;

verus! {

/// A blank character: the whitespace that a line of interactive input
/// can contain.
pub open spec fn is_blank(c: char) -> bool {
    c == ' ' || c == '\t' || c == '\r' || c == '\n'
}

/// Length of the longest prefix of `s` that contains no blank: the
/// extent of the word that starts at the front of `s`.
pub open spec fn word_len(s: Seq<char>) -> int
    decreases s.len(),
{
    if s.len() == 0 || is_blank(s[0]) {
        0
    } else {
        1 + word_len(s.skip(1))
    }
}

pub proof fn lemma_word_len_bounds(s: Seq<char>)
    ensures
        0 <= word_len(s) <= s.len(),
    decreases s.len(),
{
    if s.len() != 0 && !is_blank(s[0]) {
        lemma_word_len_bounds(s.skip(1));
    }
}

/// `word_len(s)` is exactly the position of the first blank (or the
/// whole length, when there is none).
pub proof fn lemma_word_len_is(s: Seq<char>, k: int)
    requires
        0 <= k <= s.len(),
        forall|i: int| 0 <= i < k ==> !is_blank(s[i]),
        k == s.len() || is_blank(s[k]),
    ensures
        word_len(s) == k,
    decreases k,
{
    if k == 0 {
    } else {
        assert(!is_blank(s[0]));
        assert forall|i: int| 0 <= i < k - 1 implies !is_blank(s.skip(1)[i]) by {
            assert(s.skip(1)[i] == s[i + 1]);
        }
        if k < s.len() {
            assert(s.skip(1)[k - 1] == s[k]);
        }
        lemma_word_len_is(s.skip(1), k - 1);
    }
}

/// The words of `s`, in order: maximal runs of non-blank characters.
pub open spec fn tokens_of(s: Seq<char>) -> Seq<Seq<char>>
    decreases s.len(),
    via tokens_of_decreases
{
    if s.len() == 0 {
        Seq::empty()
    } else if is_blank(s[0]) {
        tokens_of(s.skip(1))
    } else {
        seq![s.take(word_len(s))] + tokens_of(s.skip(word_len(s)))
    }
}

#[via_fn]
proof fn tokens_of_decreases(s: Seq<char>) {
    if s.len() != 0 && !is_blank(s[0]) {
        lemma_word_len_bounds(s);
        lemma_word_len_bounds(s.skip(1));
        assert(word_len(s) == 1 + word_len(s.skip(1)));
        assert(s.skip(word_len(s)).len() < s.len());
    }
}

/// Every word of a line is non-empty: a word is a maximal run of at
/// least one non-blank character.
pub proof fn lemma_tokens_nonempty(s: Seq<char>)
    ensures
        forall|i: int| 0 <= i < tokens_of(s).len() ==> tokens_of(s)[i].len() > 0,
    decreases s.len(),
{
    if s.len() == 0 {
        assert(tokens_of(s) == Seq::<Seq<char>>::empty());
    } else if is_blank(s[0]) {
        lemma_tokens_nonempty(s.skip(1));
        assert(tokens_of(s) == tokens_of(s.skip(1)));
    } else {
        lemma_word_len_bounds(s);
        lemma_word_len_bounds(s.skip(1));
        assert(word_len(s) == 1 + word_len(s.skip(1)));
        lemma_tokens_nonempty(s.skip(word_len(s)));
        let rest = tokens_of(s.skip(word_len(s)));
        assert(tokens_of(s) == seq![s.take(word_len(s))] + rest);
        assert forall|i: int| 0 <= i < tokens_of(s).len() implies tokens_of(s)[i].len() > 0 by {
            if i == 0 {
                assert(tokens_of(s)[0] == s.take(word_len(s)));
            } else {
                assert(tokens_of(s)[i] == rest[i - 1]);
            }
        }
    }
}

fn is_blank_at(s: &str, k: usize) -> (r: bool)
    requires
        k < s@.len(),
    ensures
        r == is_blank(s@[k as int]),
{
    let c = s.get_char(k);
    c == ' ' || c == '\t' || c == '\r' || c == '\n'
}

/// Cut a line into its whitespace-separated words.
pub fn tokenize(s: &str) -> (r: Vec<String>)
    ensures
        r@.map_values(|t: String| t@) == tokens_of(s@),
{
    let n = s.unicode_len();
    let mut r: Vec<String> = Vec::new();
    let mut i: usize = 0;
    proof {
        assert(s@.skip(0) =~= s@);
        assert(r@.map_values(|t: String| t@) =~= Seq::<Seq<char>>::empty());
        assert(Seq::<Seq<char>>::empty() + tokens_of(s@) =~= tokens_of(s@));
    }
    while i < n
        invariant
            n == s@.len(),
            i <= n,
            tokens_of(s@) == r@.map_values(|t: String| t@) + tokens_of(s@.skip(i as int)),
        decreases n - i,
    {
        if is_blank_at(s, i) {
            proof {
                assert(s@.skip(i as int)[0] == s@[i as int]);
                assert(s@.skip(i as int).skip(1) =~= s@.skip(i as int + 1));
            }
            i = i + 1;
        } else {
            let mut j: usize = i + 1;
            while j < n && !is_blank_at(s, j)
                invariant
                    n == s@.len(),
                    i < j <= n,
                    forall|k: int| i <= k < j ==> !is_blank(s@[k]),
                decreases n - j,
            {
                j = j + 1;
            }
            proof {
                let tail = s@.skip(i as int);
                assert forall|k: int| 0 <= k < j - i implies !is_blank(tail[k]) by {
                    assert(tail[k] == s@[k + i]);
                }
                if j < n {
                    assert(tail[j - i] == s@[j as int]);
                }
                lemma_word_len_is(tail, j - i);
                assert(tail.take(j - i) =~= s@.subrange(i as int, j as int));
                assert(tail.skip(j - i) =~= s@.skip(j as int));
            }
            let word = s.substring_char(i, j);
            let owned = String::from_str(word);
            let ghost r_before = r@;
            r.push(owned);
            proof {
                assert(r@.map_values(|t: String| t@) =~= r_before.map_values(|t: String| t@)
                    + seq![s@.subrange(i as int, j as int)]);
            }
            i = j;
        }
    }
    proof {
        assert(s@.skip(n as int) =~= Seq::<char>::empty());
        assert(r@.map_values(|t: String| t@) + Seq::<Seq<char>>::empty() =~= r@.map_values(
            |t: String| t@,
        ));
    }
    r
}

/// Whether a word equals a fixed keyword, decided character by character.
pub fn token_is(t: &String, w: &str) -> (r: bool)
    ensures
        r == (t@ == w@),
{
    let tl = t.as_str().unicode_len();
    let wl = w.unicode_len();
    if tl != wl {
        return false;
    }
    let mut i: usize = 0;
    while i < tl
        invariant
            tl == t@.len(),
            tl == w@.len(),
            i <= tl,
            forall|k: int| 0 <= k < i ==> t@[k] == w@[k],
        decreases tl - i,
    {
        if t.as_str().get_char(i) != w.get_char(i) {
            return false;
        }
        i = i + 1;
    }
    proof {
        assert(t@ =~= w@);
    }
    true
}

} // verus!
