//! Reading-time estimation: the body is split on whitespace runs and the
//! token count is divided by a fixed words-per-minute rate.

use vstd::prelude::*;
use crate::text::{is_ws, ws_char, chars_of};

verus! {

/// Number of maximal non-whitespace runs in `s` from position `i` on;
/// `in_word` says whether position `i` continues a run.
pub open spec fn words_from(s: Seq<char>, i: int, in_word: bool) -> nat
    decreases s.len() - i when 0 <= i <= s.len()
{
    if i < 0 || i >= s.len() {
        0
    } else if is_ws(s[i]) {
        words_from(s, i + 1, false)
    } else {
        (if in_word {
            0nat
        } else {
            1nat
        }) + words_from(s, i + 1, true)
    }
}

/// Number of whitespace-separated tokens in `s`.
pub open spec fn word_count_spec(s: Seq<char>) -> nat {
    words_from(s, 0, false)
}

pub proof fn lemma_words_from_bound(s: Seq<char>, i: int, in_word: bool)
    requires
        0 <= i <= s.len(),
    ensures
        words_from(s, i, in_word) <= s.len() - i,
    decreases s.len() - i,
{
    if i < s.len() {
        if is_ws(s[i]) {
            lemma_words_from_bound(s, i + 1, false);
        } else {
            lemma_words_from_bound(s, i + 1, true);
        }
    }
}

/// Counts the whitespace-separated tokens of `body`.
pub fn word_count(body: &str) -> (r: usize)
    ensures
        r == word_count_spec(body@),
{
    let chars = chars_of(body);
    let mut count: usize = 0;
    let mut in_word = false;
    let mut i: usize = 0;
    proof {
        lemma_words_from_bound(body@, 0, false);
    }
    while i < chars.len()
        invariant
            chars@ == body@,
            i <= chars@.len(),
            count <= i,
            word_count_spec(body@) == count + words_from(body@, i as int, in_word),
        decreases chars@.len() - i,
    {
        if ws_char(chars[i]) {
            in_word = false;
        } else {
            if !in_word {
                count = count + 1;
            }
            in_word = true;
        }
        i = i + 1;
    }
    count
}

/// Estimated minutes to read a body of `words` whitespace-separated
/// tokens, at two hundred words per minute, never less than one minute.
pub open spec fn reading_time_spec(words: nat) -> nat {
    if words == 0 {
        1
    } else {
        (words - 1) as nat / 200 + 1
    }
}

/// Reading time in minutes for a given word count: the word count divided
/// by two hundred, rounded up, with a floor of one minute.
pub fn reading_time(words: usize) -> (r: usize)
    ensures
        r == reading_time_spec(words as nat),
{
    if words == 0 {
        1
    } else {
        (words - 1) / 200 + 1
    }
}

} // verus!
