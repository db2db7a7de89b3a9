//! Character-sequence utilities: conversions between strings and character
//! vectors, substring search, and decimal formatting. All other modules
//! state their contracts over `Seq<char>` through these helpers.

use vstd::prelude::*;

verus! {

/// ASCII whitespace, as used both for token counting and for the
/// whitespace allowed between attributes of an image tag.
pub open spec fn is_ws(c: char) -> bool {
    c == ' ' || c == '\t' || c == '\n' || c == '\r' || c == '\x0b' || c == '\x0c'
}

/// Exec test for `is_ws`.
pub fn ws_char(c: char) -> (r: bool)
    ensures
        r == is_ws(c),
{
    c == ' ' || c == '\t' || c == '\n' || c == '\r' || c == '\x0b' || c == '\x0c'
}

/// The needle `n` occurs in `h` starting at position `i`.
pub open spec fn is_match_at(h: Seq<char>, n: Seq<char>, i: int) -> bool {
    0 <= i && i + n.len() <= h.len() && h.subrange(i, i + n.len() as int) == n
}

/// Position of the first occurrence of `n` in `h` at or after `from`.
pub open spec fn find_spec(h: Seq<char>, n: Seq<char>, from: int) -> Option<int>
    decreases h.len() - from + 1 when from >= 0
{
    if from < 0 || from + n.len() > h.len() {
        None
    } else if h.subrange(from, from + n.len() as int) == n {
        Some(from)
    } else {
        find_spec(h, n, from + 1)
    }
}

/// `find_spec` returns the earliest match position at or after `from`.
pub proof fn lemma_find_spec_characterization(h: Seq<char>, n: Seq<char>, from: int)
    requires
        from >= 0,
    ensures
        match find_spec(h, n, from) {
            Some(i) => from <= i && is_match_at(h, n, i) && forall|j: int|
                from <= j < i ==> !is_match_at(h, n, j),
            None => forall|j: int| from <= j ==> !is_match_at(h, n, j),
        },
    decreases h.len() - from + 1,
{
    if from + n.len() > h.len() {
        assert(forall|j: int| from <= j ==> !is_match_at(h, n, j));
    } else if h.subrange(from, from + n.len() as int) == n {
    } else {
        lemma_find_spec_characterization(h, n, from + 1);
    }
}


/// Position of the first occurrence of the character `c` in `h` at or
/// after `from`.
pub open spec fn find_char_spec(h: Seq<char>, c: char, from: int) -> Option<int>
    decreases h.len() - from when from >= 0
{
    if from < 0 || from >= h.len() {
        None
    } else if h[from] == c {
        Some(from)
    } else {
        find_char_spec(h, c, from + 1)
    }
}

/// First position at or after `from` holding a non-whitespace character,
/// or the length of `h` when none follows.
pub open spec fn skip_ws_spec(h: Seq<char>, from: int) -> int
    decreases h.len() - from when 0 <= from <= h.len()
{
    if from < 0 || from >= h.len() {
        h.len() as int
    } else if is_ws(h[from]) {
        skip_ws_spec(h, from + 1)
    } else {
        from
    }
}

pub proof fn lemma_skip_ws_bounds(h: Seq<char>, from: int)
    requires
        0 <= from <= h.len(),
    ensures
        from <= skip_ws_spec(h, from) <= h.len(),
    decreases h.len() - from,
{
    if from < h.len() && is_ws(h[from]) {
        lemma_skip_ws_bounds(h, from + 1);
    }
}

/// The characters of `s`, as a vector.
pub fn chars_of(s: &str) -> (r: Vec<char>)
    ensures
        r@ == s@,
{
    let n = s.unicode_len();
    let mut r: Vec<char> = Vec::new();
    let mut i: usize = 0;
    while i < n
        invariant
            n == s@.len(),
            i <= n,
            r@ == s@.subrange(0, i as int),
        decreases n - i,
    {
        r.push(s.get_char(i));
        i = i + 1;
        proof {
            assert(r@ =~= s@.subrange(0, i as int));
        }
    }
    proof {
        assert(r@ =~= s@);
    }
    r
}

/// Relies on `String::push`: appends one character to the string.
#[verifier::external_body]
fn push_char(s: &mut String, c: char)
    ensures
        final(s)@ == old(s)@.push(c),
{
    s.push(c)
}

/// A string holding exactly the characters of `v`.
pub fn string_of(v: &Vec<char>) -> (r: String)
    ensures
        r@ == v@,
{
    let mut r = String::new();
    let mut i: usize = 0;
    while i < v.len()
        invariant
            i <= v@.len(),
            r@ == v@.subrange(0, i as int),
        decreases v@.len() - i,
    {
        push_char(&mut r, v[i]);
        i = i + 1;
        proof {
            assert(r@ =~= v@.subrange(0, i as int));
        }
    }
    proof {
        assert(r@ =~= v@);
    }
    r
}

/// The characters of `h` from `from` (inclusive) to `to` (exclusive).
pub fn sub_chars(h: &Vec<char>, from: usize, to: usize) -> (r: Vec<char>)
    requires
        from <= to <= h@.len(),
    ensures
        r@ == h@.subrange(from as int, to as int),
{
    let mut r: Vec<char> = Vec::new();
    let mut i: usize = from;
    while i < to
        invariant
            from <= i <= to <= h@.len(),
            r@ == h@.subrange(from as int, i as int),
        decreases to - i,
    {
        r.push(h[i]);
        i = i + 1;
        proof {
            assert(r@ =~= h@.subrange(from as int, i as int));
        }
    }
    r
}

/// First occurrence of the needle `n` in `h` at or after `from`.
pub fn find(h: &Vec<char>, n: &Vec<char>, from: usize) -> (r: Option<usize>)
    ensures
        match r {
            Some(i) => find_spec(h@, n@, from as int) == Some(i as int),
            None => find_spec(h@, n@, from as int) is None,
        },
{
    let mut i: usize = from;
    loop
        invariant
            from <= i,
            find_spec(h@, n@, from as int) == find_spec(h@, n@, i as int),
        decreases h@.len() + 1 - i,
    {
        if n.len() > h.len() || i > h.len() - n.len() {
            return None;
        }
        let mut j: usize = 0;
        let mut matched = true;
        while j < n.len()
            invariant
                i + n@.len() <= h@.len(),
                h@.len() <= usize::MAX,
                j <= n@.len(),
                matched ==> h@.subrange(i as int, i + j as int) =~= n@.subrange(0, j as int),
                !matched ==> h@.subrange(i as int, i + n@.len() as int) != n@,
            decreases n@.len() - j,
        {
            if matched && h[i + j] != n[j] {
                proof {
                    assert(h@.subrange(i as int, i + n@.len() as int)[j as int] != n@[j as int]);
                }
                matched = false;
            }
            j = j + 1;
        }
        if matched {
            proof {
                assert(h@.subrange(i as int, i + n@.len() as int) =~= n@);
            }
            return Some(i);
        }
        i = i + 1;
    }
}

/// First occurrence of the character `c` in `h` at or after `from`.
pub fn find_char(h: &Vec<char>, c: char, from: usize) -> (r: Option<usize>)
    ensures
        match r {
            Some(i) => find_char_spec(h@, c, from as int) == Some(i as int),
            None => find_char_spec(h@, c, from as int) is None,
        },
{
    let mut i: usize = from;
    while i < h.len()
        invariant
            from <= i,
            find_char_spec(h@, c, from as int) == find_char_spec(h@, c, i as int),
        decreases h@.len() - i,
    {
        if h[i] == c {
            return Some(i);
        }
        i = i + 1;
    }
    None
}

/// First non-whitespace position in `h` at or after `from`.
pub fn skip_ws(h: &Vec<char>, from: usize) -> (r: usize)
    requires
        from <= h@.len(),
    ensures
        r == skip_ws_spec(h@, from as int),
        from <= r <= h@.len(),
{
    proof {
        lemma_skip_ws_bounds(h@, from as int);
    }
    let mut i: usize = from;
    while i < h.len() && ws_char(h[i])
        invariant
            from <= i <= h@.len(),
            skip_ws_spec(h@, from as int) == skip_ws_spec(h@, i as int),
        decreases h@.len() - i,
    {
        i = i + 1;
    }
    i
}

/// The decimal digit character for `d`.
pub open spec fn digit_char(d: nat) -> char {
    if d == 0 { '0' }
    else if d == 1 { '1' }
    else if d == 2 { '2' }
    else if d == 3 { '3' }
    else if d == 4 { '4' }
    else if d == 5 { '5' }
    else if d == 6 { '6' }
    else if d == 7 { '7' }
    else if d == 8 { '8' }
    else { '9' }
}

/// The decimal digits of `n`, most significant first, with no leading
/// zeroes except for zero itself.
pub open spec fn dec_digits(n: nat) -> Seq<char>
    decreases n
{
    if n < 10 {
        seq![digit_char(n)]
    } else {
        dec_digits(n / 10) + seq![digit_char(n % 10)]
    }
}

fn digit_char_exec(d: u32) -> (r: char)
    requires
        d < 10,
    ensures
        r == digit_char(d as nat),
{
    if d == 0 { '0' }
    else if d == 1 { '1' }
    else if d == 2 { '2' }
    else if d == 3 { '3' }
    else if d == 4 { '4' }
    else if d == 5 { '5' }
    else if d == 6 { '6' }
    else if d == 7 { '7' }
    else if d == 8 { '8' }
    else { '9' }
}

/// Appends the decimal digits of `n` to `out`.
pub fn push_decimal(n: u32, out: &mut Vec<char>)
    ensures
        final(out)@ == old(out)@ + dec_digits(n as nat),
    decreases n,
{
    if n < 10 {
        out.push(digit_char_exec(n));
    } else {
        push_decimal(n / 10, out);
        out.push(digit_char_exec(n % 10));
        proof {
            assert(out@ =~= old(out)@ + dec_digits(n as nat));
        }
    }
}

} // verus!
