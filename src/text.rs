//! Character-level helpers over `str`: whitespace, words and substrings.
use vstd::prelude::*;

verus! {

/// The characters with the Unicode `White_Space` property, which is what
/// `char::is_whitespace` tests.
pub open spec fn is_space(c: char) -> bool {
    let u = c as u32;
    (9 <= u && u <= 13) || u == 0x20 || u == 0x85 || u == 0xa0 || u == 0x1680 || (0x2000 <= u
        && u <= 0x200a) || u == 0x2028 || u == 0x2029 || u == 0x202f || u == 0x205f || u == 0x3000
}

/// First index at or after `i` that does not hold a space.
pub open spec fn skip_spaces(s: Seq<char>, i: int) -> int
    decreases s.len() - i,
{
    if 0 <= i < s.len() && is_space(s[i]) {
        skip_spaces(s, i + 1)
    } else {
        i
    }
}

/// First index at or after `i` that holds a space (or the end).
pub open spec fn skip_word(s: Seq<char>, i: int) -> int
    decreases s.len() - i,
{
    if 0 <= i < s.len() && !is_space(s[i]) {
        skip_word(s, i + 1)
    } else {
        i
    }
}

/// The second whitespace-separated word of `s`, if there is one.
pub open spec fn second_word(s: Seq<char>) -> Option<Seq<char>> {
    let a = skip_word(s, skip_spaces(s, 0));
    let b = skip_spaces(s, a);
    if b < s.len() {
        Some(s.subrange(b, skip_word(s, b)))
    } else {
        None
    }
}

/// `m` occurs in `s` at index `i`.
pub open spec fn occurs_at(s: Seq<char>, m: Seq<char>, i: int) -> bool {
    0 <= i && i + m.len() <= s.len() && s.subrange(i, i + m.len()) == m
}

/// `m` occurs somewhere in `s`.
pub open spec fn occurs_in(s: Seq<char>, m: Seq<char>) -> bool {
    exists|i: int| occurs_at(s, m, i)
}

/// Whether `c` is whitespace.
pub fn is_space_char(c: char) -> (r: bool)
    ensures
        r == is_space(c),
{
    let u = c as u32;
    (9 <= u && u <= 13) || u == 0x20 || u == 0x85 || u == 0xa0 || u == 0x1680 || (0x2000 <= u
        && u <= 0x200a) || u == 0x2028 || u == 0x2029 || u == 0x202f || u == 0x205f || u == 0x3000
}

/// Index of the first non-space at or after `i`; `len` is the length of `s`.
pub fn skip_spaces_from(s: &str, len: usize, i: usize) -> (r: usize)
    requires
        len == s@.len(),
        i <= len,
    ensures
        r as int == skip_spaces(s@, i as int),
        i <= r <= len,
{
    let mut j: usize = i;
    while j < len && is_space_char(s.get_char(j))
        invariant
            len == s@.len(),
            i <= j <= len,
            skip_spaces(s@, j as int) == skip_spaces(s@, i as int),
        decreases len - j,
    {
        j = j + 1;
    }
    j
}

/// Index of the first space at or after `i`; `len` is the length of `s`.
pub fn skip_word_from(s: &str, len: usize, i: usize) -> (r: usize)
    requires
        len == s@.len(),
        i <= len,
    ensures
        r as int == skip_word(s@, i as int),
        i <= r <= len,
{
    let mut j: usize = i;
    while j < len && !is_space_char(s.get_char(j))
        invariant
            len == s@.len(),
            i <= j <= len,
            skip_word(s@, j as int) == skip_word(s@, i as int),
        decreases len - j,
    {
        j = j + 1;
    }
    j
}

/// The second whitespace-separated word of `s`.
pub fn second_word_of(s: &str) -> (r: Option<String>)
    ensures
        match r {
            Some(w) => second_word(s@) == Some(w@),
            None => second_word(s@) is None,
        },
{
    let len = s.unicode_len();
    let first = skip_spaces_from(s, len, 0);
    let a = skip_word_from(s, len, first);
    let b = skip_spaces_from(s, len, a);
    if b < len {
        let e = skip_word_from(s, len, b);
        Some(s.substring_char(b, e).to_owned())
    } else {
        None
    }
}

/// Whether `m` occurs in `s` at index `i`.
pub fn occurs_at_index(s: &str, slen: usize, m: &str, mlen: usize, i: usize) -> (r: bool)
    requires
        slen == s@.len(),
        mlen == m@.len(),
    ensures
        r == occurs_at(s@, m@, i as int),
{
    if i > slen || mlen > slen - i {
        return false;
    }
    let mut k: usize = 0;
    while k < mlen
        invariant
            slen == s@.len(),
            mlen == m@.len(),
            i + mlen <= slen,
            k <= mlen,
            forall|t: int| 0 <= t < k ==> s@[i + t] == m@[t],
        decreases mlen - k,
    {
        if s.get_char(i + k) != m.get_char(k) {
            assert(s@.subrange(i as int, i + mlen)[k as int] != m@[k as int]);
            return false;
        }
        k = k + 1;
    }
    assert(s@.subrange(i as int, i + mlen) =~= m@);
    true
}

/// The first index at which `m` occurs in `s`.
pub fn find_first(s: &str, m: &str) -> (r: Option<usize>)
    ensures
        match r {
            Some(i) => occurs_at(s@, m@, i as int) && forall|j: int|
                0 <= j < i ==> !occurs_at(s@, m@, j),
            None => !occurs_in(s@, m@),
        },
{
    let slen = s.unicode_len();
    let mlen = m.unicode_len();
    if mlen > slen {
        return None;
    }
    let mut i: usize = 0;
    loop
        invariant
            slen == s@.len(),
            mlen == m@.len(),
            mlen <= slen,
            i <= slen - mlen,
            forall|j: int| 0 <= j < i ==> !occurs_at(s@, m@, j),
        ensures
            forall|j: int| 0 <= j <= slen - mlen ==> !occurs_at(s@, m@, j),
        decreases slen - mlen - i,
    {
        if occurs_at_index(s, slen, m, mlen, i) {
            return Some(i);
        }
        if i == slen - mlen {
            break;
        }
        i = i + 1;
    }
    assert forall|j: int| !occurs_at(s@, m@, j) by {}
    assert(!occurs_in(s@, m@));
    None
}

} // verus!
