//! Character-level text scanning: whitespace, substring search and prefixes.

use vstd::prelude::*;
use vstd::utf8::*;

verus! {

broadcast use vstd::string::group_string_axioms;

/// The characters of a string slice, in order.
pub fn chars_of(text: &str) -> (r: Vec<char>)
    ensures
        r@ == text@,
{
    let mut r: Vec<char> = Vec::new();
    for c in it: text.chars()
        invariant
            r@ == it.seq().subrange(0, it.index() as int),
            it.seq() == text@,
    {
        r.push(c);
    }
    r
}

/// The characters `s[lo..hi]`.
pub fn copy_range(s: &[char], lo: usize, hi: usize) -> (r: Vec<char>)
    requires
        lo <= hi <= s@.len(),
    ensures
        r@ == s@.subrange(lo as int, hi as int),
{
    let mut r: Vec<char> = Vec::new();
    let mut i = lo;
    while i < hi
        invariant
            lo <= i <= hi <= s@.len(),
            r@ == s@.subrange(lo as int, i as int),
        decreases hi - i,
    {
        r.push(s[i]);
        assert(s@.subrange(lo as int, i + 1) =~= s@.subrange(lo as int, i as int).push(s@[i as int]));
        i = i + 1;
    }
    r
}

/// Appends one character to a string (`String::push`).
#[verifier::external_body]
pub fn push_char(s: &mut String, c: char)
    ensures
        final(s)@ == old(s)@.push(c),
{
    s.push(c);
}

/// Number of bytes in the UTF-8 encoding of `c` (`char::len_utf8`).
pub open spec fn utf8_width(c: char) -> nat {
    if (c as u32) < 0x80 {
        1
    } else if (c as u32) < 0x800 {
        2
    } else if (c as u32) < 0x10000 {
        3
    } else {
        4
    }
}

pub fn char_utf8_width(c: char) -> (r: usize)
    ensures
        r == utf8_width(c),
{
    let v = c as u32;
    if v < 0x80 {
        1
    } else if v < 0x800 {
        2
    } else if v < 0x10000 {
        3
    } else {
        4
    }
}

proof fn lemma_utf8_width_encode(c: char)
    ensures
        utf8_width(c) == encode_scalar(c as u32).len(),
{
    char_is_scalar(c);
}

/// Byte length of the UTF-8 encoding of `s`.
pub open spec fn utf8_len(s: Seq<char>) -> nat {
    encode_utf8(s).len()
}

pub proof fn lemma_utf8_len_push(s: Seq<char>, c: char)
    ensures
        utf8_len(s.push(c)) == utf8_len(s) + utf8_width(c),
    decreases s.len(),
{
    lemma_utf8_width_encode(c);
    if s.len() == 0 {
        assert(s.push(c).drop_first() =~= Seq::<char>::empty());
        assert(encode_utf8(Seq::<char>::empty()).len() == 0);
        assert(s.push(c)[0] == c);
    } else {
        assert(s.push(c).drop_first() =~= s.drop_first().push(c));
        assert(s.push(c)[0] == s[0]);
        lemma_utf8_len_push(s.drop_first(), c);
    }
}

/// The byte offset of character index `k` in `s`.
pub open spec fn byte_offset(s: Seq<char>, k: int) -> nat {
    utf8_len(s.subrange(0, k))
}

pub proof fn lemma_byte_offset_step(s: Seq<char>, k: int)
    requires
        0 <= k < s.len(),
    ensures
        byte_offset(s, k + 1) == byte_offset(s, k) + utf8_width(s[k]),
{
    assert(s.subrange(0, k + 1) =~= s.subrange(0, k).push(s[k]));
    lemma_utf8_len_push(s.subrange(0, k), s[k]);
}

pub proof fn lemma_byte_offset_monotone(s: Seq<char>, j: int, k: int)
    requires
        0 <= j <= k <= s.len(),
    ensures
        byte_offset(s, j) <= byte_offset(s, k),
        j < k ==> byte_offset(s, j) < byte_offset(s, k),
    decreases k - j,
{
    if j < k {
        lemma_byte_offset_monotone(s, j, k - 1);
        lemma_byte_offset_step(s, k - 1);
    }
}

/// Unicode `White_Space`, the set `char::is_whitespace` tests.
pub open spec fn is_whitespace(c: char) -> bool {
    ('\u{9}' <= c && c <= '\u{d}') || c == ' ' || c == '\u{85}' || c == '\u{a0}' || c == '\u{1680}'
        || ('\u{2000}' <= c && c <= '\u{200a}') || c == '\u{2028}' || c == '\u{2029}' || c == '\u{202f}'
        || c == '\u{205f}' || c == '\u{3000}'
}

pub fn char_is_whitespace(c: char) -> (r: bool)
    ensures
        r == is_whitespace(c),
{
    ('\u{9}' <= c && c <= '\u{d}') || c == ' ' || c == '\u{85}' || c == '\u{a0}' || c == '\u{1680}'
        || ('\u{2000}' <= c && c <= '\u{200a}') || c == '\u{2028}' || c == '\u{2029}' || c == '\u{202f}'
        || c == '\u{205f}' || c == '\u{3000}'
}

/// The first index at or after `i` that does not hold whitespace.
pub open spec fn skip_whitespace(s: Seq<char>, i: int) -> int
    decreases s.len() - i,
{
    if 0 <= i < s.len() && is_whitespace(s[i]) {
        skip_whitespace(s, i + 1)
    } else {
        i
    }
}

/// `s` without its leading whitespace (`str::trim_start`).
pub open spec fn trim_start(s: Seq<char>) -> Seq<char> {
    s.subrange(skip_whitespace(s, 0), s.len() as int)
}

pub proof fn lemma_skip_whitespace_bounds(s: Seq<char>, i: int)
    requires
        0 <= i <= s.len(),
    ensures
        i <= skip_whitespace(s, i) <= s.len(),
        forall|j: int| i <= j < skip_whitespace(s, i) ==> is_whitespace(#[trigger] s[j]),
        skip_whitespace(s, i) < s.len() ==> !is_whitespace(s[skip_whitespace(s, i)]),
    decreases s.len() - i,
{
    if i < s.len() && is_whitespace(s[i]) {
        lemma_skip_whitespace_bounds(s, i + 1);
    }
}

/// Index of the first non-whitespace character at or after `start`.
pub fn skip_whitespace_from(s: &[char], start: usize) -> (r: usize)
    requires
        start <= s@.len(),
    ensures
        r as int == skip_whitespace(s@, start as int),
        start <= r <= s@.len(),
{
    let mut i = start;
    proof {
        lemma_skip_whitespace_bounds(s@, start as int);
    }
    while i < s.len() && char_is_whitespace(s[i])
        invariant
            start <= i <= s@.len(),
            skip_whitespace(s@, i as int) == skip_whitespace(s@, start as int),
        decreases s@.len() - i,
    {
        i = i + 1;
    }
    i
}

/// Whether `needle` occurs in `hay` at index `i`.
pub open spec fn occurs_at(hay: Seq<char>, needle: Seq<char>, i: int) -> bool {
    0 <= i && i + needle.len() <= hay.len() && hay.subrange(i, i + needle.len()) == needle
}

/// The first occurrence of `needle` in `hay` at or after `i` (`str::find`).
pub open spec fn find_from(hay: Seq<char>, needle: Seq<char>, i: int) -> Option<int>
    decreases hay.len() + 1 - i,
{
    if i < 0 || i + needle.len() > hay.len() {
        None
    } else if occurs_at(hay, needle, i) {
        Some(i)
    } else {
        find_from(hay, needle, i + 1)
    }
}

/// The first occurrence of `needle` in `hay`.
pub open spec fn spec_find(hay: Seq<char>, needle: Seq<char>) -> Option<int> {
    find_from(hay, needle, 0)
}

pub proof fn lemma_find_from_bounds(hay: Seq<char>, needle: Seq<char>, i: int)
    requires
        0 <= i,
    ensures
        find_from(hay, needle, i) matches Some(k) ==> i <= k && occurs_at(hay, needle, k),
        find_from(hay, needle, i) matches Some(k) ==> forall|j: int| i <= j < k ==> !occurs_at(hay, needle, j),
        find_from(hay, needle, i) is None ==> forall|j: int| i <= j ==> !occurs_at(hay, needle, j),
    decreases hay.len() + 1 - i,
{
    if i + needle.len() > hay.len() {
    } else if occurs_at(hay, needle, i) {
    } else {
        lemma_find_from_bounds(hay, needle, i + 1);
    }
}

fn matches_at(hay: &[char], needle: &[char], i: usize) -> (r: bool)
    requires
        i + needle@.len() <= hay@.len(),
    ensures
        r == occurs_at(hay@, needle@, i as int),
{
    let n = needle.len();
    let hl = hay.len();
    let mut k: usize = 0;
    while k < n
        invariant
            k <= n,
            n == needle@.len(),
            hl == hay@.len(),
            i + n <= hay@.len(),
            forall|j: int| 0 <= j < k ==> hay@[i + j] == needle@[j],
        decreases n - k,
    {
        if hay[i + k] != needle[k] {
            assert(hay@.subrange(i as int, i + n)[k as int] != needle@[k as int]);
            return false;
        }
        k = k + 1;
    }
    assert(hay@.subrange(i as int, i + n) =~= needle@);
    true
}

/// First occurrence of `needle` in `hay` at or after `start`.
pub fn find_chars_from(hay: &[char], needle: &[char], start: usize) -> (r: Option<usize>)
    requires
        start <= hay@.len(),
    ensures
        match r {
            Some(k) => find_from(hay@, needle@, start as int) == Some(k as int),
            None => find_from(hay@, needle@, start as int) is None,
        },
{
    let hl = hay.len();
    let n = needle.len();
    if n > hl || start > hl - n {
        return None;
    }
    let mut i = start;
    while i <= hl - n
        invariant
            start <= i,
            hl == hay@.len(),
            n == needle@.len(),
            n <= hl,
            i <= hl - n + 1,
            find_from(hay@, needle@, i as int) == find_from(hay@, needle@, start as int),
        decreases hl + 1 - i,
    {
        if matches_at(hay, needle, i) {
            return Some(i);
        }
        if i == hl - n {
            assert(find_from(hay@, needle@, i + 1) is None);
            return None;
        }
        i = i + 1;
    }
    None
}

/// First occurrence of `c` at or after `start`.
pub fn find_char_from(hay: &[char], c: char, start: usize) -> (r: Option<usize>)
    requires
        start <= hay@.len(),
    ensures
        match r {
            Some(k) => find_from(hay@, seq![c], start as int) == Some(k as int),
            None => find_from(hay@, seq![c], start as int) is None,
        },
{
    let mut i = start;
    while i < hay.len()
        invariant
            start <= i <= hay@.len(),
            find_from(hay@, seq![c], i as int) == find_from(hay@, seq![c], start as int),
        decreases hay@.len() - i,
    {
        if hay[i] == c {
            assert(hay@.subrange(i as int, i + 1) =~= seq![c]);
            return Some(i);
        }
        assert(!(hay@.subrange(i as int, i + 1) =~= seq![c]) ==> hay@.subrange(i as int, i + 1) != seq![c]);
        assert(hay@.subrange(i as int, i + 1)[0] == hay@[i as int]);
        i = i + 1;
    }
    None
}

/// Whether `s` starts with `prefix` at index `i`.
pub fn has_prefix_at(s: &[char], prefix: &[char], i: usize) -> (r: bool)
    requires
        i <= s@.len(),
    ensures
        r == occurs_at(s@, prefix@, i as int),
{
    if prefix.len() > s.len() - i {
        return false;
    }
    matches_at(s, prefix, i)
}

} // verus!
