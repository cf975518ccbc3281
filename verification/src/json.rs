//! Shared navigation of settings JSON fragments.
//!
//! This is a small, deterministic substrate rather than a general JSON
//! parser: it distinguishes a missing member from an explicit `null`, reads
//! typed scalar members, and cuts balanced object and array fragments while
//! ignoring delimiters that sit inside string literals.

use vstd::prelude::*;
use vstd::string::StrSliceExecFns;
use crate::text::{
    byte_offset, char_utf8_width, chars_of, find_char_from, find_chars_from, find_from,
    has_prefix_at, lemma_byte_offset_monotone, lemma_byte_offset_step, lemma_find_from_bounds,
    lemma_skip_whitespace_bounds, occurs_at, push_char, skip_whitespace, skip_whitespace_from,
    spec_find, trim_start, utf8_len,
};

verus! {

broadcast use vstd::string::group_string_axioms;

/// Failures while navigating a settings JSON fragment.
#[derive(Debug, Clone, Copy, PartialEq, Eq, Structural)]
pub enum JsonError {
    InvalidString,
    InvalidBoolean,
    InvalidObject,
    InvalidArray,
}

/// Presence state for a JSON member.
#[derive(Debug, Clone, Copy, PartialEq, Eq)]
pub enum Member<'a> {
    Missing,
    Null,
    Value(&'a str),
}

/// The mathematical content of a [`Member`].
pub enum MemberView {
    Missing,
    Null,
    Value(Seq<char>),
}

impl<'a> View for Member<'a> {
    type V = MemberView;

    open spec fn view(&self) -> MemberView {
        match *self {
            Member::Missing => MemberView::Missing,
            Member::Null => MemberView::Null,
            Member::Value(v) => MemberView::Value(v@),
        }
    }
}

/// `"key"`: the member name as it is written in the document.
pub open spec fn quoted_key(key: Seq<char>) -> Seq<char> {
    seq!['"'] + key + seq!['"']
}

pub open spec fn null_word() -> Seq<char> {
    seq!['n', 'u', 'l', 'l']
}

pub open spec fn true_word() -> Seq<char> {
    seq!['t', 'r', 'u', 'e']
}

pub open spec fn false_word() -> Seq<char> {
    seq!['f', 'a', 'l', 's', 'e']
}

/// Index just past the first `:` that follows the first occurrence of
/// `"key"` in `s`.
pub open spec fn after_colon(s: Seq<char>, key: Seq<char>) -> Option<int> {
    match spec_find(s, quoted_key(key)) {
        None => None,
        Some(o) => match find_from(s, seq![':'], o + quoted_key(key).len()) {
            None => None,
            Some(c) => Some(c + 1),
        },
    }
}

/// Index of the member's value: after the colon, past any whitespace.
pub open spec fn value_start(s: Seq<char>, key: Seq<char>) -> Option<int> {
    match after_colon(s, key) {
        None => None,
        Some(a) => Some(skip_whitespace(s, a)),
    }
}

/// The member `key` of `s`: missing, an explicit `null`, or the raw value
/// tail (everything from the value to the end of `s`).
pub open spec fn spec_member(s: Seq<char>, key: Seq<char>) -> MemberView {
    match value_start(s, key) {
        None => MemberView::Missing,
        Some(v) => if occurs_at(s, null_word(), v) {
            MemberView::Null
        } else {
            MemberView::Value(s.subrange(v, s.len() as int))
        },
    }
}

/// The character that the escape `\c` stands for.
pub open spec fn unescape(c: char) -> char {
    if c == 'n' {
        '\n'
    } else if c == 'r' {
        '\r'
    } else if c == 't' {
        '\t'
    } else {
        c
    }
}

/// Decodes string content starting at `i` up to the closing quote; `None`
/// when the string is not terminated.
pub open spec fn unquote_from(s: Seq<char>, i: int, escaped: bool) -> Option<Seq<char>>
    decreases s.len() - i,
{
    if i < 0 || i >= s.len() {
        None
    } else if escaped {
        match unquote_from(s, i + 1, false) {
            Some(rest) => Some(seq![unescape(s[i])] + rest),
            None => None,
        }
    } else if s[i] == '\\' {
        unquote_from(s, i + 1, true)
    } else if s[i] == '"' {
        Some(Seq::empty())
    } else {
        match unquote_from(s, i + 1, false) {
            Some(rest) => Some(seq![s[i]] + rest),
            None => None,
        }
    }
}

/// The string token at the start of `s` (after leading whitespace), decoded.
pub open spec fn spec_parse_quoted(s: Seq<char>) -> Option<Seq<char>> {
    let t = trim_start(s);
    if t.len() == 0 || t[0] != '"' {
        None
    } else {
        unquote_from(t, 1, false)
    }
}

/// Index of the delimiter that closes the fragment scanned from `i`, given
/// the nesting `depth` and string state reached so far.  Characters inside
/// string literals never count; `close` at depth zero is a failure.
pub open spec fn delimiter_end(
    s: Seq<char>,
    i: int,
    depth: nat,
    in_string: bool,
    escaped: bool,
    open: char,
    close: char,
) -> Option<int>
    decreases s.len() - i,
{
    if i < 0 || i >= s.len() {
        None
    } else if in_string {
        if escaped {
            delimiter_end(s, i + 1, depth, true, false, open, close)
        } else if s[i] == '\\' {
            delimiter_end(s, i + 1, depth, true, true, open, close)
        } else if s[i] == '"' {
            delimiter_end(s, i + 1, depth, false, false, open, close)
        } else {
            delimiter_end(s, i + 1, depth, true, false, open, close)
        }
    } else if s[i] == '"' {
        delimiter_end(s, i + 1, depth, true, false, open, close)
    } else if s[i] == open {
        delimiter_end(s, i + 1, depth + 1, false, false, open, close)
    } else if s[i] == close {
        if depth == 0 {
            None
        } else if depth == 1 {
            Some(i)
        } else {
            delimiter_end(s, i + 1, (depth - 1) as nat, false, false, open, close)
        }
    } else {
        delimiter_end(s, i + 1, depth, false, false, open, close)
    }
}

/// The closing delimiter that matches the fragment starting at `start`.
pub open spec fn matching_delimiter(s: Seq<char>, start: int, open: char, close: char) -> Option<
    int,
> {
    delimiter_end(s, start, 0, false, false, open, close)
}

pub proof fn lemma_delimiter_end_bounds(
    s: Seq<char>,
    i: int,
    depth: nat,
    in_string: bool,
    escaped: bool,
    open: char,
    close: char,
)
    ensures
        delimiter_end(s, i, depth, in_string, escaped, open, close) matches Some(j) ==> i <= j
            < s.len() && s[j] == close,
    decreases s.len() - i,
{
    if i < 0 || i >= s.len() {
    } else {
        lemma_delimiter_end_bounds(s, i + 1, depth, true, false, open, close);
        lemma_delimiter_end_bounds(s, i + 1, depth, true, true, open, close);
        lemma_delimiter_end_bounds(s, i + 1, depth, false, false, open, close);
        lemma_delimiter_end_bounds(s, i + 1, depth + 1, false, false, open, close);
        if depth > 1 {
            lemma_delimiter_end_bounds(s, i + 1, (depth - 1) as nat, false, false, open, close);
        }
    }
}

/// The top-level `{...}` fragments of `s` from `cursor` on, in order;
/// `None` when an object is not closed.
pub open spec fn objects_from(s: Seq<char>, cursor: int) -> Option<Seq<Seq<char>>>
    decreases s.len() - cursor,
{
    if cursor < 0 || cursor >= s.len() {
        Some(Seq::empty())
    } else {
        match find_from(s, seq!['{'], cursor) {
            None => Some(Seq::empty()),
            Some(st) => match matching_delimiter(s, st, '{', '}') {
                None => None,
                Some(e) => {
                    proof {
                        lemma_find_from_bounds(s, seq!['{'], cursor);
                        lemma_delimiter_end_bounds(s, st, 0, false, false, '{', '}');
                    }
                    match objects_from(s, e + 1) {
                        None => None,
                        Some(rest) => Some(seq![s.subrange(st, e + 1)] + rest),
                    }
                },
            },
        }
    }
}

pub open spec fn spec_top_level_objects(s: Seq<char>) -> Option<Seq<Seq<char>>> {
    objects_from(s, 0)
}

pub open spec fn spec_string_member(s: Seq<char>, key: Seq<char>) -> Result<
    Option<Seq<char>>,
    JsonError,
> {
    match spec_member(s, key) {
        MemberView::Value(t) => match spec_parse_quoted(t) {
            Some(u) => Ok(Some(u)),
            None => Err(JsonError::InvalidString),
        },
        _ => Ok(None),
    }
}

pub open spec fn spec_bool_member(s: Seq<char>, key: Seq<char>) -> Result<Option<bool>, JsonError> {
    match spec_member(s, key) {
        MemberView::Value(t) => if occurs_at(t, true_word(), 0) {
            Ok(Some(true))
        } else if occurs_at(t, false_word(), 0) {
            Ok(Some(false))
        } else {
            Err(JsonError::InvalidBoolean)
        },
        _ => Ok(None),
    }
}

pub open spec fn spec_object_member(s: Seq<char>, key: Seq<char>) -> Result<
    Option<Seq<char>>,
    JsonError,
> {
    match spec_member(s, key) {
        MemberView::Value(t) => if t.len() == 0 || t[0] != '{' {
            Err(JsonError::InvalidObject)
        } else {
            match matching_delimiter(t, 0, '{', '}') {
                None => Err(JsonError::InvalidObject),
                Some(e) => Ok(Some(t.subrange(0, e + 1))),
            }
        },
        _ => Ok(None),
    }
}

pub open spec fn spec_array_member(s: Seq<char>, key: Seq<char>) -> Result<
    Option<Seq<char>>,
    JsonError,
> {
    match spec_member(s, key) {
        MemberView::Value(t) => if t.len() == 0 || t[0] != '[' {
            Err(JsonError::InvalidArray)
        } else {
            match matching_delimiter(t, 0, '[', ']') {
                None => Err(JsonError::InvalidArray),
                Some(e) => Ok(Some(t.subrange(1, e))),
            }
        },
        _ => Ok(None),
    }
}

/// `"key"` as characters.
pub fn quoted_chars(key: &[char]) -> (r: Vec<char>)
    ensures
        r@ == quoted_key(key@),
{
    let mut r: Vec<char> = Vec::new();
    r.push('"');
    let mut i: usize = 0;
    while i < key.len()
        invariant
            i <= key@.len(),
            r@ == seq!['"'] + key@.subrange(0, i as int),
        decreases key@.len() - i,
    {
        r.push(key[i]);
        assert(key@.subrange(0, i + 1) =~= key@.subrange(0, i as int).push(key@[i as int]));
        i = i + 1;
    }
    r.push('"');
    assert(key@.subrange(0, key@.len() as int) =~= key@);
    r
}

/// Index of the value of member `key` in `s`, if the member is present.
pub fn value_start_of(s: &[char], key: &[char]) -> (r: Option<usize>)
    ensures
        match r {
            Some(v) => value_start(s@, key@) == Some(v as int) && v <= s@.len(),
            None => value_start(s@, key@) is None,
        },
{
    let n = s.len();
    let needle = quoted_chars(key);
    proof {
        lemma_find_from_bounds(s@, needle@, 0);
    }
    match find_chars_from(s, needle.as_slice(), 0) {
        None => None,
        Some(o) => {
            assert(o + needle@.len() <= n);
            let after = o + needle.len();
            proof {
                lemma_find_from_bounds(s@, seq![':'], after as int);
            }
            match find_char_from(s, ':', after) {
                None => None,
                Some(c) => {
                    assert(c + 1 <= n);
                    proof {
                        lemma_skip_whitespace_bounds(s@, c + 1);
                    }
                    Some(skip_whitespace_from(s, c + 1))
                },
            }
        },
    }
}

/// Returns the raw value tail for `key`, keeping a missing member distinct
/// from an explicit `null`.
pub fn member<'a>(input: &'a str, key: &str) -> (r: Member<'a>)
    ensures
        r@ == spec_member(input@, key@),
{
    let s = chars_of(input);
    let k = chars_of(key);
    match value_start_of(s.as_slice(), k.as_slice()) {
        None => Member::Missing,
        Some(v) => {
            let null = vec!['n', 'u', 'l', 'l'];
            assert(null@ == null_word());
            if has_prefix_at(s.as_slice(), null.as_slice(), v) {
                Member::Null
            } else {
                Member::Value(input.substring_char(v, s.len()))
            }
        },
    }
}

/// Reads an optional string member. Missing and `null` both give `None`.
pub fn string_member(input: &str, key: &str) -> (r: Result<Option<String>, JsonError>)
    ensures
        match (r, spec_string_member(input@, key@)) {
            (Ok(Some(a)), Ok(Some(b))) => a@ == b,
            (Ok(None), Ok(None)) => true,
            (Err(e), Err(f)) => e == f,
            _ => false,
        },
{
    match member(input, key) {
        Member::Missing => Ok(None),
        Member::Null => Ok(None),
        Member::Value(value) => match parse_quoted(value) {
            Some(text) => Ok(Some(text)),
            None => Err(JsonError::InvalidString),
        },
    }
}

/// Reads an optional boolean member. Missing and `null` both give `None`.
pub fn bool_member(input: &str, key: &str) -> (r: Result<Option<bool>, JsonError>)
    ensures
        r == spec_bool_member(input@, key@),
{
    match member(input, key) {
        Member::Missing => Ok(None),
        Member::Null => Ok(None),
        Member::Value(value) => {
            let t = chars_of(value);
            let yes = vec!['t', 'r', 'u', 'e'];
            let no = vec!['f', 'a', 'l', 's', 'e'];
            assert(yes@ == true_word());
            assert(no@ == false_word());
            if has_prefix_at(t.as_slice(), yes.as_slice(), 0) {
                Ok(Some(true))
            } else if has_prefix_at(t.as_slice(), no.as_slice(), 0) {
                Ok(Some(false))
            } else {
                Err(JsonError::InvalidBoolean)
            }
        },
    }
}

/// Returns a balanced object member. Missing and `null` both give `None`.
pub fn object_member<'a>(input: &'a str, key: &str) -> (r: Result<Option<&'a str>, JsonError>)
    ensures
        match (r, spec_object_member(input@, key@)) {
            (Ok(Some(a)), Ok(Some(b))) => a@ == b,
            (Ok(None), Ok(None)) => true,
            (Err(e), Err(f)) => e == f,
            _ => false,
        },
{
    match member(input, key) {
        Member::Missing => Ok(None),
        Member::Null => Ok(None),
        Member::Value(value) => {
            let t = chars_of(value);
            if t.len() == 0 || t[0] != '{' {
                return Err(JsonError::InvalidObject);
            }
            proof {
                lemma_delimiter_end_bounds(t@, 0, 0, false, false, '{', '}');
            }
            match matching_delimiter_at(t.as_slice(), 0, '{', '}') {
                None => Err(JsonError::InvalidObject),
                Some(end) => Ok(Some(value.substring_char(0, end + 1))),
            }
        },
    }
}

/// Returns the interior of a balanced array member.
pub fn array_member<'a>(input: &'a str, key: &str) -> (r: Result<Option<&'a str>, JsonError>)
    ensures
        match (r, spec_array_member(input@, key@)) {
            (Ok(Some(a)), Ok(Some(b))) => a@ == b,
            (Ok(None), Ok(None)) => true,
            (Err(e), Err(f)) => e == f,
            _ => false,
        },
{
    match member(input, key) {
        Member::Missing => Ok(None),
        Member::Null => Ok(None),
        Member::Value(value) => {
            let t = chars_of(value);
            if t.len() == 0 || t[0] != '[' {
                return Err(JsonError::InvalidArray);
            }
            proof {
                lemma_delimiter_end_bounds(t@, 1, 1, false, false, '[', ']');
            }
            match matching_delimiter_at(t.as_slice(), 0, '[', ']') {
                None => Err(JsonError::InvalidArray),
                Some(end) => Ok(Some(value.substring_char(1, end))),
            }
        },
    }
}

/// Splits an array interior into its top-level object fragments.
pub fn top_level_objects<'a>(input: &'a str) -> (r: Result<Vec<&'a str>, JsonError>)
    ensures
        match (r, spec_top_level_objects(input@)) {
            (Ok(v), Some(objs)) => v@.len() == objs.len() && forall|j: int|
                0 <= j < objs.len() ==> (#[trigger] v@[j])@ == objs[j],
            (Err(e), None) => e == JsonError::InvalidObject,
            _ => false,
        },
{
    let s = chars_of(input);
    let n = s.len();
    let mut result: Vec<&'a str> = Vec::new();
    let mut cursor: usize = 0;
    let ghost done: Seq<Seq<char>> = Seq::empty();
    while cursor < n
        invariant
            n == s@.len(),
            s@ == input@,
            cursor <= n,
            result@.len() == done.len(),
            forall|j: int| 0 <= j < done.len() ==> (#[trigger] result@[j])@ == done[j],
            objects_from(s@, 0) == match objects_from(s@, cursor as int) {
                Some(rest) => Some(done + rest),
                None => None,
            },
        ensures
            result@.len() == done.len(),
            forall|j: int| 0 <= j < done.len() ==> (#[trigger] result@[j])@ == done[j],
            objects_from(s@, 0) == Some(done),
        decreases n - cursor,
    {
        proof {
            lemma_find_from_bounds(s@, seq!['{'], cursor as int);
        }
        let start = match find_char_from(s.as_slice(), '{', cursor) {
            None => {
                assert(done + Seq::<Seq<char>>::empty() =~= done);
                break;
            },
            Some(start) => start,
        };
        proof {
            lemma_delimiter_end_bounds(s@, start as int, 0, false, false, '{', '}');
        }
        let end = match matching_delimiter_at(s.as_slice(), start, '{', '}') {
            None => {
                return Err(JsonError::InvalidObject);
            },
            Some(end) => end,
        };
        let piece = input.substring_char(start, end + 1);
        result.push(piece);
        proof {
            let obj = s@.subrange(start as int, end + 1);
            match objects_from(s@, end + 1) {
                Some(rest) => {
                    assert(done.push(obj) + rest =~= done + (seq![obj] + rest));
                },
                None => {},
            }
            done = done.push(obj);
        }
        cursor = end + 1;
        proof {
            if cursor >= n {
                assert(done + Seq::<Seq<char>>::empty() =~= done);
            }
        }
    }
    Ok(result)
}

/// Parses one JSON string token (after leading whitespace), decoding the
/// escapes that settings keys use.
pub fn parse_quoted(input: &str) -> (r: Option<String>)
    ensures
        match (r, spec_parse_quoted(input@)) {
            (Some(a), Some(b)) => a@ == b,
            (None, None) => true,
            _ => false,
        },
{
    let s = chars_of(input);
    let n = s.len();
    proof {
        lemma_skip_whitespace_bounds(s@, 0);
    }
    let first = skip_whitespace_from(s.as_slice(), 0);
    let ghost t = trim_start(s@);
    assert(t =~= s@.subrange(first as int, n as int));
    if first >= n || s[first] != '"' {
        return None;
    }
    assert(t[0] == '"');
    assert(spec_parse_quoted(input@) == unquote_from(t, 1, false));
    let mut result = String::new();
    let mut escaped = false;
    let mut i = first + 1;
    while i < n
        invariant
            first < i <= n,
            n == s@.len(),
            t == s@.subrange(first as int, n as int),
            spec_parse_quoted(input@) == unquote_from(t, 1, false),
            unquote_from(t, 1, false) == match unquote_from(t, i - first, escaped) {
                Some(rest) => Some(result@ + rest),
                None => None,
            },
        decreases n - i,
    {
        let ch = s[i];
        let ghost k = i - first;
        assert(t[k] == ch);
        if escaped {
            let decoded = if ch == 'n' {
                '\n'
            } else if ch == 'r' {
                '\r'
            } else if ch == 't' {
                '\t'
            } else {
                ch
            };
            proof {
                match unquote_from(t, k + 1, false) {
                    Some(rest) => {
                        assert(result@.push(decoded) + rest =~= result@ + (seq![decoded] + rest));
                    },
                    None => {},
                }
            }
            push_char(&mut result, decoded);
            escaped = false;
        } else if ch == '\\' {
            escaped = true;
        } else if ch == '"' {
            assert(unquote_from(t, k, false) == Some(Seq::<char>::empty()));
            assert(result@ + Seq::<char>::empty() =~= result@);
            return Some(result);
        } else {
            proof {
                match unquote_from(t, k + 1, false) {
                    Some(rest) => {
                        assert(result@.push(ch) + rest =~= result@ + (seq![ch] + rest));
                    },
                    None => {},
                }
            }
            push_char(&mut result, ch);
        }
        i = i + 1;
    }
    None
}

/// Index of the delimiter matching the fragment that starts at character
/// index `start` of `s`.
pub fn matching_delimiter_at(s: &[char], start: usize, open: char, close: char) -> (r: Option<
    usize,
>)
    requires
        start <= s@.len(),
    ensures
        match r {
            Some(j) => matching_delimiter(s@, start as int, open, close) == Some(j as int),
            None => matching_delimiter(s@, start as int, open, close) is None,
        },
{
    let n = s.len();
    let mut depth: usize = 0;
    let mut in_string = false;
    let mut escaped = false;
    let mut i = start;
    while i < n
        invariant
            start <= i <= n,
            n == s@.len(),
            depth <= i - start,
            escaped ==> in_string,
            matching_delimiter(s@, start as int, open, close) == delimiter_end(
                s@,
                i as int,
                depth as nat,
                in_string,
                escaped,
                open,
                close,
            ),
        decreases n - i,
    {
        let ch = s[i];
        if in_string {
            if escaped {
                escaped = false;
            } else if ch == '\\' {
                escaped = true;
            } else if ch == '"' {
                in_string = false;
            }
        } else if ch == '"' {
            in_string = true;
        } else if ch == open {
            depth = depth + 1;
        } else if ch == close {
            if depth == 0 {
                return None;
            }
            if depth == 1 {
                return Some(i);
            }
            depth = depth - 1;
        }
        i = i + 1;
    }
    None
}

/// The byte offset of character index `k` of `s`, whose encoding is
/// `total` bytes long.
fn byte_offset_of(s: &[char], total: usize, k: usize) -> (r: usize)
    requires
        k <= s@.len(),
        total == utf8_len(s@),
    ensures
        r == byte_offset(s@, k as int),
{
    let mut i: usize = 0;
    let mut b: usize = 0;
    assert(s@.subrange(0, s@.len() as int) =~= s@);
    while i < k
        invariant
            i <= k <= s@.len(),
            b == byte_offset(s@, i as int),
            total == byte_offset(s@, s@.len() as int),
        decreases k - i,
    {
        proof {
            lemma_byte_offset_step(s@, i as int);
            lemma_byte_offset_monotone(s@, i + 1, s@.len() as int);
        }
        b = b + char_utf8_width(s[i]);
        i = i + 1;
    }
    b
}

/// The character index whose byte offset in `s` is `start`.
fn char_index_of(s: &[char], total: usize, start: usize) -> (r: usize)
    requires
        total == utf8_len(s@),
        exists|k: int| 0 <= k <= s@.len() && byte_offset(s@, k) == start,
    ensures
        r <= s@.len(),
        byte_offset(s@, r as int) == start,
{
    let ghost kstar = choose|k: int| 0 <= k <= s@.len() && byte_offset(s@, k) == start;
    let mut i: usize = 0;
    let mut b: usize = 0;
    proof {
        assert(s@.subrange(0, 0) =~= Seq::<char>::empty());
    }
    while b < start
        invariant
            0 <= kstar <= s@.len(),
            byte_offset(s@, kstar) == start,
            i <= kstar,
            b == byte_offset(s@, i as int),
        decreases kstar - i,
    {
        proof {
            if i == kstar {
                assert(false);
            }
            lemma_byte_offset_step(s@, i as int);
            lemma_byte_offset_monotone(s@, i + 1, kstar);
        }
        b = b + char_utf8_width(s[i]);
        i = i + 1;
    }
    proof {
        if i < kstar {
            lemma_byte_offset_monotone(s@, i as int, kstar);
        }
    }
    i
}

/// Finds the delimiter matching the fragment that starts at byte offset
/// `start`, ignoring delimiters inside string literals, and returns its
/// byte offset.
pub fn find_matching_delimiter(input: &str, start: usize, open: char, close: char) -> (r: Option<
    usize,
>)
    requires
        exists|k: int| 0 <= k <= input@.len() && byte_offset(input@, k) == start,
    ensures
        forall|k: int|
            0 <= k <= input@.len() && byte_offset(input@, k) == start ==> match matching_delimiter(
                input@,
                k,
                open,
                close,
            ) {
                Some(j) => r == Some(byte_offset(input@, j) as usize),
                None => r is None,
            },
{
    let s = chars_of(input);
    let total = input.as_bytes().len();
    proof {
        assert(input@.subrange(0, input@.len() as int) =~= input@);
        assert forall|k1: int, k2: int|
            0 <= k1 <= input@.len() && 0 <= k2 <= input@.len() && byte_offset(input@, k1)
                == byte_offset(input@, k2) implies k1 == k2 by {
            if k1 < k2 {
                lemma_byte_offset_monotone(input@, k1, k2);
            }
            if k2 < k1 {
                lemma_byte_offset_monotone(input@, k2, k1);
            }
        }
    }
    let k = char_index_of(s.as_slice(), total, start);
    match matching_delimiter_at(s.as_slice(), k, open, close) {
        None => None,
        Some(j) => {
            proof {
                lemma_delimiter_end_bounds(s@, k as int, 0, false, false, open, close);
            }
            Some(byte_offset_of(s.as_slice(), total, j))
        },
    }
}

/// Scanning stops at the matching delimiter, so cutting the text anywhere
/// after it does not change the result.
pub proof fn lemma_delimiter_end_prefix(
    s: Seq<char>,
    m: int,
    i: int,
    depth: nat,
    in_string: bool,
    escaped: bool,
    open: char,
    close: char,
)
    requires
        delimiter_end(s, i, depth, in_string, escaped, open, close) matches Some(j) && j < m <= s.len(),
    ensures
        delimiter_end(s.subrange(0, m), i, depth, in_string, escaped, open, close) == delimiter_end(
            s,
            i,
            depth,
            in_string,
            escaped,
            open,
            close,
        ),
    decreases s.len() - i,
{
    lemma_delimiter_end_bounds(s, i, depth, in_string, escaped, open, close);
    let t = s.subrange(0, m);
    assert(t[i] == s[i]);
    if in_string {
        if escaped {
            lemma_delimiter_end_prefix(s, m, i + 1, depth, true, false, open, close);
        } else if s[i] == '\\' {
            lemma_delimiter_end_prefix(s, m, i + 1, depth, true, true, open, close);
        } else if s[i] == '"' {
            lemma_delimiter_end_prefix(s, m, i + 1, depth, false, false, open, close);
        } else {
            lemma_delimiter_end_prefix(s, m, i + 1, depth, true, false, open, close);
        }
    } else if s[i] == '"' {
        lemma_delimiter_end_prefix(s, m, i + 1, depth, true, false, open, close);
    } else if s[i] == open {
        lemma_delimiter_end_prefix(s, m, i + 1, depth + 1, false, false, open, close);
    } else if s[i] == close {
        if depth > 1 {
            lemma_delimiter_end_prefix(s, m, i + 1, (depth - 1) as nat, false, false, open, close);
        }
    } else {
        lemma_delimiter_end_prefix(s, m, i + 1, depth, false, false, open, close);
    }
}

/// An object member is a balanced fragment: it opens with `{`, and the `}`
/// that matches that brace is its last character.
pub proof fn law_object_member_is_balanced(s: Seq<char>, key: Seq<char>)
    ensures
        spec_object_member(s, key) matches Ok(Some(o)) ==> o.len() >= 2 && o[0] == '{' && o[o.len()
            - 1] == '}' && matching_delimiter(o, 0, '{', '}') == Some(o.len() - 1),
{
    if let MemberView::Value(t) = spec_member(s, key) {
        if t.len() > 0 && t[0] == '{' {
            if let Some(e) = matching_delimiter(t, 0, '{', '}') {
                lemma_delimiter_end_bounds(t, 0, 0, false, false, '{', '}');
                lemma_delimiter_end_prefix(t, e + 1, 0, 0, false, false, '{', '}');
            }
        }
    }
}

/// An array member is the interior of a balanced `[...]` fragment.
pub proof fn law_array_member_is_interior(s: Seq<char>, key: Seq<char>)
    ensures
        spec_array_member(s, key) matches Ok(Some(a)) ==> ({
            let t = seq!['['] + a + seq![']'];
            matching_delimiter(t, 0, '[', ']') == Some(t.len() - 1)
        }),
{
    if let MemberView::Value(t) = spec_member(s, key) {
        if t.len() > 0 && t[0] == '[' {
            if let Some(e) = matching_delimiter(t, 0, '[', ']') {
                lemma_delimiter_end_bounds(t, 1, 1, false, false, '[', ']');
                lemma_delimiter_end_prefix(t, e + 1, 0, 0, false, false, '[', ']');
                let a = t.subrange(1, e);
                assert(seq!['['] + a + seq![']'] =~= t.subrange(0, e + 1));
            }
        }
    }
}

proof fn lemma_objects_from_balanced(s: Seq<char>, cursor: int)
    ensures
        objects_from(s, cursor) matches Some(objs) ==> forall|k: int|
            0 <= k < objs.len() ==> (#[trigger] objs[k]).len() >= 2 && objs[k][0] == '{'
                && objs[k][objs[k].len() - 1] == '}' && matching_delimiter(objs[k], 0, '{', '}')
                == Some(objs[k].len() - 1),
    decreases s.len() - cursor,
{
    if 0 <= cursor < s.len() {
        lemma_find_from_bounds(s, seq!['{'], cursor);
        if let Some(st) = find_from(s, seq!['{'], cursor) {
            if let Some(e) = matching_delimiter(s, st, '{', '}') {
                lemma_delimiter_end_bounds(s, st, 0, false, false, '{', '}');
                lemma_objects_from_balanced(s, e + 1);
                if let Some(rest) = objects_from(s, e + 1) {
                    let o = s.subrange(st, e + 1);
                    let tail = s.subrange(st, s.len() as int);
                    assert(s.subrange(st, st + 1)[0] == s[st]);
                    assert(o[0] == '{');
                    assert(o[o.len() - 1] == s[e]);
                    lemma_delimiter_end_shift(s, st, 0, false, false, '{', '}');
                    lemma_delimiter_end_prefix(tail, e - st + 1, 0, 0, false, false, '{', '}');
                    assert(tail.subrange(0, e - st + 1) =~= o);
                    let objs = seq![o] + rest;
                    assert forall|k: int| 0 <= k < objs.len() implies (#[trigger] objs[k]).len() >= 2
                        && objs[k][0] == '{' && objs[k][objs[k].len() - 1] == '}'
                        && matching_delimiter(objs[k], 0, '{', '}') == Some(objs[k].len() - 1) by {
                        if k > 0 {
                            assert(objs[k] == rest[k - 1]);
                        }
                    }
                }
            }
        }
    }
}

/// Scanning from index `i` of `s` is scanning from 0 of `s[i..]`, shifted.
pub proof fn lemma_delimiter_end_shift(
    s: Seq<char>,
    i: int,
    depth: nat,
    in_string: bool,
    escaped: bool,
    open: char,
    close: char,
)
    requires
        0 <= i <= s.len(),
    ensures
        delimiter_end(s, i, depth, in_string, escaped, open, close) == match delimiter_end(
            s.subrange(i, s.len() as int),
            0,
            depth,
            in_string,
            escaped,
            open,
            close,
        ) {
            Some(j) => Some(j + i),
            None => None,
        },
{
    lemma_delimiter_end_shift_from(s, i, 0, depth, in_string, escaped, open, close);
}

proof fn lemma_delimiter_end_shift_from(
    s: Seq<char>,
    i: int,
    k: int,
    depth: nat,
    in_string: bool,
    escaped: bool,
    open: char,
    close: char,
)
    requires
        0 <= i <= s.len(),
        0 <= k,
    ensures
        delimiter_end(s, i + k, depth, in_string, escaped, open, close) == match delimiter_end(
            s.subrange(i, s.len() as int),
            k,
            depth,
            in_string,
            escaped,
            open,
            close,
        ) {
            Some(j) => Some(j + i),
            None => None,
        },
    decreases s.len() - (i + k),
{
    let t = s.subrange(i, s.len() as int);
    if i + k < s.len() {
        assert(t[k] == s[i + k]);
        lemma_delimiter_end_shift_from(s, i, k + 1, depth, true, false, open, close);
        lemma_delimiter_end_shift_from(s, i, k + 1, depth, true, true, open, close);
        lemma_delimiter_end_shift_from(s, i, k + 1, depth, false, false, open, close);
        lemma_delimiter_end_shift_from(s, i, k + 1, depth + 1, false, false, open, close);
        if depth > 1 {
            lemma_delimiter_end_shift_from(s, i, k + 1, (depth - 1) as nat, false, false, open, close);
        }
    }
}

/// Every fragment that `top_level_objects` returns is a balanced object.
pub proof fn law_top_level_objects_are_balanced(s: Seq<char>)
    ensures
        spec_top_level_objects(s) matches Some(objs) ==> forall|k: int|
            0 <= k < objs.len() ==> (#[trigger] objs[k]).len() >= 2 && objs[k][0] == '{'
                && objs[k][objs[k].len() - 1] == '}' && matching_delimiter(objs[k], 0, '{', '}')
                == Some(objs[k].len() - 1),
{
    lemma_objects_from_balanced(s, 0);
}

proof fn lemma_unquote_plain(w: Seq<char>, k: int)
    requires
        0 <= k <= w.len(),
        forall|i: int| 0 <= i < w.len() ==> #[trigger] w[i] != '"' && w[i] != '\\',
    ensures
        unquote_from(seq!['"'] + w + seq!['"'], k + 1, false) == Some(w.subrange(k, w.len() as int)),
    decreases w.len() - k,
{
    let q = seq!['"'] + w + seq!['"'];
    if k == w.len() {
        assert(q[k + 1] == '"');
        assert(w.subrange(k, w.len() as int) =~= Seq::<char>::empty());
    } else {
        assert(q[k + 1] == w[k]);
        lemma_unquote_plain(w, k + 1);
        assert(seq![w[k]] + w.subrange(k + 1, w.len() as int) =~= w.subrange(k, w.len() as int));
    }
}

/// Quoting a text without quotes or backslashes and parsing it back gives
/// the text.
pub proof fn law_parse_quoted_of_plain_text(w: Seq<char>)
    requires
        forall|i: int| 0 <= i < w.len() ==> #[trigger] w[i] != '"' && w[i] != '\\',
    ensures
        spec_parse_quoted(seq!['"'] + w + seq!['"']) == Some(w),
{
    let q = seq!['"'] + w + seq!['"'];
    assert(q[0] == '"');
    assert(skip_whitespace(q, 0) == 0);
    assert(trim_start(q) =~= q);
    lemma_unquote_plain(w, 0);
    assert(w.subrange(0, w.len() as int) =~= w);
}

} // verus!
