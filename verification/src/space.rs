//! White space at the ends of a text.

use vstd::prelude::*;
use vstd::string::StrSliceExecFns;
use vstd::string::StringExecFns;

verus! {

/// The character is white space: a tab, a line end, a space or one of the
/// other spaces and separators of Unicode.
pub open spec fn is_space(c: char) -> bool {
    let n = c as int;
    (9 <= n <= 13) || n == 32 || n == 0x85 || n == 0xA0 || n == 0x1680 || (0x2000 <= n <= 0x200A)
        || n == 0x2028 || n == 0x2029 || n == 0x202F || n == 0x205F || n == 0x3000
}

/// The place of the first character of `s` at or after `from` that is not
/// white space, or the length of `s` where there is none.
pub open spec fn text_start(s: Seq<char>, from: int) -> int
    decreases s.len() - from,
{
    if from >= s.len() {
        s.len() as int
    } else if !is_space(s[from]) {
        from
    } else {
        text_start(s, from + 1)
    }
}

/// The place after the last character of `s` before `to` that is not white
/// space, or 0 where there is none.
pub open spec fn text_end(s: Seq<char>, to: int) -> int
    decreases to,
{
    if to <= 0 {
        0
    } else if !is_space(s[to - 1]) {
        to
    } else {
        text_end(s, to - 1)
    }
}

/// The text without the white space at its end.
pub open spec fn end_trimmed(s: Seq<char>) -> Seq<char> {
    s.subrange(0, text_end(s, s.len() as int))
}

/// The text without the white space at its start and its end.
pub open spec fn trimmed(s: Seq<char>) -> Seq<char> {
    let start = text_start(s, 0);
    let end = text_end(s, s.len() as int);
    if start < end {
        s.subrange(start, end)
    } else {
        Seq::empty()
    }
}

/// Whether the character is white space.
pub fn is_whitespace(c: char) -> (space: bool)
    ensures
        space == is_space(c),
{
    let n = c as u32;
    (9 <= n && n <= 13) || n == 32 || n == 0x85 || n == 0xA0 || n == 0x1680 || (0x2000 <= n && n
        <= 0x200A) || n == 0x2028 || n == 0x2029 || n == 0x202F || n == 0x205F || n == 0x3000
}

/// The place after the last character of `s` that is not white space.
fn find_end(s: &str) -> (end: usize)
    ensures
        end == text_end(s@, s@.len() as int),
        end <= s@.len(),
{
    let mut end = s.unicode_len();
    while end > 0
        invariant
            end <= s@.len(),
            text_end(s@, end as int) == text_end(s@, s@.len() as int),
        decreases end,
    {
        if !is_whitespace(s.get_char(end - 1)) {
            return end;
        }
        end = end - 1;
    }
    end
}

/// The place of the first character of `s` that is not white space.
fn find_start(s: &str) -> (start: usize)
    ensures
        start == text_start(s@, 0),
        start <= s@.len(),
{
    let n = s.unicode_len();
    let mut start: usize = 0;
    while start < n
        invariant
            start <= n,
            n == s@.len(),
            text_start(s@, start as int) == text_start(s@, 0),
        decreases n - start,
    {
        if !is_whitespace(s.get_char(start)) {
            return start;
        }
        start = start + 1;
    }
    start
}

/// The text without the white space at its end.
pub fn trim_end_text(s: &str) -> (t: String)
    ensures
        t@ == end_trimmed(s@),
{
    String::from_str(s.substring_char(0, find_end(s)))
}

/// The text without the white space at its start and its end.
pub fn trim_text(s: &str) -> (t: String)
    ensures
        t@ == trimmed(s@),
{
    let start = find_start(s);
    let end = find_end(s);
    if start < end {
        String::from_str(s.substring_char(start, end))
    } else {
        String::new()
    }
}

} // verus!
