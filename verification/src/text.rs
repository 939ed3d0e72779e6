//! Verified text helpers: whitespace trimming, splitting into lines, and the
//! bullet-list and line-joining shapes that the two Debian files are built
//! from.

use vstd::prelude::*;
use vstd::string::StrSliceExecFns;

verus! {

/// The characters with the Unicode `White_Space` property; these are the
/// characters that trimming removes from either end of a string.
pub open spec fn is_space(c: char) -> bool {
    let n = c as u32;
    ||| n == 0x09
    ||| n == 0x0a
    ||| n == 0x0b
    ||| n == 0x0c
    ||| n == 0x0d
    ||| n == 0x20
    ||| n == 0x85
    ||| n == 0xa0
    ||| n == 0x1680
    ||| (0x2000 <= n && n <= 0x200a)
    ||| n == 0x2028
    ||| n == 0x2029
    ||| n == 0x202f
    ||| n == 0x205f
    ||| n == 0x3000
}

/// Decides `is_space` for one character.
pub fn is_space_char(c: char) -> (r: bool)
    ensures
        r == is_space(c),
{
    let n: u32 = c as u32;
    n == 0x09 || n == 0x0a || n == 0x0b || n == 0x0c || n == 0x0d || n == 0x20 || n == 0x85
        || n == 0xa0 || n == 0x1680 || (0x2000 <= n && n <= 0x200a) || n == 0x2028 || n == 0x2029
        || n == 0x202f || n == 0x205f || n == 0x3000
}

/// Index of the first non-whitespace character at or after `i`, or the length
/// of `s` when everything from `i` on is whitespace.
pub open spec fn first_non_space(s: Seq<char>, i: int) -> int
    decreases s.len() - i,
{
    if i < 0 || i >= s.len() {
        s.len() as int
    } else if is_space(s[i]) {
        first_non_space(s, i + 1)
    } else {
        i
    }
}

/// One past the index of the last non-whitespace character strictly before
/// `j`, or `0` when everything before `j` is whitespace.
pub open spec fn end_non_space(s: Seq<char>, j: int) -> int
    decreases j,
{
    if j <= 0 || j > s.len() {
        0
    } else if is_space(s[j - 1]) {
        end_non_space(s, j - 1)
    } else {
        j
    }
}

/// `s` with leading and trailing whitespace removed.
pub open spec fn spec_trim(s: Seq<char>) -> Seq<char> {
    let a = first_non_space(s, 0);
    if a == s.len() {
        Seq::empty()
    } else {
        s.subrange(a, end_non_space(s, s.len() as int))
    }
}

/// Removes leading and trailing whitespace.
pub fn trim_str(s: &str) -> (r: String)
    ensures
        r@ == spec_trim(s@),
{
    let n = s.unicode_len();
    let mut a: usize = 0;
    while a < n && is_space_char(s.get_char(a))
        invariant
            0 <= a <= n,
            n == s@.len(),
            first_non_space(s@, 0) == first_non_space(s@, a as int),
        decreases n - a,
    {
        assert(first_non_space(s@, a as int) == first_non_space(s@, a + 1));
        a = a + 1;
    }
    if a == n {
        assert(first_non_space(s@, 0) == s@.len());
        return String::new();
    }
    assert(first_non_space(s@, 0) == a);
    assert(!is_space(s@[a as int]));
    let mut b: usize = n;
    while b > a && is_space_char(s.get_char(b - 1))
        invariant
            a < b <= n,
            n == s@.len(),
            a < s@.len(),
            !is_space(s@[a as int]),
            end_non_space(s@, n as int) == end_non_space(s@, b as int),
        decreases b,
    {
        assert(end_non_space(s@, b as int) == end_non_space(s@, b - 1));
        assert(b - 1 > a) by {
            if b - 1 == a {
                assert(is_space(s@[a as int]));
            }
        }
        b = b - 1;
    }
    assert(end_non_space(s@, b as int) == b) by {
        if b > a {
            assert(!is_space(s@[b - 1]));
        }
    }
    let piece = s.substring_char(a, b);
    piece.to_owned()
}

/// The line with one trailing carriage return removed, as line splitting
/// strips it before a line feed.
pub open spec fn strip_cr(line: Seq<char>) -> Seq<char> {
    if line.len() > 0 && line.last() == '\r' {
        line.drop_last()
    } else {
        line
    }
}

/// The lines of `s` from position `i` on, with `cur` the part of the current
/// line already read. Lines end at `'\n'`; a `"\r\n"` ending loses the
/// `'\r'`; a final line without a terminator is kept as it stands, and a
/// trailing terminator adds no empty final line.
pub open spec fn lines_from(s: Seq<char>, i: int, cur: Seq<char>) -> Seq<Seq<char>>
    decreases s.len() - i,
{
    if i < 0 || i >= s.len() {
        if cur.len() == 0 {
            Seq::empty()
        } else {
            seq![cur]
        }
    } else if s[i] == '\n' {
        seq![strip_cr(cur)] + lines_from(s, i + 1, Seq::empty())
    } else {
        lines_from(s, i + 1, cur.push(s[i]))
    }
}

/// The lines of `s`, split as `str::lines` splits.
pub open spec fn spec_lines(s: Seq<char>) -> Seq<Seq<char>> {
    lines_from(s, 0, Seq::empty())
}

/// A non-empty line as one changelog bullet; an empty line disappears.
pub open spec fn bullet_piece(line: Seq<char>) -> Seq<char> {
    if line.len() == 0 {
        Seq::empty()
    } else {
        "  * "@ + line + "\n"@
    }
}

/// The bullet list built from `lines`, one bullet per non-empty line.
pub open spec fn spec_bullets(lines: Seq<Seq<char>>) -> Seq<char>
    decreases lines.len(),
{
    if lines.len() == 0 {
        Seq::empty()
    } else {
        bullet_piece(lines.first()) + spec_bullets(lines.drop_first())
    }
}

/// The fields joined one per line, each line ended by `'\n'`, from index `i`
/// on.
pub open spec fn joined_lines_from(fields: Seq<Seq<char>>, i: int) -> Seq<char>
    decreases fields.len() - i,
{
    if i < 0 || i >= fields.len() {
        Seq::empty()
    } else {
        fields[i] + "\n"@ + joined_lines_from(fields, i + 1)
    }
}

} // verus!
