//! Reading the file of pinned folders. Each line is `path|name`, the bar and
//! the name being optional; blank lines and lines that start with `#` say
//! nothing.

use crate::text::chars_of;
use vstd::prelude::*;
use vstd::string::StringExecFns;

verus! {

/// What one line of the file says: a path, and a name if it gives one.
#[derive(Debug, Clone)]
pub struct PinnedLine {
    pub path: String,
    pub name: Option<String>,
}

/// What a `PinnedLine` holds, as characters.
pub struct PinnedEntry {
    pub path: Seq<char>,
    pub name: Option<Seq<char>>,
}

impl View for PinnedLine {
    type V = PinnedEntry;

    open spec fn view(&self) -> PinnedEntry {
        PinnedEntry {
            path: self.path@,
            name: match self.name {
                Some(n) => Some(n@),
                None => None,
            },
        }
    }
}

/// The entries of `lines`, each as characters.
pub open spec fn entries(lines: Seq<PinnedLine>) -> Seq<PinnedEntry> {
    Seq::new(lines.len(), |i: int| lines[i]@)
}

/// Whether `c` is white space: a character with the Unicode property
/// `White_Space`.
pub open spec fn is_space(c: char) -> bool {
    let n = c as u32;
    ||| 0x09 <= n <= 0x0d
    ||| n == 0x20
    ||| n == 0x85
    ||| n == 0xa0
    ||| n == 0x1680
    ||| 0x2000 <= n <= 0x200a
    ||| n == 0x2028
    ||| n == 0x2029
    ||| n == 0x202f
    ||| n == 0x205f
    ||| n == 0x3000
}

/// `s` without the white space it starts with.
pub open spec fn trim_start(s: Seq<char>) -> Seq<char>
    decreases s.len(),
{
    if s.len() > 0 && is_space(s.first()) {
        trim_start(s.drop_first())
    } else {
        s
    }
}

/// `s` without the white space it ends with.
pub open spec fn trim_end(s: Seq<char>) -> Seq<char>
    decreases s.len(),
{
    if s.len() > 0 && is_space(s.last()) {
        trim_end(s.drop_last())
    } else {
        s
    }
}

/// `s` without the white space around it.
pub open spec fn trimmed(s: Seq<char>) -> Seq<char> {
    trim_end(trim_start(s))
}

/// Where `c` first stands in `s`; the length of `s` if it does not.
pub open spec fn first_of(s: Seq<char>, c: char) -> int
    decreases s.len(),
{
    if s.len() == 0 || s.first() == c {
        0
    } else {
        1 + first_of(s.drop_first(), c)
    }
}

/// What the line `line` says, if anything.
pub open spec fn parsed_line(line: Seq<char>) -> Option<PinnedEntry> {
    let text = trimmed(line);
    if text.len() == 0 || text.first() == '#' {
        None
    } else {
        let bar = first_of(text, '|');
        Some(
            PinnedEntry {
                path: trimmed(text.subrange(0, bar)),
                name: if bar < text.len() {
                    Some(trimmed(text.subrange(bar + 1, text.len() as int)))
                } else {
                    None
                },
            },
        )
    }
}

/// What the file `text` says, line by line.
pub open spec fn parsed_text(text: Seq<char>) -> Seq<PinnedEntry>
    decreases text.len(),
{
    let end = first_of(text, '\n');
    let head = match parsed_line(text.subrange(0, end)) {
        Some(entry) => seq![entry],
        None => Seq::empty(),
    };
    if 0 <= end < text.len() {
        head + parsed_text(text.subrange(end + 1, text.len() as int))
    } else {
        head
    }
}

/// Whether `c` is white space.
pub fn is_whitespace(c: char) -> (space: bool)
    ensures
        space == is_space(c),
{
    let n: u32 = c as u32;
    (0x09 <= n && n <= 0x0d) || n == 0x20 || n == 0x85 || n == 0xa0 || n == 0x1680 || (0x2000 <= n
        && n <= 0x200a) || n == 0x2028 || n == 0x2029 || n == 0x202f || n == 0x205f || n
        == 0x3000
}

/// The part of `chars` between `from` and `to` that is left when the white
/// space around it is taken away.
fn trim_range(chars: &Vec<char>, from: usize, to: usize) -> (range: (usize, usize))
    requires
        from <= to <= chars@.len(),
    ensures
        from <= range.0 <= range.1 <= to,
        chars@.subrange(range.0 as int, range.1 as int) == trimmed(
            chars@.subrange(from as int, to as int),
        ),
{
    let mut lo: usize = from;
    while lo < to && is_whitespace(chars[lo])
        invariant
            from <= lo <= to <= chars@.len(),
            trim_start(chars@.subrange(from as int, to as int)) == trim_start(
                chars@.subrange(lo as int, to as int),
            ),
        decreases to - lo,
    {
        assert(chars@.subrange(lo as int, to as int).drop_first() =~= chars@.subrange(
            lo + 1,
            to as int,
        ));
        lo += 1;
    }
    let mut hi: usize = to;
    while hi > lo && is_whitespace(chars[hi - 1])
        invariant
            lo <= hi <= to <= chars@.len(),
            trim_end(chars@.subrange(lo as int, to as int)) == trim_end(
                chars@.subrange(lo as int, hi as int),
            ),
        decreases hi - lo,
    {
        assert(chars@.subrange(lo as int, hi as int).drop_last() =~= chars@.subrange(
            lo as int,
            hi - 1,
        ));
        hi -= 1;
    }
    (lo, hi)
}

/// The position of the first `c` between `from` and `to`; `to` if there is
/// none.
fn find_char(chars: &Vec<char>, from: usize, to: usize, c: char) -> (at: usize)
    requires
        from <= to <= chars@.len(),
    ensures
        from <= at <= to,
        at - from == first_of(chars@.subrange(from as int, to as int), c),
{
    let mut at: usize = from;
    while at < to && chars[at] != c
        invariant
            from <= at <= to <= chars@.len(),
            first_of(chars@.subrange(from as int, to as int), c) == (at - from) + first_of(
                chars@.subrange(at as int, to as int),
                c,
            ),
        decreases to - at,
    {
        assert(chars@.subrange(at as int, to as int).drop_first() =~= chars@.subrange(
            at + 1,
            to as int,
        ));
        at += 1;
    }
    at
}

/// Reads the line that stands in `text` between `from` and `to`.
fn parse_range(text: &str, chars: &Vec<char>, from: usize, to: usize) -> (line: Option<PinnedLine>)
    requires
        chars@ == text@,
        from <= to <= chars@.len(),
    ensures
        match line {
            Some(l) => parsed_line(text@.subrange(from as int, to as int)) == Some(l@),
            None => parsed_line(text@.subrange(from as int, to as int)) is None,
        },
{
    let (lo, hi) = trim_range(chars, from, to);
    if lo == hi || chars[lo] == '#' {
        return None;
    }
    let ghost body = chars@.subrange(lo as int, hi as int);
    let bar = find_char(chars, lo, hi, '|');
    let (path_lo, path_hi) = trim_range(chars, lo, bar);
    assert(chars@.subrange(lo as int, bar as int) =~= body.subrange(0, bar - lo));
    let path = text.substring_char(path_lo, path_hi).to_owned();
    let name = if bar < hi {
        let (name_lo, name_hi) = trim_range(chars, bar + 1, hi);
        assert(chars@.subrange(bar + 1, hi as int) =~= body.subrange(
            bar - lo + 1,
            body.len() as int,
        ));
        Some(text.substring_char(name_lo, name_hi).to_owned())
    } else {
        None
    };
    Some(PinnedLine { path, name })
}

/// Reads one line of the file: its path and, after a bar, its name, each
/// without the white space around it. A blank line and a comment give
/// nothing.
pub fn parse_line(line: &str) -> (parsed: Option<PinnedLine>)
    ensures
        match parsed {
            Some(l) => parsed_line(line@) == Some(l@),
            None => parsed_line(line@) is None,
        },
{
    let chars = chars_of(line);
    assert(line@.subrange(0, line@.len() as int) =~= line@);
    parse_range(line, &chars, 0, chars.len())
}

/// Reads the whole file: what each of its lines says, in order.
pub fn parse_file(text: &str) -> (lines: Vec<PinnedLine>)
    ensures
        entries(lines@) == parsed_text(text@),
{
    let chars = chars_of(text);
    let n: usize = chars.len();
    let mut lines: Vec<PinnedLine> = Vec::new();
    let mut start: usize = 0;
    assert(text@.subrange(0, n as int) =~= text@);
    assert(entries(lines@) + parsed_text(text@.subrange(0, n as int)) =~= parsed_text(text@));
    loop
        invariant_except_break
            entries(lines@) + parsed_text(text@.subrange(start as int, n as int)) == parsed_text(
                text@,
            ),
        invariant
            chars@ == text@,
            n == chars@.len(),
            start <= n,
        ensures
            entries(lines@) == parsed_text(text@),
        decreases n - start,
    {
        let ghost rest = text@.subrange(start as int, n as int);
        let ghost read = entries(lines@);
        let end = find_char(&chars, start, n, '\n');
        assert(rest.subrange(0, end - start) =~= text@.subrange(start as int, end as int));
        match parse_range(text, &chars, start, end) {
            Some(line) => {
                lines.push(line);
                assert(entries(lines@) =~= read + seq![line@]);
            },
            None => {},
        }
        if end < n {
            assert(rest.subrange(end - start + 1, rest.len() as int) =~= text@.subrange(
                end + 1,
                n as int,
            ));
            start = end + 1;
            assert(entries(lines@) + parsed_text(text@.subrange(start as int, n as int))
                =~= parsed_text(text@));
        } else {
            assert(entries(lines@) =~= parsed_text(text@));
            break ;
        }
    }
    lines
}

} // verus!
