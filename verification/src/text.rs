//! Text and lines: cutting a text into lines, joining lines into a text, and
//! writing a line number in decimal.

use vstd::prelude::*;
use vstd::string::StringExecFns;

verus! {

/// The line terminator.
pub open spec fn terminator() -> char {
    '\n'
}

/// `s` is a single line: it holds no terminator.
pub open spec fn is_line(s: Seq<char>) -> bool {
    forall|i: int| 0 <= i < s.len() ==> s[i] != terminator()
}

/// Each of `lines` is a single line.
pub open spec fn are_lines(lines: Seq<Seq<char>>) -> bool {
    forall|i: int| 0 <= i < lines.len() ==> is_line(#[trigger] lines[i])
}

/// The lines that a vector of strings holds, each as its characters.
pub open spec fn text_of(lines: Seq<String>) -> Seq<Seq<char>> {
    lines.map_values(|s: String| s@)
}

/// `lines` joined into one text, with a terminator between each two
/// neighbours and none at the end.
pub open spec fn joined(lines: Seq<Seq<char>>) -> Seq<char>
    decreases lines.len(),
{
    if lines.len() == 0 {
        Seq::empty()
    } else if lines.len() == 1 {
        lines[0]
    } else {
        joined(lines.drop_last()).push(terminator()) + lines.last()
    }
}

/// `text` cut at each terminator: one piece more than there are terminators.
pub open spec fn pieces(text: Seq<char>) -> Seq<Seq<char>>
    decreases text.len(),
{
    if text.len() == 0 {
        seq![Seq::empty()]
    } else {
        let before = pieces(text.drop_last());
        if text.last() == terminator() {
            before.push(Seq::empty())
        } else {
            before.drop_last().push(before.last().push(text.last()))
        }
    }
}

/// The lines of `text`. The empty text has no line at all; any other text is
/// cut at each terminator, so that a text which ends in a terminator has an
/// empty last line.
pub open spec fn lines_of(text: Seq<char>) -> Seq<Seq<char>> {
    if text.len() == 0 {
        Seq::empty()
    } else {
        pieces(text)
    }
}

/// The character that stands for a digit's value.
pub open spec fn digit_char(d: nat) -> char
    recommends
        d < 10,
{
    (48 + d) as u8 as char
}

/// The decimal digits of `n`, the most significant first, without leading
/// zeros.
pub open spec fn decimal_digits(n: nat) -> Seq<char>
    decreases n,
{
    if n < 10 {
        seq![digit_char(n)]
    } else {
        decimal_digits(n / 10).push(digit_char(n % 10))
    }
}

/// The lines numbered `first` to `last`, counted from 1, each behind its
/// number in decimal and a tab.
pub open spec fn numbered(lines: Seq<Seq<char>>, first: int, last: int) -> Seq<Seq<char>> {
    Seq::new(
        (last - first + 1) as nat,
        |i: int| decimal_digits((first + i) as nat).push('\t') + lines[first - 1 + i],
    )
}

/// `String::push` of the standard library, taken on trust: it puts the
/// character behind the last one of the string and changes nothing else.
pub assume_specification[ String::push ](s: &mut String, c: char)
    ensures
        final(s)@ == old(s)@.push(c),
;

/// Cuts `text` into its lines.
pub fn split_lines(text: &str) -> (lines: Vec<String>)
    ensures
        text_of(lines@) == lines_of(text@),
{
    let mut lines: Vec<String> = Vec::new();
    if text.is_empty() {
        assert(text_of(lines@) =~= Seq::empty());
        return lines;
    }
    let mut line = String::new();
    for c in it: text.chars()
        invariant
            it.seq() == text@,
            text_of(lines@).push(line@) == pieces(text@.take(it.index())),
    {
        proof {
            assert(c == text@[it.index()]);
            assert(text@.take(it.index() + 1).drop_last() =~= text@.take(it.index()));
        }
        if c == '\n' {
            let ghost before = text_of(lines@);
            lines.push(line);
            line = String::new();
            assert(text_of(lines@) =~= before.push(lines@.last()@));
        } else {
            let ghost before = line@;
            line.push(c);
            assert(text_of(lines@).push(before).drop_last() =~= text_of(lines@));
        }
    }
    let ghost before = text_of(lines@);
    lines.push(line);
    assert(text_of(lines@) =~= before.push(lines@.last()@));
    assert(text@.take(text@.len() as int) =~= text@);
    lines
}

/// Appends the decimal digits of `n` to `s`.
pub fn push_decimal(s: &mut String, n: usize)
    ensures
        final(s)@ == old(s)@ + decimal_digits(n as nat),
    decreases n,
{
    if n >= 10 {
        push_decimal(s, n / 10);
    }
    let d: u8 = (n % 10) as u8;
    s.push((48 + d) as char);
    assert(final(s)@ =~= old(s)@ + decimal_digits(n as nat));
}

/// Copies of the lines from index `start` up to, not including, index `end`.
pub fn copy_lines(lines: &Vec<String>, start: usize, end: usize) -> (copy: Vec<String>)
    requires
        start <= end <= lines@.len(),
    ensures
        text_of(copy@) == text_of(lines@).subrange(start as int, end as int),
{
    let mut copy: Vec<String> = Vec::new();
    let mut i: usize = start;
    while i < end
        invariant
            start <= i <= end <= lines@.len(),
            text_of(copy@) == text_of(lines@).subrange(start as int, i as int),
        decreases end - i,
    {
        let ghost before = text_of(copy@);
        copy.push(lines[i].clone());
        i = i + 1;
        assert(text_of(copy@) =~= before.push(lines@[i - 1]@));
        assert(text_of(copy@) =~= text_of(lines@).subrange(start as int, i as int));
    }
    copy
}

/// The lines from index `start` up to, not including, index `end`, each
/// behind its number and a tab. The line at index 0 has the number 1.
pub fn number_lines(lines: &Vec<String>, start: usize, end: usize) -> (out: Vec<String>)
    requires
        start <= end <= lines@.len(),
    ensures
        text_of(out@) == numbered(text_of(lines@), start + 1, end as int),
{
    let mut out: Vec<String> = Vec::new();
    let mut i: usize = start;
    while i < end
        invariant
            start <= i <= end <= lines@.len(),
            text_of(out@) == numbered(text_of(lines@), start + 1, i as int),
        decreases end - i,
    {
        let ghost before = text_of(out@);
        let mut line = String::new();
        push_decimal(&mut line, i + 1);
        line.push('\t');
        line.append(lines[i].as_str());
        out.push(line);
        i = i + 1;
        assert(text_of(out@) =~= before.push(out@.last()@));
        assert(Seq::<char>::empty() + decimal_digits(i as nat) =~= decimal_digits(i as nat));
        assert(text_of(out@) =~= numbered(text_of(lines@), start + 1, i as int));
    }
    out
}

/// The lines from index `start` up to, not including, index `end`, joined
/// into one text.
pub fn join_lines(lines: &Vec<String>, start: usize, end: usize) -> (text: String)
    requires
        start <= end <= lines@.len(),
    ensures
        text@ == joined(text_of(lines@).subrange(start as int, end as int)),
{
    let mut text = String::new();
    let mut i: usize = start;
    while i < end
        invariant
            start <= i <= end <= lines@.len(),
            text@ == joined(text_of(lines@).subrange(start as int, i as int)),
        decreases end - i,
    {
        let ghost done = text_of(lines@).subrange(start as int, i as int);
        let ghost next = text_of(lines@).subrange(start as int, i + 1);
        if i > start {
            text.push('\n');
        }
        text.append(lines[i].as_str());
        proof {
            assert(next.drop_last() =~= done);
            assert(next.last() == lines@[i as int]@);
            if i == start {
                assert(text@ =~= next[0]);
            }
        }
        i = i + 1;
    }
    text
}

} // verus!
