//! The editing session's state, a buffer of lines and a cursor, and the
//! resolution of symbolic addresses against it.

use crate::address::{Address, AddressOrRange};
use crate::text::{lines_of, split_lines, text_of};
use vstd::prelude::*;

verus! {

/// What a session's state holds, as mathematics: the lines, each as its
/// characters, and the cursor, a line number counted from 1 (0 where there is
/// no line).
pub struct StateView {
    pub lines: Seq<Seq<char>>,
    pub cursor: int,
}

impl StateView {
    /// The cursor stands on a line of the buffer, or is 0 where the buffer
    /// has no line.
    pub open spec fn wf(self) -> bool {
        if self.lines.len() == 0 {
            self.cursor == 0
        } else {
            1 <= self.cursor <= self.lines.len()
        }
    }
}

/// `lines` with the lines from index `start` up to, not including, index
/// `end` taken out and `input` put in their place. Indices count from 0.
pub open spec fn spliced(
    lines: Seq<Seq<char>>,
    start: int,
    end: int,
    input: Seq<Seq<char>>,
) -> Seq<Seq<char>> {
    lines.take(start) + input + lines.skip(end)
}

/// The line nearest to `target` in a buffer of `len` lines: `target` itself
/// where it is a line of the buffer, else the first or the last line, and 0
/// where the buffer has no line.
pub open spec fn settle(target: int, len: int) -> int {
    if len == 0 {
        0
    } else if target < 1 {
        1
    } else if target > len {
        len
    } else {
        target
    }
}

/// The line number that `address` denotes in a buffer of `len` lines with the
/// cursor on line `cursor`, before any bound is applied. It may be negative.
pub open spec fn denoted_line(address: Address, len: int, cursor: int) -> int {
    match address {
        Address::Current => cursor,
        Address::Last => len,
        Address::Nth(n) => n as int,
        Address::NthPrevious(n) => cursor - n,
        Address::NthNext(n) => cursor + n,
    }
}

/// The line of the buffer that `address` denotes: a number from 1 to `len`.
/// An address that denotes anything else denotes no line.
pub open spec fn resolve(address: Address, len: int, cursor: int) -> Option<int> {
    let line = denoted_line(address, len, cursor);
    if 1 <= line <= len {
        Some(line)
    } else {
        None
    }
}

/// The line after which new lines are appended: a number from 0, for the
/// head of the buffer, to `len`.
pub open spec fn resolve_append(address: Address, len: int, cursor: int) -> Option<int> {
    let line = denoted_line(address, len, cursor);
    if 0 <= line <= len {
        Some(line)
    } else {
        None
    }
}

/// The first and the last line of the span that `span` denotes. Both ends
/// must denote a line, and the first must not lie behind the last: a span
/// that runs backwards denotes nothing.
pub open spec fn resolve_span(span: AddressOrRange<Address>, len: int, cursor: int) -> Option<
    (int, int),
> {
    match span {
        AddressOrRange::Address(a) => match resolve(a, len, cursor) {
            Some(line) => Some((line, line)),
            None => None,
        },
        AddressOrRange::AddressRange(a, b) => match (
            resolve(a, len, cursor),
            resolve(b, len, cursor),
        ) {
            (Some(first), Some(last)) => if first <= last {
                Some((first, last))
            } else {
                None
            },
            _ => None,
        },
    }
}

/// The state of an editing session.
pub struct NedState {
    line_buffer: Vec<String>,
    current_address: usize,
}

impl View for NedState {
    type V = StateView;

    closed spec fn view(&self) -> StateView {
        StateView { lines: text_of(self.line_buffer@), cursor: self.current_address as int }
    }
}

impl NedState {
    #[verifier::type_invariant]
    spec fn valid(&self) -> bool {
        self@.wf()
    }

    /// A session on the given lines, with the cursor on the last of them.
    pub fn new(line_buffer: Vec<String>) -> (state: NedState)
        ensures
            state@.lines == text_of(line_buffer@),
            state@.cursor == line_buffer@.len(),
            state@.wf(),
    {
        let current_address: usize = line_buffer.len();
        NedState { line_buffer, current_address }
    }

    /// A session on the lines of `text`, with the cursor on the last of them.
    pub fn open(text: &str) -> (state: NedState)
        ensures
            state@.lines == lines_of(text@),
            state@.cursor == lines_of(text@).len(),
            state@.wf(),
    {
        NedState::new(split_lines(text))
    }

    /// The lines of the buffer.
    pub fn line_buffer(&self) -> (lines: &Vec<String>)
        ensures
            text_of(lines@) == self@.lines,
            self@.wf(),
    {
        proof {
            use_type_invariant(self);
        }
        &self.line_buffer
    }

    /// The cursor: the number of the line last acted upon.
    pub fn current_address(&self) -> (cursor: usize)
        ensures
            cursor == self@.cursor,
            self@.wf(),
    {
        proof {
            use_type_invariant(self);
        }
        self.current_address
    }

    /// Moves the cursor to `line`, or to the line of the buffer nearest to it.
    pub(crate) fn move_to(&mut self, line: usize)
        ensures
            final(self)@.lines == old(self)@.lines,
            final(self)@.cursor == settle(line as int, old(self)@.lines.len() as int),
    {
        let len: usize = self.line_buffer.len();
        assert(self@.lines.len() == len);
        self.current_address = if len == 0 {
            0
        } else if line < 1 {
            1
        } else if line > len {
            len
        } else {
            line
        };
    }

    /// Puts `input` in place of the lines from index `start` up to, not
    /// including, index `end`, and moves the cursor to the last line of
    /// `input`, or to the line nearest to where that would be.
    pub(crate) fn splice(&mut self, start: usize, end: usize, input: Vec<String>)
        requires
            start <= end <= old(self)@.lines.len(),
        ensures
            final(self)@.lines == spliced(
                old(self)@.lines,
                start as int,
                end as int,
                text_of(input@),
            ),
            final(self)@.cursor == settle(
                start + input@.len(),
                final(self)@.lines.len() as int,
            ),
    {
        let ghost new_lines = input@;
        let mut input = input;
        let mut taken = NedState { line_buffer: Vec::new(), current_address: 0 };
        std::mem::swap(self, &mut taken);
        let mut lines = taken.line_buffer;
        let ghost before = lines@;
        assert(text_of(before).len() == before.len());
        let mut tail = lines.split_off(end);
        let tail_len: usize = tail.len();
        lines.truncate(start);
        lines.append(&mut input);
        lines.append(&mut tail);
        let len: usize = lines.len();
        let line: usize = len - tail_len;
        let current_address: usize = if len == 0 {
            0
        } else if line < 1 {
            1
        } else {
            line
        };
        proof {
            assert(lines@ =~= before.take(start as int) + new_lines + before.skip(end as int));
            assert(text_of(lines@) =~= spliced(
                text_of(before),
                start as int,
                end as int,
                text_of(new_lines),
            ));
        }
        *self = NedState { line_buffer: lines, current_address };
    }

    /// The line number that `address` denotes, where it fits in `usize` and
    /// is not negative.
    fn denoted(&self, address: &Address) -> (line: Option<usize>)
        ensures
            match line {
                Some(n) => n == denoted_line(*address, self@.lines.len() as int, self@.cursor),
                None => {
                    let n = denoted_line(*address, self@.lines.len() as int, self@.cursor);
                    n < 0 || n > self@.lines.len()
                },
            },
    {
        let len: usize = self.line_buffer.len();
        assert(self@.lines.len() == len);
        match address {
            Address::Current => Some(self.current_address),
            Address::Last => Some(len),
            Address::Nth(n) => Some(*n),
            Address::NthPrevious(n) => self.current_address.checked_sub(*n),
            Address::NthNext(n) => self.current_address.checked_add(*n),
        }
    }

    /// Resolves `address` to a line of the buffer, or to `None` where it
    /// denotes no line of it.
    pub fn reify_address(&self, address: &Address) -> (line: Option<usize>)
        ensures
            match resolve(*address, self@.lines.len() as int, self@.cursor) {
                Some(n) => line matches Some(found) && found == n,
                None => line is None,
            },
    {
        match self.denoted(address) {
            Some(n) => if 1 <= n && n <= self.line_buffer.len() {
                Some(n)
            } else {
                None
            },
            None => None,
        }
    }

    /// Resolves `address` to the line after which an append puts its lines:
    /// a line of the buffer, or 0 for the head of the buffer.
    pub fn reify_append_address(&self, address: &Address) -> (line: Option<usize>)
        ensures
            match resolve_append(*address, self@.lines.len() as int, self@.cursor) {
                Some(n) => line matches Some(found) && found == n,
                None => line is None,
            },
    {
        match self.denoted(address) {
            Some(n) => if n <= self.line_buffer.len() {
                Some(n)
            } else {
                None
            },
            None => None,
        }
    }

    /// Resolves a single address or a span to lines of the buffer. The result
    /// is a single line where a single address was given, and a span where a
    /// span was given.
    pub fn reify_address_or_range(&self, address_or_range: &AddressOrRange<Address>) -> (r: Option<
        AddressOrRange<usize>,
    >)
        ensures
            match resolve_span(*address_or_range, self@.lines.len() as int, self@.cursor) {
                Some((first, last)) => r matches Some(found) && found.first() == first
                    && found.last() == last && (found is Address
                    <==> *address_or_range is Address),
                None => r is None,
            },
    {
        match address_or_range {
            AddressOrRange::Address(a) => match self.reify_address(a) {
                Some(line) => Some(AddressOrRange::Address(line)),
                None => None,
            },
            AddressOrRange::AddressRange(a, b) => match self.reify_address(a) {
                Some(first) => match self.reify_address(b) {
                    Some(last) => if first <= last {
                        Some(AddressOrRange::AddressRange(first, last))
                    } else {
                        None
                    },
                    None => None,
                },
                None => None,
            },
        }
    }
}

} // verus!
