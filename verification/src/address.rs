//! Symbolic addresses of lines and spans of lines.

use std::ops::Range;
use vstd::prelude::*;

verus! {

/// A reference to one line, still independent of any buffer.
#[derive(Debug, Clone, Copy, PartialEq, Eq, Structural)]
pub enum Address {
    /// The line the cursor stands on.
    Current,
    /// The last line of the buffer.
    Last,
    /// The line with the given number, counted from 1.
    Nth(usize),
    /// The line that many lines before the cursor.
    NthPrevious(usize),
    /// The line that many lines after the cursor.
    NthNext(usize),
}

/// One line, or the inclusive span from a first line to a last one.
#[derive(Debug, Clone, Copy, PartialEq, Eq)]
pub enum AddressOrRange<T> {
    Address(T),
    AddressRange(T, T),
}

/// The whole buffer: what `,` stands for.
pub open spec fn whole_buffer() -> AddressOrRange<Address> {
    AddressOrRange::AddressRange(Address::Nth(1), Address::Last)
}

/// From the cursor to the last line: what `;` stands for.
pub open spec fn cursor_to_last() -> AddressOrRange<Address> {
    AddressOrRange::AddressRange(Address::Current, Address::Last)
}

/// The line under the cursor, as a span of one line.
pub open spec fn cursor_line() -> AddressOrRange<Address> {
    AddressOrRange::AddressRange(Address::Current, Address::Current)
}

impl AddressOrRange<usize> {
    /// The first line of the span, counted from 1.
    pub open spec fn first(self) -> int {
        match self {
            AddressOrRange::Address(a) => a as int,
            AddressOrRange::AddressRange(a, _) => a as int,
        }
    }

    /// The last line of the span, counted from 1.
    pub open spec fn last(self) -> int {
        match self {
            AddressOrRange::Address(a) => a as int,
            AddressOrRange::AddressRange(_, b) => b as int,
        }
    }

    /// The window of buffer indices that the span covers: counted from 0, the
    /// end not included. A single line `a` covers `a - 1 .. a`, the span from
    /// `a` to `b` covers `a - 1 .. b`.
    pub fn to_range(self) -> (range: Range<usize>)
        requires
            self.first() >= 1,
        ensures
            range.start == self.first() - 1,
            range.end == self.last(),
    {
        match self {
            AddressOrRange::Address(a) => (a - 1)..a,
            AddressOrRange::AddressRange(a, b) => (a - 1)..b,
        }
    }
}

} // verus!
