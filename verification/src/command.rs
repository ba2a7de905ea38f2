//! The command grammar: an optional address or span, then one command letter.

use crate::address::{cursor_line, cursor_to_last, whole_buffer, Address, AddressOrRange};
use crate::digits::{decimal_value, digit_run, is_digit, read_number};
use vstd::prelude::*;
use vstd::string::StrSliceExecFns;

verus! {

/// An editing command with the lines it addresses.
#[derive(Debug, Clone, Copy, PartialEq, Eq)]
pub enum Command {
    /// Put new lines after the addressed line.
    Append(Address),
    /// Put new lines before the addressed line.
    Insert(Address),
    /// Show the addressed lines, each with its number.
    PrintNumbered(AddressOrRange<Address>),
    /// Show the addressed lines.
    Print(AddressOrRange<Address>),
    /// Put new lines in place of the addressed lines.
    Change(AddressOrRange<Address>),
    /// Remove the addressed lines.
    Delete(AddressOrRange<Address>),
    /// Write the addressed lines to the file.
    Save(AddressOrRange<Address>),
    /// End the session.
    Quit,
}

/// The address at the head of `s` and the number of characters it takes, or
/// `None` where `s` does not begin with an address. A digit run whose number
/// does not fit in `usize` is no address.
pub open spec fn address_at(s: Seq<char>) -> Option<(Address, int)> {
    if s.len() == 0 {
        None
    } else if s[0] == '.' {
        Some((Address::Current, 1))
    } else if s[0] == '$' {
        Some((Address::Last, 1))
    } else if s[0] == '-' {
        Some((Address::NthPrevious(1), 1))
    } else if s[0] == '+' {
        Some((Address::NthNext(1), 1))
    } else if is_digit(s[0]) {
        let n = digit_run(s) as int;
        let value = decimal_value(s.take(n));
        if value <= usize::MAX {
            Some((Address::Nth(value as usize), n))
        } else {
            None
        }
    } else {
        None
    }
}

/// The span that a shorthand at the head of `s` stands for: `,` for the
/// whole buffer, `;` for the lines from the cursor to the last.
pub open spec fn shorthand_at(s: Seq<char>) -> Option<AddressOrRange<Address>> {
    if s.len() == 0 {
        None
    } else if s[0] == ',' {
        Some(whole_buffer())
    } else if s[0] == ';' {
        Some(cursor_to_last())
    } else {
        None
    }
}

/// What stands at the head of `s` before the command letter's place, as far
/// as one address or one shorthand goes, and the number of characters taken.
pub open spec fn leading_at(s: Seq<char>) -> (Option<AddressOrRange<Address>>, int) {
    match address_at(s) {
        Some((a, n)) => (Some(AddressOrRange::Address(a)), n),
        None => match shorthand_at(s) {
            Some(r) => (Some(r), 1),
            None => (None, 0),
        },
    }
}

/// The command that `letter` makes with the lines `addr` given before it.
/// Without an address, `a` and `i` take the cursor, `n`, `p`, `c` and `d` the
/// line under the cursor, and `w` the whole buffer. `a` and `i` accept no
/// span, `q` accepts no address at all.
pub open spec fn command_for(letter: char, addr: Option<AddressOrRange<Address>>) -> Option<
    Command,
> {
    if letter == 'a' {
        match addr {
            Some(AddressOrRange::Address(a)) => Some(Command::Append(a)),
            Some(AddressOrRange::AddressRange(_, _)) => None,
            None => Some(Command::Append(Address::Current)),
        }
    } else if letter == 'i' {
        match addr {
            Some(AddressOrRange::Address(a)) => Some(Command::Insert(a)),
            Some(AddressOrRange::AddressRange(_, _)) => None,
            None => Some(Command::Insert(Address::Current)),
        }
    } else if letter == 'n' {
        Some(Command::PrintNumbered(on_lines(addr)))
    } else if letter == 'p' {
        Some(Command::Print(on_lines(addr)))
    } else if letter == 'c' {
        Some(Command::Change(on_lines(addr)))
    } else if letter == 'd' {
        Some(Command::Delete(on_lines(addr)))
    } else if letter == 'w' {
        match addr {
            Some(r) => Some(Command::Save(r)),
            None => Some(Command::Save(whole_buffer())),
        }
    } else if letter == 'q' {
        match addr {
            Some(_) => None,
            None => Some(Command::Quit),
        }
    } else {
        None
    }
}

/// The lines given, or the line under the cursor where none are given.
pub open spec fn on_lines(addr: Option<AddressOrRange<Address>>) -> AddressOrRange<Address> {
    match addr {
        Some(r) => r,
        None => cursor_line(),
    }
}

/// The command at the head of `s`, where `addr` was read before it: none
/// where `s` is empty or its first character makes no command with `addr`.
pub open spec fn command_at(s: Seq<char>, addr: Option<AddressOrRange<Address>>) -> Option<
    Command,
> {
    if s.len() == 0 {
        None
    } else {
        command_for(s[0], addr)
    }
}

/// The command that the line `s` holds. A single address followed by `,`
/// must be followed by a second address, and the two make a span. Whatever
/// follows the command letter is not looked at.
pub open spec fn parse(s: Seq<char>) -> Option<Command> {
    let (lead, n) = leading_at(s);
    let rest = s.skip(n);
    match lead {
        Some(AddressOrRange::Address(a)) if rest.len() > 0 && rest[0] == ',' => {
            match address_at(rest.skip(1)) {
                Some((b, m)) => command_at(
                    rest.skip(1).skip(m),
                    Some(AddressOrRange::AddressRange(a, b)),
                ),
                None => None,
            }
        },
        _ => command_at(rest, lead),
    }
}

/// Reads one address at the head of `command_str` and returns it with the
/// text behind it. Where there is no address the text comes back whole.
pub fn parse_address(command_str: &str) -> (r: (Option<Address>, &str))
    ensures
        match address_at(command_str@) {
            Some((a, n)) => r.0 == Some(a) && r.1@ == command_str@.skip(n),
            None => r.0 is None && r.1@ == command_str@,
        },
{
    let len: usize = command_str.unicode_len();
    if len == 0 {
        return (None, command_str);
    }
    let c = command_str.get_char(0);
    if c == '.' {
        (Some(Address::Current), command_str.substring_char(1, len))
    } else if c == '$' {
        (Some(Address::Last), command_str.substring_char(1, len))
    } else if c == '-' {
        (Some(Address::NthPrevious(1)), command_str.substring_char(1, len))
    } else if c == '+' {
        (Some(Address::NthNext(1)), command_str.substring_char(1, len))
    } else {
        let (n, value) = read_number(command_str);
        if n == 0 {
            return (None, command_str);
        }
        match value {
            Some(v) => (Some(Address::Nth(v)), command_str.substring_char(n, len)),
            None => (None, command_str),
        }
    }
}

/// Reads a shorthand at the head of `command_str` and returns the span it
/// stands for with the text behind it.
pub fn parse_address_range_shorthand(command_str: &str) -> (r: (
    Option<AddressOrRange<Address>>,
    &str,
))
    ensures
        r.0 == shorthand_at(command_str@),
        r.1@ == if r.0 is Some {
            command_str@.skip(1)
        } else {
            command_str@
        },
{
    let len: usize = command_str.unicode_len();
    if len == 0 {
        return (None, command_str);
    }
    let c = command_str.get_char(0);
    if c == ',' {
        (
            Some(AddressOrRange::AddressRange(Address::Nth(1), Address::Last)),
            command_str.substring_char(1, len),
        )
    } else if c == ';' {
        (
            Some(AddressOrRange::AddressRange(Address::Current, Address::Last)),
            command_str.substring_char(1, len),
        )
    } else {
        (None, command_str)
    }
}

/// Reads one address, or else one shorthand, at the head of `command_str`.
pub fn parse_leading_address(command_str: &str) -> (r: (Option<AddressOrRange<Address>>, &str))
    ensures
        r.0 == leading_at(command_str@).0,
        r.1@ == command_str@.skip(leading_at(command_str@).1),
{
    let (addr, remainder) = parse_address(command_str);
    match addr {
        Some(a) => (Some(AddressOrRange::Address(a)), remainder),
        None => parse_address_range_shorthand(command_str),
    }
}

/// Reads the command letter at the head of `command_str` and makes the
/// command with the lines `addr` that were read before it. Returns the
/// command and the text behind the letter.
pub fn parse_command(command_str: &str, addr: Option<AddressOrRange<Address>>) -> (r: Option<
    (Command, &str),
>)
    ensures
        match command_at(command_str@, addr) {
            Some(c) => r matches Some(found) && found.0 == c && found.1@ == command_str@.skip(1),
            None => r is None,
        },
{
    let len: usize = command_str.unicode_len();
    if len == 0 {
        return None;
    }
    let letter = command_str.get_char(0);
    let command = if letter == 'a' {
        match addr {
            Some(AddressOrRange::Address(a)) => Command::Append(a),
            Some(AddressOrRange::AddressRange(_, _)) => {
                return None;
            },
            None => Command::Append(Address::Current),
        }
    } else if letter == 'i' {
        match addr {
            Some(AddressOrRange::Address(a)) => Command::Insert(a),
            Some(AddressOrRange::AddressRange(_, _)) => {
                return None;
            },
            None => Command::Insert(Address::Current),
        }
    } else if letter == 'n' {
        Command::PrintNumbered(lines_or_cursor(addr))
    } else if letter == 'p' {
        Command::Print(lines_or_cursor(addr))
    } else if letter == 'c' {
        Command::Change(lines_or_cursor(addr))
    } else if letter == 'd' {
        Command::Delete(lines_or_cursor(addr))
    } else if letter == 'w' {
        match addr {
            Some(r) => Command::Save(r),
            None => Command::Save(AddressOrRange::AddressRange(Address::Nth(1), Address::Last)),
        }
    } else if letter == 'q' {
        match addr {
            Some(_) => {
                return None;
            },
            None => Command::Quit,
        }
    } else {
        return None;
    };
    Some((command, command_str.substring_char(1, len)))
}

fn lines_or_cursor(addr: Option<AddressOrRange<Address>>) -> (r: AddressOrRange<Address>)
    ensures
        r == on_lines(addr),
{
    match addr {
        Some(r) => r,
        None => AddressOrRange::AddressRange(Address::Current, Address::Current),
    }
}

/// Reads one command line.
pub fn parse_command_str(command_str: &str) -> (r: Option<Command>)
    ensures
        r == parse(command_str@),
{
    let (lead, remainder) = parse_leading_address(command_str);
    let len: usize = remainder.unicode_len();
    if let Some(AddressOrRange::Address(a)) = lead {
        if len > 0 && remainder.get_char(0) == ',' {
            let (second, behind) = parse_address(remainder.substring_char(1, len));
            return match second {
                Some(b) => match parse_command(behind, Some(AddressOrRange::AddressRange(a, b))) {
                    Some((command, _)) => Some(command),
                    None => None,
                },
                None => None,
            };
        }
    }
    match parse_command(remainder, lead) {
        Some((command, _)) => Some(command),
        None => None,
    }
}

} // verus!
