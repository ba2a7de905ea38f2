//! The commands' effect on a session: what each does to the buffer and the
//! cursor, and what it hands back to be shown, written or asked for.

use crate::command::{parse, parse_command_str, Command};
use crate::state::{resolve, resolve_append, resolve_span, settle, spliced, NedState, StateView};
use crate::text::{copy_lines, join_lines, joined, number_lines, numbered, text_of};
use vstd::prelude::*;
use vstd::string::StrSliceExecFns;

verus! {

/// Why a command line was turned down.
#[derive(Debug, Clone, Copy, PartialEq, Eq, Structural)]
pub enum CommandError {
    /// The line is no command of the grammar.
    Parse,
    /// An address of the command denotes no line of the buffer, or its span
    /// runs backwards.
    OutOfRange,
}

/// An edit that waits for its input lines. Indices count from 0.
#[derive(Debug, Clone, Copy, PartialEq, Eq, Structural)]
pub enum Edit {
    /// New lines go in before the line at this index; at the buffer's length
    /// they go behind the last line.
    InsertAt(usize),
    /// New lines take the place of the lines from the first index up to, not
    /// including, the second.
    Replace(usize, usize),
}

/// What a command hands back once it has run.
#[derive(Debug, Clone, PartialEq, Eq)]
pub enum CommandResult {
    /// Nothing is left to do.
    Noop,
    /// The session ends.
    Quit,
    /// These lines are to be shown, one per line of output.
    Print(Vec<String>),
    /// This text is to take the place of the file's content.
    Save(String),
    /// Input lines are to be collected and handed to [`NedState::edit`]
    /// with this edit. The buffer is unchanged until then.
    Collect(Edit),
}

/// What a [`CommandResult`] holds, as mathematics.
pub enum Outcome {
    Noop,
    Quit,
    Print(Seq<Seq<char>>),
    Save(Seq<char>),
    Collect(Edit),
}

impl View for CommandResult {
    type V = Outcome;

    open spec fn view(&self) -> Outcome {
        match *self {
            CommandResult::Noop => Outcome::Noop,
            CommandResult::Quit => Outcome::Quit,
            CommandResult::Print(lines) => Outcome::Print(text_of(lines@)),
            CommandResult::Save(text) => Outcome::Save(text@),
            CommandResult::Collect(edit) => Outcome::Collect(edit),
        }
    }
}

/// What a function that runs a command returned, as mathematics.
pub open spec fn reported(r: Result<CommandResult, CommandError>) -> Result<
    Outcome,
    CommandError,
> {
    match r {
        Ok(result) => Ok(result@),
        Err(e) => Err(e),
    }
}

impl StateView {
    /// The state with the cursor on `line`.
    pub open spec fn at(self, line: int) -> StateView {
        StateView { lines: self.lines, cursor: line }
    }

    /// The state after `command`, and what the command hands back.
    ///
    /// Every address is resolved before anything else happens, and a command
    /// whose address denotes no line leaves the state as it was. `Append`,
    /// `Insert` and `Change` only say which edit waits for input. `Print` and
    /// `PrintNumbered` move the cursor to the last line shown. `Delete`
    /// moves it to the line that followed the deleted ones, or to the last
    /// line where none followed. `Save` and `Quit` leave the state alone.
    pub open spec fn execute(self, command: Command) -> (StateView, Result<Outcome, CommandError>) {
        let len = self.lines.len() as int;
        match command {
            Command::Append(a) => match resolve_append(a, len, self.cursor) {
                Some(line) => (self, Ok(Outcome::Collect(Edit::InsertAt(line as usize)))),
                None => (self, Err(CommandError::OutOfRange)),
            },
            Command::Insert(a) => match resolve(a, len, self.cursor) {
                Some(line) => (self, Ok(Outcome::Collect(Edit::InsertAt((line - 1) as usize)))),
                None => (self, Err(CommandError::OutOfRange)),
            },
            Command::Print(span) => match resolve_span(span, len, self.cursor) {
                Some((first, last)) => (
                    self.at(last),
                    Ok(Outcome::Print(self.lines.subrange(first - 1, last))),
                ),
                None => (self, Err(CommandError::OutOfRange)),
            },
            Command::PrintNumbered(span) => match resolve_span(span, len, self.cursor) {
                Some((first, last)) => (
                    self.at(last),
                    Ok(Outcome::Print(numbered(self.lines, first, last))),
                ),
                None => (self, Err(CommandError::OutOfRange)),
            },
            Command::Change(span) => match resolve_span(span, len, self.cursor) {
                Some((first, last)) => (
                    self,
                    Ok(Outcome::Collect(Edit::Replace((first - 1) as usize, last as usize))),
                ),
                None => (self, Err(CommandError::OutOfRange)),
            },
            Command::Delete(span) => match resolve_span(span, len, self.cursor) {
                Some((first, last)) => {
                    let lines = spliced(self.lines, first - 1, last, Seq::empty());
                    (
                        StateView { lines, cursor: settle(first, lines.len() as int) },
                        Ok(Outcome::Noop),
                    )
                },
                None => (self, Err(CommandError::OutOfRange)),
            },
            Command::Save(span) => match resolve_span(span, len, self.cursor) {
                Some((first, last)) => (
                    self,
                    Ok(Outcome::Save(joined(self.lines.subrange(first - 1, last)))),
                ),
                None => (self, Err(CommandError::OutOfRange)),
            },
            Command::Quit => (self, Ok(Outcome::Quit)),
        }
    }

    /// The state after the command line `line`, and what the command hands
    /// back. A line that is no command leaves the state as it was.
    pub open spec fn run(self, line: Seq<char>) -> (StateView, Result<Outcome, CommandError>) {
        match parse(line) {
            Some(command) => self.execute(command),
            None => (self, Err(CommandError::Parse)),
        }
    }

    /// `edit` fits the buffer: it names lines, or a place between lines, that
    /// the buffer has.
    pub open spec fn admits(self, edit: Edit) -> bool {
        match edit {
            Edit::InsertAt(at) => at <= self.lines.len(),
            Edit::Replace(start, end) => start < end <= self.lines.len(),
        }
    }

    /// The state after `edit` has been made with the lines `input`.
    ///
    /// After an insertion the cursor stands on the last line put in, or,
    /// where the input was empty, on the line before the place of insertion.
    /// After a replacement it stands on the line with the number of the last
    /// line replaced. Where the buffer has no such line, the cursor stands on
    /// the nearest line that it has.
    pub open spec fn edited(self, edit: Edit, input: Seq<Seq<char>>) -> StateView {
        match edit {
            Edit::InsertAt(at) => {
                let lines = spliced(self.lines, at as int, at as int, input);
                StateView { lines, cursor: settle(at + input.len(), lines.len() as int) }
            },
            Edit::Replace(start, end) => {
                let lines = spliced(self.lines, start as int, end as int, input);
                StateView { lines, cursor: settle(end as int, lines.len() as int) }
            },
        }
    }
}

impl NedState {
    /// Runs `command` on the session.
    pub fn execute(&mut self, command: &Command) -> (r: Result<CommandResult, CommandError>)
        ensures
            (final(self)@, reported(r)) == old(self)@.execute(*command),
    {
        match command {
            Command::Append(a) => match self.reify_append_address(a) {
                Some(line) => Ok(CommandResult::Collect(Edit::InsertAt(line))),
                None => Err(CommandError::OutOfRange),
            },
            Command::Insert(a) => match self.reify_address(a) {
                Some(line) => Ok(CommandResult::Collect(Edit::InsertAt(line - 1))),
                None => Err(CommandError::OutOfRange),
            },
            Command::Print(span) => match self.reify_address_or_range(span) {
                Some(found) => {
                    let range = found.to_range();
                    let shown = copy_lines(self.line_buffer(), range.start, range.end);
                    self.move_to(range.end);
                    Ok(CommandResult::Print(shown))
                },
                None => Err(CommandError::OutOfRange),
            },
            Command::PrintNumbered(span) => match self.reify_address_or_range(span) {
                Some(found) => {
                    let range = found.to_range();
                    let shown = number_lines(self.line_buffer(), range.start, range.end);
                    self.move_to(range.end);
                    Ok(CommandResult::Print(shown))
                },
                None => Err(CommandError::OutOfRange),
            },
            Command::Change(span) => match self.reify_address_or_range(span) {
                Some(found) => {
                    let range = found.to_range();
                    Ok(CommandResult::Collect(Edit::Replace(range.start, range.end)))
                },
                None => Err(CommandError::OutOfRange),
            },
            Command::Delete(span) => match self.reify_address_or_range(span) {
                Some(found) => {
                    let range = found.to_range();
                    self.splice(range.start, range.end, Vec::new());
                    self.move_to(range.start + 1);
                    Ok(CommandResult::Noop)
                },
                None => Err(CommandError::OutOfRange),
            },
            Command::Save(span) => match self.reify_address_or_range(span) {
                Some(found) => {
                    let range = found.to_range();
                    Ok(CommandResult::Save(join_lines(self.line_buffer(), range.start, range.end)))
                },
                None => Err(CommandError::OutOfRange),
            },
            Command::Quit => Ok(CommandResult::Quit),
        }
    }

    /// Makes `edit` with the lines `input`. An edit that does not fit the
    /// buffer is turned down, and the session stays as it was.
    pub fn edit(&mut self, edit: Edit, input: Vec<String>) -> (r: Result<(), CommandError>)
        ensures
            old(self)@.admits(edit) ==> r is Ok && final(self)@ == old(self)@.edited(
                edit,
                text_of(input@),
            ),
            !old(self)@.admits(edit) ==> r == Err::<(), CommandError>(CommandError::OutOfRange)
                && final(self)@ == old(self)@,
    {
        let len: usize = self.line_buffer().len();
        match edit {
            Edit::InsertAt(at) => {
                if at > len {
                    return Err(CommandError::OutOfRange);
                }
                self.splice(at, at, input);
                Ok(())
            },
            Edit::Replace(start, end) => {
                if start >= end || end > len {
                    return Err(CommandError::OutOfRange);
                }
                self.splice(start, end, input);
                self.move_to(end);
                Ok(())
            },
        }
    }
}

/// Whether `line`, a line read while input is collected and taken without
/// its terminator, ends the input: it does where it is a lone `.`. That line
/// is no part of the input.
pub fn ends_input(line: &str) -> (r: bool)
    ensures
        r == (line@ == seq!['.']),
{
    let r = line.unicode_len() == 1 && line.get_char(0) == '.';
    assert(r ==> line@ =~= seq!['.']);
    r
}

/// Reads the command line `command_str` and runs the command on `state`.
pub fn run_command(state: &mut NedState, command_str: &str) -> (r: Result<
    CommandResult,
    CommandError,
>)
    ensures
        (final(state)@, reported(r)) == old(state)@.run(command_str@),
{
    match parse_command_str(command_str) {
        Some(command) => state.execute(&command),
        None => Err(CommandError::Parse),
    }
}

} // verus!
