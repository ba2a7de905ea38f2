//! What holds of every session: laws that relate the grammar, the resolution
//! of addresses and the commands to each other.

use crate::address::{Address, AddressOrRange};
use crate::command::Command;
use crate::editor::{CommandError, Edit, Outcome};
use crate::digits::{decimal_value, is_digit};
use crate::state::{denoted_line, resolve, resolve_append, resolve_span, spliced, StateView};
use crate::text::{
    are_lines, decimal_digits, is_line, joined, lines_of, numbered, pieces, terminator,
};
use vstd::prelude::*;

verus! {

/// In a buffer that has a line, `$` resolves to the number of lines.
pub proof fn last_resolves_to_length(len: int, cursor: int)
    requires
        len >= 1,
    ensures
        resolve(Address::Last, len, cursor) == Some(len),
{
}

/// Line 0 resolves to no line, and neither does any address that denotes a
/// line behind the last one, whatever the buffer, the empty one included.
pub proof fn outside_the_buffer_resolves_to_nothing(address: Address, len: int, cursor: int)
    requires
        len >= 0,
    ensures
        resolve(Address::Nth(0), len, cursor) is None,
        denoted_line(address, len, cursor) > len ==> resolve(address, len, cursor) is None,
        denoted_line(address, len, cursor) < 1 ==> resolve(address, len, cursor) is None,
        denoted_line(address, len, cursor) > len ==> resolve_append(address, len, cursor) is None,
{
}

/// A command line that is only one of the letters `a`, `i`, `n`, `p`, `c`
/// and `d`, with no address before it, acts on the line under the cursor as
/// the cursor stands when the command runs: `a` puts its input behind that
/// line and `i` before it, `n` and `p` show it and leave the cursor on it,
/// `c` replaces it, and `d` removes it.
pub proof fn bare_command_acts_on_cursor_line(state: StateView, line: Seq<char>)
    requires
        state.wf(),
        state.lines.len() > 0,
        line.len() > 0,
    ensures
        line[0] == 'a' ==> state.run(line) == (
            state,
            Ok::<Outcome, CommandError>(Outcome::Collect(Edit::InsertAt(state.cursor as usize))),
        ),
        line[0] == 'i' ==> state.run(line) == (
            state,
            Ok::<Outcome, CommandError>(
                Outcome::Collect(Edit::InsertAt((state.cursor - 1) as usize)),
            ),
        ),
        line[0] == 'n' ==> state.run(line) == (
            state,
            Ok::<Outcome, CommandError>(
                Outcome::Print(numbered(state.lines, state.cursor, state.cursor)),
            ),
        ),
        line[0] == 'p' ==> state.run(line) == (
            state,
            Ok::<Outcome, CommandError>(Outcome::Print(seq![state.lines[state.cursor - 1]])),
        ),
        line[0] == 'c' ==> state.run(line) == (
            state,
            Ok::<Outcome, CommandError>(
                Outcome::Collect(
                    Edit::Replace((state.cursor - 1) as usize, state.cursor as usize),
                ),
            ),
        ),
        line[0] == 'd' ==> state.run(line).0.lines == state.lines.remove(state.cursor - 1)
            && state.run(line).1 == Ok::<Outcome, CommandError>(Outcome::Noop),
{
    assert(state.lines.subrange(state.cursor - 1, state.cursor) =~= seq![
        state.lines[state.cursor - 1],
    ]);
    assert(spliced(state.lines, state.cursor - 1, state.cursor, Seq::empty())
        =~= state.lines.remove(state.cursor - 1));
}

/// Lines that are appended behind the line that an address resolves to stand
/// right behind that line, in their order: showing the span that begins one
/// line behind it and has as many lines as were appended shows exactly them,
/// and leaves the cursor where the append left it, on the last of them.
pub proof fn appended_lines_are_shown_back(
    state: StateView,
    address: Address,
    input: Seq<Seq<char>>,
)
    requires
        state.wf(),
        input.len() >= 1,
        resolve_append(address, state.lines.len() as int, state.cursor) is Some,
        resolve_append(address, state.lines.len() as int, state.cursor)->0 + input.len()
            <= usize::MAX,
    ensures
        ({
            let line = resolve_append(address, state.lines.len() as int, state.cursor)->0;
            let edit = Edit::InsertAt(line as usize);
            let after = state.edited(edit, input);
            let span = AddressOrRange::AddressRange(
                Address::Nth((line + 1) as usize),
                Address::Nth((line + input.len()) as usize),
            );
            &&& state.execute(Command::Append(address)) == (
                state,
                Ok::<Outcome, CommandError>(Outcome::Collect(edit)),
            )
            &&& state.admits(edit)
            &&& after.cursor == line + input.len()
            &&& after.execute(Command::Print(span)) == (
                after,
                Ok::<Outcome, CommandError>(Outcome::Print(input)),
            )
        }),
{
    let line = resolve_append(address, state.lines.len() as int, state.cursor)->0;
    let after = state.edited(Edit::InsertAt(line as usize), input);
    assert(after.lines.subrange(line, line + input.len()) =~= input);
}

/// Showing lines, with or without their numbers, leaves every line of the
/// buffer as it was.
pub proof fn showing_keeps_the_lines(state: StateView, span: AddressOrRange<Address>)
    ensures
        state.execute(Command::Print(span)).0.lines == state.lines,
        state.execute(Command::PrintNumbered(span)).0.lines == state.lines,
{
}

/// Deleting a span makes the buffer shorter by the number of lines in the
/// span. The lines before the span stay where they were, and the lines
/// behind it move up by that number, so all of them keep their order.
pub proof fn delete_removes_exactly_the_span(state: StateView, span: AddressOrRange<Address>)
    requires
        resolve_span(span, state.lines.len() as int, state.cursor) is Some,
    ensures
        ({
            let (first, last) = resolve_span(span, state.lines.len() as int, state.cursor)->0;
            let after = state.execute(Command::Delete(span)).0;
            let count = last - first + 1;
            &&& count >= 1
            &&& after.lines.len() == state.lines.len() - count
            &&& forall|i: int| 0 <= i < first - 1 ==> after.lines[i] == state.lines[i]
            &&& forall|i: int|
                first - 1 <= i < after.lines.len() ==> after.lines[i] == state.lines[i + count]
        }),
{
}

/// A command that is turned down leaves the session as it was.
pub proof fn failure_changes_nothing(state: StateView, line: Seq<char>)
    ensures
        state.run(line).1 is Err ==> state.run(line).0 == state,
{
}

/// A command that waits for input leaves the session as it was, and the edit
/// it asks for fits the buffer, as long as the buffer's length is one that a
/// machine can hold.
pub proof fn pending_edit_fits(state: StateView, command: Command)
    requires
        state.wf(),
        state.lines.len() <= usize::MAX,
        state.execute(command).1 matches Ok(Outcome::Collect(_)),
    ensures
        state.execute(command).0 == state,
        state.execute(command).1 matches Ok(Outcome::Collect(edit)) && state.admits(edit),
{
}

/// Every command and every edit keeps the cursor on a line of the buffer, or
/// at 0 where the buffer has no line.
pub proof fn cursor_stays_in_the_buffer(
    state: StateView,
    command: Command,
    edit: Edit,
    input: Seq<Seq<char>>,
)
    requires
        state.wf(),
    ensures
        state.execute(command).0.wf(),
        state.admits(edit) ==> state.edited(edit, input).wf(),
{
}

/// Lines stay single lines: where no line of the buffer and no line of the
/// input holds a terminator, no line of the buffer holds one after a command
/// or an edit.
pub proof fn lines_stay_single(
    state: StateView,
    command: Command,
    edit: Edit,
    input: Seq<Seq<char>>,
)
    requires
        are_lines(state.lines),
        are_lines(input),
    ensures
        are_lines(state.execute(command).0.lines),
        state.admits(edit) ==> are_lines(state.edited(edit, input).lines),
{
}

/// A text cut at its terminators falls into single lines, at least one, and
/// these joined are the text again.
proof fn lemma_pieces(text: Seq<char>)
    ensures
        pieces(text).len() >= 1,
        are_lines(pieces(text)),
        joined(pieces(text)) == text,
    decreases text.len(),
{
    if text.len() > 0 {
        let head = text.drop_last();
        let before = pieces(head);
        lemma_pieces(head);
        assert(head.push(text.last()) =~= text);
        if text.last() == terminator() {
            let now = before.push(Seq::empty());
            assert(now.drop_last() =~= before);
            assert(joined(now) =~= joined(before).push(terminator()));
        } else {
            let now = before.drop_last().push(before.last().push(text.last()));
            assert(now.drop_last() =~= before.drop_last());
            assert(is_line(before.last()));
            assert(is_line(now.last()));
            if before.len() == 1 {
                assert(joined(now) =~= joined(before).push(text.last()));
            } else {
                assert(joined(now) =~= joined(before).push(text.last()));
            }
        }
    }
}

/// The lines of a text are single lines, and joined they are the text again:
/// what is loaded and saved at once is saved as it was.
pub proof fn lines_join_back(text: Seq<char>)
    ensures
        are_lines(lines_of(text)),
        joined(lines_of(text)) == text,
        text.len() > 0 ==> lines_of(text).len() >= 1,
{
    lemma_pieces(text);
}

/// A single line behind a text and a terminator is one more piece.
proof fn lemma_pieces_of_one_more(text: Seq<char>, line: Seq<char>)
    requires
        is_line(line),
    ensures
        pieces(text.push(terminator()) + line) == pieces(text).push(line),
    decreases line.len(),
{
    let whole = text.push(terminator()) + line;
    if line.len() == 0 {
        assert(whole =~= text.push(terminator()));
        assert(whole.drop_last() =~= text);
        assert(line =~= Seq::empty());
    } else {
        let head = line.drop_last();
        assert(is_line(head)) by {
            assert forall|i: int| 0 <= i < head.len() implies head[i] != terminator() by {
                assert(head[i] == line[i]);
            }
        }
        lemma_pieces_of_one_more(text, head);
        assert(whole.drop_last() =~= text.push(terminator()) + head);
        assert(whole.last() == line.last());
        assert(line.last() != terminator());
        let before = pieces(text).push(head);
        assert(before.drop_last() =~= pieces(text));
        assert(head.push(line.last()) =~= line);
    }
}

/// A single line is its own only piece.
proof fn lemma_pieces_of_a_line(line: Seq<char>)
    requires
        is_line(line),
    ensures
        pieces(line) == seq![line],
    decreases line.len(),
{
    if line.len() == 0 {
        assert(line =~= Seq::empty());
    } else {
        let head = line.drop_last();
        assert(is_line(head)) by {
            assert forall|i: int| 0 <= i < head.len() implies head[i] != terminator() by {
                assert(head[i] == line[i]);
            }
        }
        lemma_pieces_of_a_line(head);
        assert(line.last() != terminator());
        assert(head.push(line.last()) =~= line);
        assert(seq![head].last() == head);
        assert(seq![head].drop_last().push(line) =~= seq![line]);
    }
}

/// Single lines, joined and cut again, are the same lines.
proof fn lemma_pieces_of_joined(lines: Seq<Seq<char>>)
    requires
        lines.len() >= 1,
        are_lines(lines),
    ensures
        pieces(joined(lines)) == lines,
    decreases lines.len(),
{
    if lines.len() == 1 {
        lemma_pieces_of_a_line(lines[0]);
        assert(seq![lines[0]] =~= lines);
    } else {
        let head = lines.drop_last();
        assert(are_lines(head)) by {
            assert forall|i: int| 0 <= i < head.len() implies is_line(#[trigger] head[i]) by {
                assert(head[i] == lines[i]);
            }
        }
        lemma_pieces_of_joined(head);
        lemma_pieces_of_one_more(joined(head), lines.last());
        assert(head.push(lines.last()) =~= lines);
    }
}

/// Single lines that are saved and loaded again are the same lines. The one
/// buffer of which this cannot hold is that of a single empty line: it is
/// saved as the empty text, which has no line.
pub proof fn joined_lines_split_back(lines: Seq<Seq<char>>)
    requires
        are_lines(lines),
        lines != seq![Seq::<char>::empty()],
    ensures
        lines_of(joined(lines)) == lines,
{
    if lines.len() == 0 {
        assert(lines =~= Seq::empty());
    } else {
        lemma_pieces_of_joined(lines);
        if joined(lines).len() == 0 {
            assert(pieces(joined(lines)) =~= seq![Seq::<char>::empty()]);
        }
    }
}

/// A number written in decimal is made of digits only, and these read back
/// as the number.
pub proof fn number_reads_back(n: nat)
    ensures
        decimal_digits(n).len() >= 1,
        forall|i: int| 0 <= i < decimal_digits(n).len() ==> is_digit(#[trigger] decimal_digits(n)[i]),
        decimal_value(decimal_digits(n)) == n,
    decreases n,
{
    if n < 10 {
        let d = decimal_digits(n);
        assert(d.drop_last() =~= Seq::empty());
        assert(decimal_value(d.drop_last()) == 0);
    } else {
        number_reads_back(n / 10);
        let d = decimal_digits(n);
        assert(d.drop_last() =~= decimal_digits(n / 10));
    }
}

} // verus!
