use ned::address::{Address, AddressOrRange};
use ned::editor::run_command;
use ned::state::NedState;

fn lines(items: &[&str]) -> Vec<String> {
    items.iter().map(|s| s.to_string()).collect()
}

/// Five lines, with the cursor moved to line 3.
fn five_lines_at_three() -> NedState {
    let mut state = NedState::new(lines(&["a", "b", "c", "d", "e"]));
    assert!(run_command(&mut state, "3p").is_ok());
    assert_eq!(state.current_address(), 3);
    state
}

#[test]
fn to_range_of_a_single_line() {
    assert_eq!(AddressOrRange::Address(3usize).to_range(), 2..3);
    assert_eq!(AddressOrRange::Address(1usize).to_range(), 0..1);
}

#[test]
fn to_range_of_a_span() {
    assert_eq!(AddressOrRange::AddressRange(2usize, 5usize).to_range(), 1..5);
    assert_eq!(AddressOrRange::AddressRange(1usize, 1usize).to_range(), 0..1);
}

#[test]
fn new_session_has_the_cursor_on_the_last_line() {
    let state = NedState::new(lines(&["a", "b", "c"]));
    assert_eq!(state.current_address(), 3);
    assert_eq!(state.line_buffer(), &lines(&["a", "b", "c"]));
    let empty = NedState::new(vec![]);
    assert_eq!(empty.current_address(), 0);
    assert!(empty.line_buffer().is_empty());
}

#[test]
fn each_kind_of_address_resolves() {
    let state = five_lines_at_three();
    assert_eq!(state.reify_address(&Address::Current), Some(3));
    assert_eq!(state.reify_address(&Address::Last), Some(5));
    assert_eq!(state.reify_address(&Address::Nth(1)), Some(1));
    assert_eq!(state.reify_address(&Address::Nth(5)), Some(5));
    assert_eq!(state.reify_address(&Address::NthPrevious(1)), Some(2));
    assert_eq!(state.reify_address(&Address::NthPrevious(2)), Some(1));
    assert_eq!(state.reify_address(&Address::NthNext(1)), Some(4));
    assert_eq!(state.reify_address(&Address::NthNext(2)), Some(5));
    assert_eq!(state.reify_address(&Address::NthNext(0)), Some(3));
}

#[test]
fn last_resolves_to_the_length() {
    for n in 1..20usize {
        let state = NedState::new(vec![String::new(); n]);
        assert_eq!(state.reify_address(&Address::Last), Some(n));
    }
}

#[test]
fn line_zero_and_lines_behind_the_last_resolve_to_nothing() {
    let state = five_lines_at_three();
    assert_eq!(state.reify_address(&Address::Nth(0)), None);
    assert_eq!(state.reify_address(&Address::Nth(6)), None);
    assert_eq!(state.reify_address(&Address::Nth(usize::MAX)), None);
    assert_eq!(state.reify_address(&Address::NthNext(3)), None);
    assert_eq!(state.reify_address(&Address::NthNext(usize::MAX)), None);
}

#[test]
fn a_line_before_the_first_resolves_to_nothing() {
    let state = five_lines_at_three();
    assert_eq!(state.reify_address(&Address::NthPrevious(3)), None);
    assert_eq!(state.reify_address(&Address::NthPrevious(4)), None);
    assert_eq!(state.reify_address(&Address::NthPrevious(usize::MAX)), None);
}

#[test]
fn nothing_resolves_in_an_empty_buffer() {
    let state = NedState::new(vec![]);
    assert_eq!(state.reify_address(&Address::Current), None);
    assert_eq!(state.reify_address(&Address::Last), None);
    assert_eq!(state.reify_address(&Address::Nth(0)), None);
    assert_eq!(state.reify_address(&Address::Nth(1)), None);
    assert_eq!(state.reify_address(&Address::NthPrevious(1)), None);
    assert_eq!(state.reify_address(&Address::NthNext(1)), None);
    assert_eq!(
        state.reify_address_or_range(&AddressOrRange::AddressRange(Address::Nth(1), Address::Last)),
        None
    );
}

#[test]
fn an_append_may_address_the_head_of_the_buffer() {
    let state = five_lines_at_three();
    assert_eq!(state.reify_append_address(&Address::Nth(0)), Some(0));
    assert_eq!(state.reify_append_address(&Address::Nth(5)), Some(5));
    assert_eq!(state.reify_append_address(&Address::Nth(6)), None);
    assert_eq!(state.reify_append_address(&Address::Current), Some(3));
    assert_eq!(state.reify_append_address(&Address::NthPrevious(3)), Some(0));
    assert_eq!(state.reify_append_address(&Address::NthPrevious(4)), None);
    let empty = NedState::new(vec![]);
    assert_eq!(empty.reify_append_address(&Address::Current), Some(0));
    assert_eq!(empty.reify_append_address(&Address::Last), Some(0));
    assert_eq!(empty.reify_append_address(&Address::Nth(1)), None);
}

#[test]
fn a_single_address_resolves_to_a_single_line() {
    let state = five_lines_at_three();
    assert_eq!(
        state.reify_address_or_range(&AddressOrRange::Address(Address::Last)),
        Some(AddressOrRange::Address(5))
    );
    assert_eq!(
        state.reify_address_or_range(&AddressOrRange::Address(Address::Nth(6))),
        None
    );
}

#[test]
fn a_span_resolves_end_by_end() {
    let state = five_lines_at_three();
    assert_eq!(
        state.reify_address_or_range(&AddressOrRange::AddressRange(Address::Nth(1), Address::Last)),
        Some(AddressOrRange::AddressRange(1, 5))
    );
    assert_eq!(
        state.reify_address_or_range(&AddressOrRange::AddressRange(
            Address::Current,
            Address::Current
        )),
        Some(AddressOrRange::AddressRange(3, 3))
    );
    assert_eq!(
        state.reify_address_or_range(&AddressOrRange::AddressRange(
            Address::NthPrevious(1),
            Address::NthNext(1)
        )),
        Some(AddressOrRange::AddressRange(2, 4))
    );
    assert_eq!(
        state.reify_address_or_range(&AddressOrRange::AddressRange(Address::Nth(0), Address::Last)),
        None
    );
    assert_eq!(
        state.reify_address_or_range(&AddressOrRange::AddressRange(Address::Nth(2), Address::Nth(6))),
        None
    );
}

#[test]
fn a_span_that_runs_backwards_resolves_to_nothing() {
    let state = five_lines_at_three();
    assert_eq!(
        state.reify_address_or_range(&AddressOrRange::AddressRange(Address::Nth(4), Address::Nth(2))),
        None
    );
    assert_eq!(
        state.reify_address_or_range(&AddressOrRange::AddressRange(Address::Last, Address::Current)),
        None
    );
}
