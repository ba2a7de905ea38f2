use ned::address::{Address, AddressOrRange};
use ned::command::{
    parse_address, parse_address_range_shorthand, parse_command, parse_command_str,
    parse_leading_address, Command,
};
use ned::digits::{digit_of, read_number};

fn whole() -> AddressOrRange<Address> {
    AddressOrRange::AddressRange(Address::Nth(1), Address::Last)
}

fn cursor_line() -> AddressOrRange<Address> {
    AddressOrRange::AddressRange(Address::Current, Address::Current)
}

#[test]
fn digit_of_tells_digits_from_other_characters() {
    assert_eq!(digit_of('0'), Some(0));
    assert_eq!(digit_of('7'), Some(7));
    assert_eq!(digit_of('9'), Some(9));
    assert_eq!(digit_of('/'), None);
    assert_eq!(digit_of(':'), None);
    assert_eq!(digit_of('a'), None);
    assert_eq!(digit_of('٣'), None);
}

#[test]
fn read_number_reads_the_digit_run() {
    assert_eq!(read_number("123abc"), (3, Some(123)));
    assert_eq!(read_number("007"), (3, Some(7)));
    assert_eq!(read_number("0"), (1, Some(0)));
    assert_eq!(read_number("x1"), (0, Some(0)));
    assert_eq!(read_number(""), (0, Some(0)));
}

#[test]
fn read_number_gives_no_number_that_does_not_fit() {
    let largest = usize::MAX.to_string();
    assert_eq!(read_number(&largest), (largest.len(), Some(usize::MAX)));
    let too_large = format!("{}0p", largest);
    assert_eq!(read_number(&too_large), (largest.len() + 1, None));
    assert_eq!(read_number("99999999999999999999999999999999"), (32, None));
}

#[test]
fn parse_address_reads_each_symbol() {
    assert_eq!(parse_address(".p"), (Some(Address::Current), "p"));
    assert_eq!(parse_address("$p"), (Some(Address::Last), "p"));
    assert_eq!(parse_address("-p"), (Some(Address::NthPrevious(1)), "p"));
    assert_eq!(parse_address("+p"), (Some(Address::NthNext(1)), "p"));
    assert_eq!(parse_address("."), (Some(Address::Current), ""));
}

#[test]
fn parse_address_reads_a_line_number() {
    assert_eq!(parse_address("7"), (Some(Address::Nth(7)), ""));
    assert_eq!(parse_address("42,5p"), (Some(Address::Nth(42)), ",5p"));
    assert_eq!(parse_address("0a"), (Some(Address::Nth(0)), "a"));
    assert_eq!(parse_address("010d"), (Some(Address::Nth(10)), "d"));
}

#[test]
fn parse_address_leaves_other_text_whole() {
    assert_eq!(parse_address("p"), (None, "p"));
    assert_eq!(parse_address(",p"), (None, ",p"));
    assert_eq!(parse_address(""), (None, ""));
    assert_eq!(parse_address("épée"), (None, "épée"));
}

#[test]
fn parse_address_takes_a_number_too_large_for_no_address() {
    let line = "99999999999999999999999999999999p";
    assert_eq!(parse_address(line), (None, line));
    assert_eq!(parse_command_str(line), None);
    assert_eq!(parse_command_str("1,99999999999999999999999999999999p"), None);
}

#[test]
fn shorthand_stands_for_a_span() {
    assert_eq!(parse_address_range_shorthand(",p"), (Some(whole()), "p"));
    assert_eq!(
        parse_address_range_shorthand(";p"),
        (
            Some(AddressOrRange::AddressRange(Address::Current, Address::Last)),
            "p"
        )
    );
    assert_eq!(parse_address_range_shorthand("p"), (None, "p"));
    assert_eq!(parse_address_range_shorthand("1p"), (None, "1p"));
    assert_eq!(parse_address_range_shorthand(""), (None, ""));
}

#[test]
fn leading_address_is_an_address_or_a_shorthand() {
    assert_eq!(
        parse_leading_address("3d"),
        (Some(AddressOrRange::Address(Address::Nth(3))), "d")
    );
    assert_eq!(
        parse_leading_address("$d"),
        (Some(AddressOrRange::Address(Address::Last)), "d")
    );
    assert_eq!(parse_leading_address(",d"), (Some(whole()), "d"));
    assert_eq!(parse_leading_address("d"), (None, "d"));
    assert_eq!(parse_leading_address(""), (None, ""));
}

#[test]
fn command_letters_without_address_take_their_defaults() {
    assert_eq!(parse_command("a", None), Some((Command::Append(Address::Current), "")));
    assert_eq!(parse_command("i", None), Some((Command::Insert(Address::Current), "")));
    assert_eq!(parse_command("n", None), Some((Command::PrintNumbered(cursor_line()), "")));
    assert_eq!(parse_command("p", None), Some((Command::Print(cursor_line()), "")));
    assert_eq!(parse_command("c", None), Some((Command::Change(cursor_line()), "")));
    assert_eq!(parse_command("d", None), Some((Command::Delete(cursor_line()), "")));
    assert_eq!(parse_command("w", None), Some((Command::Save(whole()), "")));
    assert_eq!(parse_command("q", None), Some((Command::Quit, "")));
}

#[test]
fn command_letters_take_the_address_given() {
    let one = AddressOrRange::Address(Address::Nth(4));
    let span = AddressOrRange::AddressRange(Address::Nth(2), Address::Last);
    assert_eq!(parse_command("a\n", Some(one)), Some((Command::Append(Address::Nth(4)), "\n")));
    assert_eq!(parse_command("i\n", Some(one)), Some((Command::Insert(Address::Nth(4)), "\n")));
    assert_eq!(parse_command("n", Some(one)), Some((Command::PrintNumbered(one), "")));
    assert_eq!(parse_command("p", Some(span)), Some((Command::Print(span), "")));
    assert_eq!(parse_command("c", Some(span)), Some((Command::Change(span), "")));
    assert_eq!(parse_command("d", Some(one)), Some((Command::Delete(one), "")));
    assert_eq!(parse_command("w", Some(span)), Some((Command::Save(span), "")));
}

#[test]
fn append_and_insert_accept_no_span() {
    let span = AddressOrRange::AddressRange(Address::Nth(1), Address::Nth(2));
    assert_eq!(parse_command("a", Some(span)), None);
    assert_eq!(parse_command("i", Some(span)), None);
    assert_eq!(parse_command_str("1,2a"), None);
    assert_eq!(parse_command_str(",i"), None);
}

#[test]
fn quit_accepts_no_address() {
    assert_eq!(parse_command("q", Some(AddressOrRange::Address(Address::Nth(1)))), None);
    assert_eq!(parse_command("q", Some(whole())), None);
    assert_eq!(parse_command_str("1q"), None);
    assert_eq!(parse_command_str(",q"), None);
    assert_eq!(parse_command_str("q"), Some(Command::Quit));
}

#[test]
fn parse_command_turns_down_what_is_no_letter() {
    assert_eq!(parse_command("", None), None);
    assert_eq!(parse_command("z", None), None);
    assert_eq!(parse_command("P", None), None);
    assert_eq!(parse_command("\n", None), None);
    assert_eq!(parse_command("é", None), None);
    assert_eq!(parse_command("1", None), None);
}

#[test]
fn a_line_with_two_addresses_is_a_span() {
    assert_eq!(
        parse_command_str("2,3d\n"),
        Some(Command::Delete(AddressOrRange::AddressRange(Address::Nth(2), Address::Nth(3))))
    );
    assert_eq!(
        parse_command_str(".,$p"),
        Some(Command::Print(AddressOrRange::AddressRange(Address::Current, Address::Last)))
    );
    assert_eq!(
        parse_command_str("-,+n"),
        Some(Command::PrintNumbered(AddressOrRange::AddressRange(
            Address::NthPrevious(1),
            Address::NthNext(1)
        )))
    );
    assert_eq!(
        parse_command_str("12,345w"),
        Some(Command::Save(AddressOrRange::AddressRange(Address::Nth(12), Address::Nth(345))))
    );
}

#[test]
fn a_comma_behind_an_address_wants_a_second_address() {
    assert_eq!(parse_command_str("1,p"), None);
    assert_eq!(parse_command_str("1,"), None);
    assert_eq!(parse_command_str("1,,p"), None);
    assert_eq!(parse_command_str("1,;p"), None);
}

#[test]
fn a_line_with_one_address_or_a_shorthand() {
    assert_eq!(
        parse_command_str("1p"),
        Some(Command::Print(AddressOrRange::Address(Address::Nth(1))))
    );
    assert_eq!(
        parse_command_str("$a"),
        Some(Command::Append(Address::Last))
    );
    assert_eq!(parse_command_str("0a"), Some(Command::Append(Address::Nth(0))));
    assert_eq!(parse_command_str(",p"), Some(Command::Print(whole())));
    assert_eq!(
        parse_command_str(";d"),
        Some(Command::Delete(AddressOrRange::AddressRange(Address::Current, Address::Last)))
    );
    assert_eq!(parse_command_str(",5p"), None);
    assert_eq!(parse_command_str(";,p"), None);
}

#[test]
fn what_follows_the_letter_is_not_looked_at() {
    assert_eq!(parse_command_str("p\n"), Some(Command::Print(cursor_line())));
    assert_eq!(parse_command_str("pzzz"), Some(Command::Print(cursor_line())));
    assert_eq!(parse_command_str("w file"), Some(Command::Save(whole())));
    assert_eq!(parse_command_str("qq"), Some(Command::Quit));
}

#[test]
fn lines_that_are_no_command() {
    assert_eq!(parse_command_str(""), None);
    assert_eq!(parse_command_str("\n"), None);
    assert_eq!(parse_command_str("z"), None);
    assert_eq!(parse_command_str(" p"), None);
    assert_eq!(parse_command_str("1 p"), None);
    assert_eq!(parse_command_str("1"), None);
    assert_eq!(parse_command_str("%p"), None);
    assert_eq!(parse_command_str("épée"), None);
}
