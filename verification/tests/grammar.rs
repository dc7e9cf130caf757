use rusted::commands::Command;
use rusted::grammar::parse_line;
use rusted::parse::{Addr, LineAddr, LineRange, Mode, Modifier};

fn num(n: u64) -> Addr {
    Addr::number(n)
}

#[test]
fn bare_print_takes_no_range() {
    assert_eq!(parse_line("p"), Some(Command::Print(None)));
}

#[test]
fn single_address_stands_for_both_range_ends() {
    assert_eq!(
        parse_line("2p"),
        Some(Command::Print(Some(LineRange(
            Some(num(2)),
            Mode::Comma,
            Some(num(2))
        ))))
    );
}

#[test]
fn comma_range_before_delete() {
    assert_eq!(
        parse_line("1,2d"),
        Some(Command::Delete(Some(LineRange(
            Some(num(1)),
            Mode::Comma,
            Some(num(2))
        ))))
    );
}

#[test]
fn semicolon_range_keeps_its_mode() {
    assert_eq!(
        parse_line("1;2p"),
        Some(Command::Print(Some(LineRange(
            Some(num(1)),
            Mode::Semicolon,
            Some(num(2))
        ))))
    );
}

#[test]
fn range_sides_may_be_missing() {
    assert_eq!(
        parse_line(",p"),
        Some(Command::Print(Some(LineRange(None, Mode::Comma, None))))
    );
    assert_eq!(
        parse_line("1,p"),
        Some(Command::Print(Some(LineRange(
            Some(num(1)),
            Mode::Comma,
            None
        ))))
    );
    assert_eq!(
        parse_line(",$n"),
        Some(Command::PrintNumbered(Some(LineRange(
            None,
            Mode::Comma,
            Some(Addr::dollar_sign())
        ))))
    );
}

#[test]
fn dollar_period_and_mark_addresses() {
    assert_eq!(
        parse_line("$p"),
        Some(Command::Print(Some(LineRange(
            Some(Addr::dollar_sign()),
            Mode::Comma,
            Some(Addr::dollar_sign())
        ))))
    );
    assert_eq!(
        parse_line(".,$p"),
        Some(Command::Print(Some(LineRange(
            Some(Addr::period()),
            Mode::Comma,
            Some(Addr::dollar_sign())
        ))))
    );
    assert_eq!(
        parse_line("'a,'bp"),
        Some(Command::Print(Some(LineRange(
            Some(Addr::mark('a')),
            Mode::Comma,
            Some(Addr::mark('b'))
        ))))
    );
}

#[test]
fn plus_minus_prefix_is_parsed_but_carried_as_modifier() {
    assert_eq!(
        parse_line("+2p"),
        Some(Command::Print(Some(LineRange(
            Some(Addr::new(LineAddr::Number(2), Some(Modifier::PrefixPlus))),
            Mode::Comma,
            Some(Addr::new(LineAddr::Number(2), Some(Modifier::PrefixPlus)))
        ))))
    );
    assert_eq!(
        parse_line("-$d"),
        Some(Command::Delete(Some(LineRange(
            Some(Addr::new(LineAddr::DollarSign, Some(Modifier::PrefixMinus))),
            Mode::Comma,
            Some(Addr::new(LineAddr::DollarSign, Some(Modifier::PrefixMinus)))
        ))))
    );
}

#[test]
fn append_insert_take_single_address_only() {
    assert_eq!(parse_line("a"), Some(Command::AppendText(None)));
    assert_eq!(parse_line("3a"), Some(Command::AppendText(Some(num(3)))));
    assert_eq!(parse_line("i"), Some(Command::InsertText(None)));
    assert_eq!(parse_line(".i"), Some(Command::InsertText(Some(Addr::period()))));
    // a range prefix is rejected before an address-taking command
    assert_eq!(parse_line("1,2a"), None);
    assert_eq!(parse_line("1,2i"), None);
}

#[test]
fn mark_command_wants_one_lowercase_letter() {
    assert_eq!(parse_line("kx"), Some(Command::MarkLine(None, 'x')));
    assert_eq!(parse_line("2ka"), Some(Command::MarkLine(Some(num(2)), 'a')));
    assert_eq!(parse_line("kX"), None);
    assert_eq!(parse_line("k"), None);
    assert_eq!(parse_line("kxy"), None);
}

#[test]
fn longer_save_literal_wins_over_its_prefix() {
    // the w/wq collision: "wq name" must be save-and-quit, never a save to
    // the default file with leftovers
    assert_eq!(
        parse_line("wq out.txt"),
        Some(Command::SaveAndQuit(None, Some("out.txt".to_string())))
    );
    assert_eq!(
        parse_line("w out.txt"),
        Some(Command::SaveFile(None, Some("out.txt".to_string())))
    );
    assert_eq!(parse_line("w"), Some(Command::SaveFile(None, None)));
    // bare "wq" has no production: the filename is required
    assert_eq!(parse_line("wq"), None);
}

#[test]
fn save_family_takes_a_range() {
    assert_eq!(
        parse_line("1,2w out.txt"),
        Some(Command::SaveFile(
            Some(LineRange(Some(num(1)), Mode::Comma, Some(num(2)))),
            Some("out.txt".to_string())
        ))
    );
    assert_eq!(
        parse_line("1,$W log.txt"),
        Some(Command::SaveAppend(
            Some(LineRange(
                Some(num(1)),
                Mode::Comma,
                Some(Addr::dollar_sign())
            )),
            Some("log.txt".to_string())
        ))
    );
    // append-save requires its filename
    assert_eq!(parse_line("W"), None);
}

#[test]
fn filename_commands_split_on_whitespace() {
    assert_eq!(parse_line("f"), Some(Command::GetDefaultFilename));
    assert_eq!(
        parse_line("f notes.txt"),
        Some(Command::SetDefaultFilename("notes.txt".to_string()))
    );
    assert_eq!(parse_line("e"), Some(Command::EditFile(None)));
    assert_eq!(
        parse_line("e a b.txt"),
        Some(Command::EditFile(Some("a b.txt".to_string())))
    );
    assert_eq!(parse_line("E"), Some(Command::UncondEditFile(None)));
    assert_eq!(
        parse_line("E x.txt"),
        Some(Command::UncondEditFile(Some("x.txt".to_string())))
    );
    // no whitespace separator: not a recognized line
    assert_eq!(parse_line("fx.txt"), None);
}

#[test]
fn bare_letter_commands() {
    assert_eq!(parse_line("q"), Some(Command::Quit));
    assert_eq!(parse_line("Q"), Some(Command::HardQuit));
    assert_eq!(parse_line("P"), Some(Command::ToggleShowPrompt));
    assert_eq!(parse_line("h"), Some(Command::LastError));
    assert_eq!(parse_line("H"), Some(Command::ToggleErrorExpl));
    // none of them takes a prefix
    assert_eq!(parse_line("2q"), None);
    assert_eq!(parse_line("1,2P"), None);
}

#[test]
fn unrecognized_lines_fail() {
    assert_eq!(parse_line(""), None);
    assert_eq!(parse_line("x"), None);
    assert_eq!(parse_line("2"), None);
    assert_eq!(parse_line("2,"), None);
    assert_eq!(parse_line("px"), None);
    assert_eq!(parse_line("qx"), None);
    assert_eq!(parse_line("'Zp"), None);
    assert_eq!(parse_line("+p"), None);
}

#[test]
fn numbers_too_large_for_u64_fail() {
    assert_eq!(
        parse_line("18446744073709551615p"),
        Some(Command::Print(Some(LineRange(
            Some(num(u64::MAX)),
            Mode::Comma,
            Some(num(u64::MAX))
        ))))
    );
    assert_eq!(parse_line("18446744073709551616p"), None);
}
