use daytally::args_parse::{parse, Command};

#[test]
fn parse_add_command() {
    let cmd = parse(&["add".to_string()]);
    assert_eq!(cmd, Some(Command::Add));
}

#[test]
fn parse_report_command() {
    let cmd = parse(&["Report".to_string()]);
    assert_eq!(cmd, Some(Command::Report(0)));
}

#[test]
fn parse_help_command() {
    let cmd = parse(&["-h".to_string()]);
    assert_eq!(cmd, Some(Command::Help));
}

#[test]
fn parse_single_letter_commands() {
    assert_eq!(parse(&["a".to_string()]), Some(Command::Add));
    assert_eq!(parse(&["D".to_string()]), Some(Command::Details(0)));
    assert_eq!(parse(&["r".to_string()]), Some(Command::Report(0)));
    assert_eq!(parse(&["H".to_string()]), Some(Command::Help));
}

#[test]
fn parse_takes_day_offset() {
    let cmd = parse(&["report".to_string(), "12".to_string()]);
    assert_eq!(cmd, Some(Command::Report(12)));
    let cmd = parse(&["details".to_string(), "+3".to_string()]);
    assert_eq!(cmd, Some(Command::Details(3)));
}

#[test]
fn parse_malformed_offset_falls_back_to_zero() {
    let cmd = parse(&["report".to_string(), "soon".to_string()]);
    assert_eq!(cmd, Some(Command::Report(0)));
    let cmd = parse(&[
        "report".to_string(),
        "99999999999999999999999999999999999999".to_string(),
    ]);
    assert_eq!(cmd, Some(Command::Report(0)));
    let cmd = parse(&["report".to_string(), "".to_string()]);
    assert_eq!(cmd, Some(Command::Report(0)));
}

#[test]
fn parse_strips_dashes_and_case() {
    assert_eq!(parse(&["--report".to_string()]), Some(Command::Report(0)));
    assert_eq!(parse(&["-A-d-D".to_string()]), Some(Command::Add));
    assert_eq!(parse(&["HELP".to_string()]), Some(Command::Help));
}

#[test]
fn parse_unknown_or_empty_is_none() {
    assert_eq!(parse(&[]), None);
    assert_eq!(parse(&["serve".to_string()]), None);
    assert_eq!(parse(&["ad".to_string()]), None);
}
