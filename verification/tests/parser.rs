use counter_bot::command::{parse, Command, ParseError};

#[test]
fn parse_help() {
    assert_eq!(parse("/help"), Ok(Command::Help));
}

#[test]
fn parse_start() {
    assert_eq!(parse("/start"), Ok(Command::Start));
}

#[test]
fn parse_is_case_insensitive() {
    assert_eq!(parse("/HELP"), Ok(Command::Help));
    assert_eq!(parse("/Help"), Ok(Command::Help));
    assert_eq!(parse("/START"), Ok(Command::Start));
    assert_eq!(parse("/sTaRt"), Ok(Command::Start));
}

#[test]
fn parse_unknown_fails() {
    assert_eq!(parse("/unknown"), Err(ParseError));
    assert_eq!(parse("/helpme"), Err(ParseError));
    assert_eq!(parse("/hel"), Err(ParseError));
}

#[test]
fn parse_needs_the_prefix() {
    assert_eq!(parse("help"), Err(ParseError));
    assert_eq!(parse("start"), Err(ParseError));
}

#[test]
fn parse_empty_and_bare_slash_fail() {
    assert_eq!(parse(""), Err(ParseError));
    assert_eq!(parse("/"), Err(ParseError));
}

#[test]
fn parse_takes_no_arguments() {
    assert_eq!(parse("/help "), Err(ParseError));
    assert_eq!(parse("/start now"), Err(ParseError));
}

#[test]
fn parse_is_idempotent() {
    for text in ["/help", "/START", "/unknown", "", "nonsense"] {
        assert_eq!(parse(text), parse(text));
    }
}
