use yasqlplus::command::Command;
use yasqlplus::conn::Connection;
use yasqlplus::validate::YspValidator;
use yasqlplus::command::InternalCommand;
use yasqlplus::parser::parse_command;
use yasqlplus::parser::parse_internal_command;
use yasqlplus::parser::ParseError;

#[test]
fn parse() {
    // empty command
    assert!(matches!(parse_command(""), Err(ParseError::Empty)));

    // incomplete
    assert!(matches!(
        parse_command("desc table"),
        Err(ParseError::Incomplete(_))
    )); // missing `;`
    assert!(matches!(
        parse_command("select * from dba_views"),
        Err(ParseError::Incomplete(_))
    )); // missing `;`
    assert!(matches!(
        parse_command("select * from dba_views\n;\n\n\n\n"),
        Err(ParseError::Incomplete(_))
    )); // missing `/`

    // shell
    assert!(matches!(
        parse_command("!vim ~/.bashrc"),
        Ok(Command::Shell(shell)) if shell == "vim ~/.bashrc"
    ));

    // desc
    assert!(matches!(
        parse_command("desc table;"),
        Ok(Command::Internal(InternalCommand::Describe(t))) if t == "table"
    ));

    // conn
    assert!(matches!(
        parse_command("conn sys/pwd@host:9999"),
        Ok(Command::Internal(InternalCommand::Connect(_)))
    ));
    assert!(matches!(
        parse_command("conn sys/pwd@host:9999;"),
        Err(ParseError::ParsingError { .. })
    ));
}

#[test]
fn parse_single_line_sql_completeness() {
    assert!(matches!(
        parse_command("select * from t"),
        Err(ParseError::Incomplete(_))
    ));
    assert!(matches!(
        parse_command("select * from t;\n\n"),
        Err(ParseError::Incomplete(_))
    ));
    assert!(matches!(
        parse_command("select * from t;"),
        Ok(Command::SQL(s)) if s == "select * from t;"
    ));
}

#[test]
fn parse_multi_line_block_needs_slash() {
    assert!(matches!(
        parse_command("begin\n  null;\nend;"),
        Err(ParseError::Incomplete(_))
    ));
    assert!(matches!(
        parse_command("begin\n  null;\nend;\n/"),
        Ok(Command::SQL(s)) if s == "begin\n  null;\nend;\n/"
    ));
}

#[test]
fn parse_comment_line_is_complete() {
    assert!(matches!(
        parse_command("-- just a comment"),
        Ok(Command::SQL(s)) if s == "-- just a comment"
    ));
}

#[test]
fn parse_desc_trims_all_trailing_semicolons() {
    assert!(matches!(
        parse_command("desc t;;;"),
        Ok(Command::Internal(InternalCommand::Describe(t))) if t == "t"
    ));
}

#[test]
fn parse_incomplete_returns_exact_text() {
    match parse_command("select 1") {
        Err(ParseError::Incomplete(t)) => assert_eq!(t, "select 1"),
        other => panic!("unexpected outcome: {:?}", other),
    }
    match parse_command("desc tbl") {
        Err(ParseError::Incomplete(t)) => assert_eq!(t, "desc tbl"),
        other => panic!("unexpected outcome: {:?}", other),
    }
}

#[test]
fn parse_continuation_round_trip() {
    // The text inside Incomplete, with the missing terminator appended,
    // always parses as a complete command.
    let incomplete = match parse_command("select 1") {
        Err(ParseError::Incomplete(t)) => t,
        other => panic!("unexpected outcome: {:?}", other),
    };
    let with_block_end = format!("{}\n/", incomplete);
    assert!(matches!(parse_command(&with_block_end), Ok(Command::SQL(_))));

    let incomplete_desc = match parse_command("desc tbl") {
        Err(ParseError::Incomplete(t)) => t,
        other => panic!("unexpected outcome: {:?}", other),
    };
    let with_semi = format!("{};", incomplete_desc);
    assert!(matches!(
        parse_command(&with_semi),
        Ok(Command::Internal(InternalCommand::Describe(t))) if t == "tbl"
    ));
}

#[test]
fn parse_internal_none_for_plain_sql() {
    assert!(parse_internal_command("select 1;").is_none());
    assert!(matches!(
        parse_internal_command("desc t;"),
        Some(Ok(Command::Internal(InternalCommand::Describe(_))))
    ));
}

#[test]
fn need_connection_by_variant() {
    assert!(Command::SQL("select 1;".to_owned()).need_connection());
    assert!(Command::Internal(InternalCommand::Describe("t".to_owned())).need_connection());
    assert!(!Command::Shell("ls".to_owned()).need_connection());
    assert!(!Command::Internal(InternalCommand::Connect(Connection::default())).need_connection());
    assert!(!Command::Internal(InternalCommand::Exit).need_connection());
}

#[test]
fn validator_submits_anything_but_incomplete() {
    assert!(YspValidator::complete(""));
    assert!(YspValidator::complete("select 1;"));
    assert!(YspValidator::complete("!ls"));
    assert!(!YspValidator::complete("select 1"));
    assert!(!YspValidator::complete("desc t"));
    assert!(YspValidator::complete("conn bad@@string"));
}

#[test]
fn parse_crlf_terminated_line_is_incomplete() {
    // A trailing line terminator keeps a single-line statement incomplete:
    // the text itself no longer ends with `;`.
    assert!(matches!(
        parse_command("select 1;\r\n"),
        Err(ParseError::Incomplete(_))
    ));
    assert!(matches!(
        parse_command("select 1;\r\nfrom\n/"),
        Ok(Command::SQL(_))
    ));
}
