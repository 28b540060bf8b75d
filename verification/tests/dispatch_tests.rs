use yasqlplus::command::Command;
use yasqlplus::command::InternalCommand;
use yasqlplus::conn::Connection;
use yasqlplus::context::ConnectionWrapper;
use yasqlplus::context::Context;
use yasqlplus::context::Prompt;
use yasqlplus::diag::DiagInfo;
use yasqlplus::diag::Error;
use yasqlplus::dispatch::connect_label;
use yasqlplus::dispatch::dispatch;
use yasqlplus::dispatch::error_directive;
use yasqlplus::dispatch::Action;
use yasqlplus::dispatch::AppError;
use yasqlplus::dispatch::Directive;
use yasqlplus::input::InputError;
use yasqlplus::parser::parse_command;

#[test]
fn dispatch_connect_applies_defaults() {
    let c = Connection {
        host: None,
        port: None,
        username: Some("sys".to_owned()),
        password: None,
    };
    match dispatch(&Command::Internal(InternalCommand::Connect(c)), false) {
        Action::Connect { host, port, username, password } => {
            assert_eq!(host, "127.0.0.1");
            assert_eq!(port, 1688);
            assert_eq!(username.as_deref(), Some("sys"));
            assert!(password.is_none());
        }
        other => panic!("unexpected action: {:?}", other),
    }
}

#[test]
fn dispatch_describe_is_metadata_query() {
    match dispatch(&Command::Internal(InternalCommand::Describe("t1".to_owned())), true) {
        Action::Execute { sql, describe } => {
            assert_eq!(sql, "select * from t1 where 1=2");
            assert!(describe);
        }
        other => panic!("unexpected action: {:?}", other),
    }
    assert!(matches!(
        dispatch(&Command::Internal(InternalCommand::Describe("t1".to_owned())), false),
        Action::NotConnected
    ));
}

#[test]
fn dispatch_sql_strips_one_terminator() {
    match dispatch(&Command::SQL("select 1;".to_owned()), true) {
        Action::Execute { sql, describe } => {
            assert_eq!(sql, "select 1");
            assert!(!describe);
        }
        other => panic!("unexpected action: {:?}", other),
    }
    match dispatch(&Command::SQL("begin\nnull;\nend;\n/".to_owned()), true) {
        Action::Execute { sql, .. } => assert_eq!(sql, "begin\nnull;\nend;\n"),
        other => panic!("unexpected action: {:?}", other),
    }
}

#[test]
fn dispatch_comment_is_silent() {
    // A whole-line comment executes nothing, connected or not.
    assert!(matches!(
        dispatch(&Command::SQL("-- note;".to_owned()), true),
        Action::Nothing
    ));
    assert!(matches!(
        dispatch(&Command::SQL("-- note;".to_owned()), false),
        Action::Nothing
    ));
    // Any other SQL without a connection reports so.
    assert!(matches!(
        dispatch(&Command::SQL("select 1;".to_owned()), false),
        Action::NotConnected
    ));
}

#[test]
fn dispatch_shell_and_exit() {
    assert!(matches!(
        dispatch(&Command::Shell("ls -l".to_owned()), false),
        Action::Shell(s) if s == "ls -l"
    ));
    assert!(matches!(
        dispatch(&Command::Internal(InternalCommand::Exit), false),
        Action::Exit
    ));
}

#[test]
fn dispatch_parsed_shell_keeps_remainder() {
    let cmd = parse_command("!vim ~/.bashrc").unwrap();
    assert!(matches!(
        dispatch(&cmd, false),
        Action::Shell(s) if s == "vim ~/.bashrc"
    ));
}

#[test]
fn connect_label_format() {
    assert_eq!(connect_label("sys", "db.example", 1688), "sys@db.example:1688");
}

#[test]
fn context_connect_transitions() {
    let mut ctx = Context::default();
    assert!(ctx.get_connection().is_none());
    assert!(matches!(ctx.get_prompt(), Prompt::Ready));
    assert_eq!(ctx.get_prompt().text(), "SQL");

    let conn = ConnectionWrapper {
        host: "h".to_owned(),
        port: 1688,
        username: "sys".to_owned(),
    };
    ctx.connect_succeeded(conn, connect_label("sys", "h", 1688));
    assert!(ctx.get_connection().is_some());
    match ctx.get_prompt() {
        Prompt::Connected(label) => assert_eq!(label, "sys@h:1688"),
        other => panic!("unexpected prompt: {:?}", other),
    }
    assert_eq!(ctx.get_prompt().text(), "sys@h:1688");

    ctx.connect_failed();
    assert!(ctx.get_connection().is_none());
    assert!(matches!(ctx.get_prompt(), Prompt::Ready));
}

#[test]
fn context_toggles_and_command() {
    let mut ctx = Context::default();
    assert!(!ctx.need_echo());
    assert!(!ctx.less_enabled());
    ctx.set_need_echo(true);
    ctx.set_less_enabled(true);
    assert!(ctx.need_echo());
    assert!(ctx.less_enabled());
    assert!(ctx.get_command().is_none());
    ctx.set_command(Some(Command::SQL("select 1;".to_owned())));
    assert!(matches!(ctx.get_command(), Some(Command::SQL(_))));
    ctx.set_connection(None);
    ctx.set_prompt(Prompt::Ready);
}

#[test]
fn error_directive_routing() {
    assert_eq!(error_directive(&AppError::Input(InputError::Eof)), Directive::Stop);
    assert_eq!(
        error_directive(&AppError::Input(InputError::Cancelled)),
        Directive::Ignore
    );
    // A failure of the input source itself is unrecoverable and
    // propagates as a process-level failure.
    assert_eq!(
        error_directive(&AppError::Input(InputError::Io("broken".to_owned()))),
        Directive::Fatal
    );
    assert_eq!(
        error_directive(&AppError::Input(InputError::Unknown("odd".to_owned()))),
        Directive::Fatal
    );
    // A parse error of one command is reported and the loop goes on.
    assert_eq!(
        error_directive(&AppError::Input(InputError::Parse(
            yasqlplus::parser::ParseError::ParsingError {
                err: yasqlplus::conn::ConnParsingError::Invalid,
                command: "conn a\u{1}b".to_owned(),
            }
        ))),
        Directive::Report
    );
    // Per-command I/O failures do not stop the loop either.
    assert_eq!(
        error_directive(&AppError::Io("disk".to_owned())),
        Directive::Report
    );
    let diag = DiagInfo {
        message: "m".to_owned(),
        sql_state: "S".to_owned(),
        code: 1,
        pos: (0, 0),
        sql: None,
    };
    assert_eq!(
        error_directive(&AppError::Client(Error::YasClient(diag))),
        Directive::Report
    );
}
