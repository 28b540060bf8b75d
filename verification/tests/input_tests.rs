use yasqlplus::column::Column;
use yasqlplus::column::Type;
use yasqlplus::command::Command;
use yasqlplus::completer::column_candidates;
use yasqlplus::completer::keywords;
use yasqlplus::completer::YspCandidate;
use yasqlplus::completer::YspCompleter;
use yasqlplus::input::feed_buffer;
use yasqlplus::input::FeedOutcome;
use yasqlplus::input::InputError;
use yasqlplus::input::SingleCommand;
use yasqlplus::table::ColumnWrapper;

#[test]
fn single_command_served_once() {
    let mut src = SingleCommand::new("select 1;".to_owned());
    match src.next_command() {
        Ok(Some((Command::SQL(s), raw))) => {
            assert_eq!(s, "select 1;");
            assert_eq!(raw, "select 1;");
        }
        other => panic!("unexpected outcome: {:?}", other),
    }
    assert!(matches!(src.next_command(), Err(InputError::Eof)));
}

#[test]
fn single_command_parse_failure() {
    let mut src = SingleCommand::new("conn a@b@c".to_owned());
    assert!(matches!(src.next_command(), Err(InputError::Parse(_))));
}

#[test]
fn feed_buffer_continuation() {
    assert!(matches!(feed_buffer("select 1\n"), FeedOutcome::NeedMore));
    match feed_buffer("select 1;\n") {
        FeedOutcome::Complete(Command::SQL(s), text) => {
            assert_eq!(s, "select 1;");
            assert_eq!(text, "select 1;");
        }
        _ => panic!("expected a complete command"),
    }
    match feed_buffer("select 1\nfrom t\n/\n") {
        FeedOutcome::Complete(Command::SQL(s), _) => assert_eq!(s, "select 1\nfrom t\n/"),
        _ => panic!("expected a complete command"),
    }
    assert!(matches!(feed_buffer("\n"), FeedOutcome::Rejected(_)));
}

#[test]
fn completer_filters_and_strips() {
    let completer = YspCompleter::new(
        vec!["USERS".to_owned(), "ORDERS".to_owned()],
        vec!["USER_VIEW".to_owned()],
    );
    let cands = completer.complete_query("select * from us");
    assert_eq!(cands.len(), 2);
    assert!(matches!(&cands[0], YspCandidate::Table(t) if t == "ERS"));
    assert!(matches!(&cands[1], YspCandidate::View(v) if v == "ER_VIEW"));
    assert_eq!(cands[0].display(), "ERS");
    assert_eq!(cands[1].replacement(), "ER_VIEW");
}

#[test]
fn completer_empty_prefix_offers_all() {
    let completer = YspCompleter::new(vec!["T1".to_owned()], vec!["V1".to_owned()]);
    let cands = completer.complete_query("select * from ");
    assert_eq!(cands.len(), 2);
    assert!(matches!(&cands[0], YspCandidate::Table(t) if t == "T1"));
    assert!(matches!(&cands[1], YspCandidate::View(v) if v == "V1"));
}

#[test]
fn column_candidates_filter() {
    let names = vec!["ID".to_owned(), "NAME".to_owned(), "NOTE".to_owned()];
    let cands = column_candidates(&names, "N");
    assert_eq!(cands.len(), 2);
    assert!(matches!(&cands[0], YspCandidate::Column(c) if c == "AME"));
    assert!(matches!(&cands[1], YspCandidate::Column(c) if c == "OTE"));
}

#[test]
fn keyword_list() {
    assert_eq!(keywords(), vec!["SELECT", "CREATE", "INSERT"]);
}

#[test]
fn column_wrapper_rows() {
    let col = Column {
        display_size: 20,
        name: "ID".to_owned(),
        size: 4,
        type_: Type::Integer,
        nullable: false,
        precision: 9,
        scale: 0,
        char_size: 4,
        display_char_size: 11,
    };
    assert_eq!(
        ColumnWrapper::headers(),
        vec!["DisplaySize", "Name", "Type", "Precision", "Scale", "CharSize", "DisplayCharSize"]
    );
    assert_eq!(
        ColumnWrapper(&col).fields(),
        vec!["11", "ID", "Integer", "9", "0", "4", "11"]
    );
}
