use yasqlplus::column::Column;
use yasqlplus::column::Type;
use yasqlplus::materialize::materialize;
use yasqlplus::materialize::Displayed;
use yasqlplus::result::Affection;
use yasqlplus::result::Executed;
use yasqlplus::result::LazyExecuted;
use yasqlplus::result::ResultSet;
use yasqlplus::result::Row;
use yasqlplus::result::SqlType;
use yasqlplus::value::Value;

fn column(name: &str, type_: Type, nullable: bool) -> Column {
    Column {
        display_size: 10,
        name: name.to_owned(),
        size: 10,
        type_,
        nullable,
        precision: 0,
        scale: 0,
        char_size: 10,
        display_char_size: 10,
    }
}

fn query_result(columns: Vec<Column>, rows: Vec<Row>) -> LazyExecuted {
    LazyExecuted {
        sql_type: SqlType::Query,
        result_set: ResultSet { columns, rows },
        affected: 0,
    }
}

#[test]
fn null_cells_marked_exactly() {
    // One None cell: exactly that cell renders the null marker and is
    // listed in the null positions; counts match the rowset exactly.
    let cols = vec![column("A", Type::Integer, true), column("B", Type::VarChar, true)];
    let rows = vec![
        Row { cells: vec![Some(Value::Integer(1)), None] },
        Row { cells: vec![Some(Value::Integer(2)), Some(Value::VarChar("x".to_owned()))] },
    ];
    match materialize(query_result(cols, rows), false) {
        Displayed::Query { header, body, nulls, fetched } => {
            assert_eq!(header, vec!["A".to_owned(), "B".to_owned()]);
            assert_eq!(fetched, 2);
            assert_eq!(body.len(), 2);
            assert_eq!(body[0].len(), 2);
            assert_eq!(body[1].len(), 2);
            assert_eq!(body[0][0], "1");
            assert_eq!(body[0][1], "<null>");
            assert_eq!(body[1][0], "2");
            assert_eq!(body[1][1], "x");
            assert_eq!(nulls, vec![(0usize, 1usize)]);
        }
        other => panic!("unexpected outcome: {:?}", other),
    }
}

#[test]
fn zero_row_query_keeps_counts() {
    let cols = vec![column("A", Type::Integer, false)];
    match materialize(query_result(cols, vec![]), false) {
        Displayed::Query { header, body, nulls, fetched } => {
            assert_eq!(header.len(), 1);
            assert!(body.is_empty());
            assert!(nulls.is_empty());
            assert_eq!(fetched, 0);
        }
        other => panic!("unexpected outcome: {:?}", other),
    }
}

#[test]
fn describe_renders_metadata_only() {
    // End to end: a 2-column, 0-row rowset materialized for a describe
    // renders only the column-metadata table: no row fetch, no count.
    let cols = vec![column("ID", Type::Integer, false), column("NAME", Type::VarChar, true)];
    let displayed = materialize(query_result(cols, vec![]), true);
    match &displayed {
        Displayed::Metadata { header, body } => {
            assert_eq!(header.len(), 7);
            assert_eq!(header[1], "Name");
            assert_eq!(body.len(), 2);
            assert_eq!(body[0][1], "ID");
            assert_eq!(body[0][2], "Integer");
            assert_eq!(body[1][1], "NAME");
            assert_eq!(body[1][2], "VarChar ?");
        }
        other => panic!("unexpected outcome: {:?}", other),
    }
    let lines = displayed.lines();
    assert_eq!(lines.len(), 1);
    assert!(!lines[0].contains("fetched"));
}

#[test]
fn dml_reports_affected_count() {
    let lazy = LazyExecuted {
        sql_type: SqlType::Update,
        result_set: ResultSet { columns: vec![], rows: vec![] },
        affected: 7,
    };
    match materialize(lazy, false) {
        Displayed::Affected { count } => assert_eq!(count, 7),
        other => panic!("unexpected outcome: {:?}", other),
    }
}

#[test]
fn dcl_and_unknown_report_status() {
    let dcl = LazyExecuted {
        sql_type: SqlType::Commit,
        result_set: ResultSet { columns: vec![], rows: vec![] },
        affected: 0,
    };
    assert!(matches!(materialize(dcl, false), Displayed::Instruction));
    let unknown = LazyExecuted {
        sql_type: SqlType::Other,
        result_set: ResultSet { columns: vec![], rows: vec![] },
        affected: 0,
    };
    assert!(matches!(materialize(unknown, false), Displayed::Succeeded));
}

#[test]
fn resolve_branches_on_sql_type() {
    let mk = |sql_type| LazyExecuted {
        sql_type,
        result_set: ResultSet { columns: vec![], rows: vec![] },
        affected: 3,
    };
    assert!(matches!(mk(SqlType::Query).resolve(), Executed::DQL(_)));
    match mk(SqlType::Insert).resolve() {
        Executed::DML(Affection { affected }) => assert_eq!(affected, 3),
        other => panic!("unexpected outcome: {:?}", other),
    }
    assert!(matches!(mk(SqlType::Delete).resolve(), Executed::DML(_)));
    assert!(matches!(mk(SqlType::Merge).resolve(), Executed::DML(_)));
    assert!(matches!(mk(SqlType::Grant).resolve(), Executed::DCL(_)));
    assert!(matches!(mk(SqlType::Rollback).resolve(), Executed::DCL(_)));
    assert!(matches!(mk(SqlType::Other).resolve(), Executed::Unknown));
}

#[test]
fn display_lines_for_counts() {
    let one = LazyExecuted {
        sql_type: SqlType::Query,
        result_set: ResultSet {
            columns: vec![column("A", Type::Integer, false)],
            rows: vec![Row { cells: vec![Some(Value::Integer(5))] }],
        },
        affected: 0,
    };
    let lines = materialize(one, false).lines();
    assert_eq!(lines.len(), 2);
    assert_eq!(lines[1], "1 row(s) fetched");

    let empty = LazyExecuted {
        sql_type: SqlType::Query,
        result_set: ResultSet { columns: vec![column("A", Type::Integer, false)], rows: vec![] },
        affected: 0,
    };
    let lines = materialize(empty, false).lines();
    assert_eq!(lines, vec!["0 row(s) fetched".to_owned()]);

    assert_eq!(
        Displayed::Affected { count: 4 }.lines(),
        vec!["4 row(s) affected".to_owned()]
    );
    assert_eq!(Displayed::Instruction.lines(), vec!["DCL executed".to_owned()]);
    assert_eq!(Displayed::Succeeded.lines(), vec!["Succeed".to_owned()]);
}

#[test]
fn rendered_table_contains_cells() {
    let cols = vec![column("A", Type::Integer, false)];
    let rows = vec![Row { cells: vec![Some(Value::Integer(42))] }];
    let lines = materialize(query_result(cols, rows), false).lines();
    assert_eq!(lines.len(), 2);
    // The table text really carries the rendered cells, so the tabled
    // wrapper cannot have handed its argument back unchanged.
    assert!(lines[0].contains("A"));
    assert!(lines[0].contains("42"));
}

#[test]
fn value_rendering() {
    assert_eq!(Value::Bool(true).render(), "true");
    assert_eq!(Value::Bool(false).render(), "false");
    assert_eq!(Value::TinyInt(-5).render(), "-5");
    assert_eq!(Value::SmallInt(300).render(), "300");
    assert_eq!(Value::Integer(0).render(), "0");
    assert_eq!(Value::BigInt(i64::MIN).render(), "-9223372036854775808");
    assert_eq!(Value::BigInt(i64::MAX).render(), "9223372036854775807");
    assert_eq!(Value::Bit(18446744073709551615).render(), "18446744073709551615");
    assert_eq!(Value::Number("3.14".to_owned()).render(), "3.14");
    assert_eq!(Value::VarChar("hello".to_owned()).render(), "hello");
    assert_eq!(Value::Float(format!("{}", 1.5f32)).render(), "1.5");
    assert_eq!(Value::Double(format!("{}", 2.25f64)).render(), "2.25");
}

#[test]
fn describe_end_to_end() {
    // Parse `desc t1;`, dispatch it on a connected session, execute the
    // synthesized metadata query against a mock 2-column, 0-row rowset,
    // and render: only the column-metadata table appears, no row fetch
    // and no row-count line.
    let command = yasqlplus::parser::parse_command("desc t1;").unwrap();
    let (sql, describe) = match yasqlplus::dispatch::dispatch(&command, true) {
        yasqlplus::dispatch::Action::Execute { sql, describe } => (sql, describe),
        other => panic!("unexpected action: {:?}", other),
    };
    assert_eq!(sql, "select * from t1 where 1=2");
    assert!(describe);

    let mock = query_result(
        vec![column("ID", Type::Integer, false), column("NAME", Type::VarChar, true)],
        vec![],
    );
    let lines = materialize(mock, describe).lines();
    assert_eq!(lines.len(), 1);
    assert!(lines[0].contains("ID"));
    assert!(lines[0].contains("NAME"));
    assert!(!lines[0].contains("fetched"));
}
