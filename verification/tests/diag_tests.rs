use yasqlplus::diag::build_diag;
use yasqlplus::diag::refine_plsql_message;
use yasqlplus::diag::DiagInfo;
use yasqlplus::diag::Error;

#[test]
fn diag_summary_form() {
    let d = DiagInfo {
        message: "table not found".to_owned(),
        sql_state: "HY000".to_owned(),
        code: 42,
        pos: (0, 0),
        sql: None,
    };
    assert_eq!(d.render(), "YAS-00042: table not found (SQL State: HY000)");
}

#[test]
fn diag_summary_pads_to_five() {
    let d = DiagInfo {
        message: "m".to_owned(),
        sql_state: "S".to_owned(),
        code: 12345,
        pos: (0, 0),
        sql: None,
    };
    assert_eq!(d.render(), "YAS-12345: m (SQL State: S)");
}

#[test]
fn diag_caret_points_at_column() {
    let d = DiagInfo {
        message: "syntax error".to_owned(),
        sql_state: "HY000".to_owned(),
        code: 1,
        pos: (1, 8),
        sql: Some("select x from t".to_owned()),
    };
    // heading "  1 | " is 6 wide; the caret sits under 1-based column 8.
    assert_eq!(
        d.render(),
        "  1 | select x from t\n             ^ syntax error"
    );
}

#[test]
fn diag_second_line_of_sql() {
    let d = DiagInfo {
        message: "bad".to_owned(),
        sql_state: "S".to_owned(),
        code: 1,
        pos: (2, 1),
        sql: Some("select\nfrom t".to_owned()),
    };
    assert_eq!(d.render(), "  2 | from t\n      ^ bad");
}

#[test]
fn diag_empty_sql_falls_back_to_message() {
    let d = DiagInfo {
        message: "just this".to_owned(),
        sql_state: "S".to_owned(),
        code: 1,
        pos: (3, 4),
        sql: Some(String::new()),
    };
    assert_eq!(d.render(), "just this");
}

#[test]
fn diag_no_sql_falls_back_to_message() {
    let d = DiagInfo {
        message: "raw".to_owned(),
        sql_state: "S".to_owned(),
        code: 1,
        pos: (3, 4),
        sql: None,
    };
    assert_eq!(d.render(), "raw");
}

#[test]
fn plsql_message_unpacked() {
    let (msg, line, col) =
        refine_plsql_message("PL/SQL compiling errors:\n[3:7] identifier undeclared", -1, -1);
    assert_eq!(msg, "identifier undeclared");
    assert_eq!(line, 3);
    assert_eq!(col, 7);
}

#[test]
fn plsql_shape_mismatch_keeps_message() {
    let (msg, line, col) = refine_plsql_message("ordinary error", 5, 6);
    assert_eq!(msg, "ordinary error");
    assert_eq!(line, 5);
    assert_eq!(col, 6);

    let (msg, line, col) = refine_plsql_message("PL/SQL compiling errors:\nnopositionhere", 5, 6);
    assert_eq!(msg, "PL/SQL compiling errors:\nnopositionhere");
    assert_eq!(line, 5);
    assert_eq!(col, 6);
}

#[test]
fn build_diag_applies_refinement() {
    let d = build_diag(
        "PL/SQL compiling errors:\n[2:4] bad block".to_owned(),
        "HY000".to_owned(),
        9,
        -1,
        -1,
        Some("begin\nx := ;\nend;".to_owned()),
    );
    assert_eq!(d.message, "bad block");
    assert_eq!(d.pos, (2, 4));
    assert_eq!(d.code, 9);
    assert_eq!(d.render(), "  2 | x := ;\n         ^ bad block");
}

#[test]
fn error_render_by_variant() {
    let diag = DiagInfo {
        message: "m".to_owned(),
        sql_state: "S".to_owned(),
        code: 2,
        pos: (0, 0),
        sql: None,
    };
    assert_eq!(Error::YasClient(diag).render(), "YAS-00002: m (SQL State: S)");
    assert_eq!(Error::Other("boom".to_owned()).render(), "boom");
}

#[test]
fn diag_out_of_range_line_quotes_nothing() {
    let d = DiagInfo {
        message: "m".to_owned(),
        sql_state: "S".to_owned(),
        code: 1,
        pos: (5, 2),
        sql: Some("one line".to_owned()),
    };
    assert_eq!(d.render(), "  5 | \n       ^ m");
}

#[test]
fn diag_nonpositive_line_falls_back_to_message() {
    let d = DiagInfo {
        message: "m".to_owned(),
        sql_state: "S".to_owned(),
        code: 1,
        pos: (0, 3),
        sql: Some("select".to_owned()),
    };
    assert_eq!(d.render(), "m");
}
