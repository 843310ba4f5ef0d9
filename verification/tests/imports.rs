use canvas_core::errors::CanvasError;
use canvas_core::errors::CliError;
use canvas_core::imports::{json_import_rows, parse_import_row, read_json_import_rows, ImportRow};
use canvas_core::json::JsonValue;

/// The reading of a score text against a maximum, as the command line does it.
fn reading(raw: &str, max: f64) -> Result<f64, CanvasError> {
    match raw.trim().parse::<f64>() {
        Ok(v) if v.is_finite() && (0.0..=max).contains(&v) => Ok(v),
        _ => Err(CanvasError::InvalidScore(raw.to_string())),
    }
}

#[test]
fn import_row_rejects_missing_user_id() {
    let row = ImportRow { row: 1, user_id: "".to_string(), score: "10".to_string() };
    let score = reading(&row.score, 20.0);
    let parsed = parse_import_row(row, score);
    assert!(parsed.is_err());
}

#[test]
fn import_row_parses_score() {
    let row = ImportRow { row: 1, user_id: "5".to_string(), score: "9".to_string() };
    let score = reading(&row.score, 10.0);
    let parsed = parse_import_row(row, score).unwrap_or_else(|err| panic!("{err:?}"));
    assert_eq!(parsed.1.get(), 5);
    assert_eq!(parsed.2, 9.0);
}

#[test]
fn import_row_reasons_name_the_row() {
    let blank = ImportRow { row: 4, user_id: " ".to_string(), score: "".to_string() };
    assert_eq!(
        parse_import_row(blank, Err::<f64, _>(CanvasError::InvalidScore(String::new()))).err(),
        Some((4, "missing user_id and score".to_string()))
    );
    let no_score = ImportRow { row: 2, user_id: "5".to_string(), score: " ".to_string() };
    assert_eq!(
        parse_import_row(no_score, Ok(1.0)).err(),
        Some((2, "missing score".to_string()))
    );
    let bad_user = ImportRow { row: 3, user_id: " x7 ".to_string(), score: "1".to_string() };
    assert_eq!(
        parse_import_row(bad_user, Ok(1.0)).err(),
        Some((3, "invalid user id: x7".to_string()))
    );
    let too_high = ImportRow { row: 5, user_id: "8".to_string(), score: "30".to_string() };
    let score = reading(&too_high.score, 10.0);
    assert_eq!(
        parse_import_row(too_high, score).err(),
        Some((5, "invalid score: 30".to_string()))
    );
}

#[test]
fn json_rows_read_members_as_text() {
    let doc = JsonValue::Array(vec![
        JsonValue::Object(vec![
            ("user_id".to_string(), JsonValue::Number("5".to_string())),
            ("score".to_string(), JsonValue::Text("9.5".to_string())),
        ]),
        JsonValue::Text("not an object".to_string()),
        JsonValue::Object(vec![("score".to_string(), JsonValue::Bool(true))]),
    ]);
    let rows = json_import_rows(&doc).expect("rows");
    assert_eq!(rows.len(), 3);
    assert_eq!(rows[0], ImportRow { row: 1, user_id: "5".to_string(), score: "9.5".to_string() });
    assert_eq!(rows[1], ImportRow { row: 2, user_id: String::new(), score: String::new() });
    assert_eq!(rows[2], ImportRow { row: 3, user_id: String::new(), score: String::new() });
    assert!(json_import_rows(&JsonValue::Null).is_none());
}

#[test]
fn import_tally_counts_rows_and_names_status() {
    let mut tally = canvas_core::imports::ImportTally::new();
    assert_eq!(tally.status(), "imported");
    tally.record(true);
    tally.record(true);
    assert_eq!((tally.success, tally.failed), (2, 0));
    assert_eq!(tally.status(), "imported");
    tally.record(false);
    assert_eq!((tally.success, tally.failed), (2, 1));
    assert_eq!(tally.status(), "imported_with_errors");
}

#[test]
fn json_grade_files_read_rows_or_report_the_file() {
    let rows = read_json_import_rows("g.json".to_string(), r#"[{"user_id":5,"score":"9.5"},{}]"#).expect("rows");
    assert_eq!(rows[0], ImportRow { row: 1, user_id: "5".to_string(), score: "9.5".to_string() });
    assert_eq!(rows[1], ImportRow { row: 2, user_id: String::new(), score: String::new() });
    assert!(matches!(
        read_json_import_rows("g.json".to_string(), r#"{"user_id":5}"#),
        Err(CliError::FileRead(p, m)) if p == "g.json" && m == "expected JSON array"
    ));
    assert!(matches!(
        read_json_import_rows("g.json".to_string(), "[1,"),
        Err(CliError::FileRead(p, m)) if p == "g.json" && !m.is_empty()
    ));
}
