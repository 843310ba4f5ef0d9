use canvas_core::errors::CanvasError;
use canvas_core::json::{
    parse_assignment_overrides, parse_external_tool_config_json, parse_json_document,
    parse_module_prerequisites, parse_rubric_assessment, JsonValue, RubricAssessment,
};
use canvas_core::windows::AssignmentOverrideTarget;

#[test]
fn parse_assignment_overrides_accepts_section() {
    let raw = r#"[{"section_id":1,"due_at":"2025-01-01T00:00:00Z"}]"#;
    let parsed = parse_assignment_overrides(raw);
    assert!(parsed.is_ok());
}

#[test]
fn parse_assignment_overrides_rejects_conflicting_targets() {
    let raw = r#"[{"section_id":1,"student_ids":[2]}]"#;
    let parsed = parse_assignment_overrides(raw);
    assert!(parsed.is_err());
}

#[test]
fn parse_module_prerequisites_accepts_array() {
    let raw = r#"[1,"2"]"#;
    let parsed = parse_module_prerequisites(raw);
    assert!(parsed.is_ok());
}

#[test]
fn parse_rubric_assessment_rejects_non_object_json() {
    let raw = r#"["one"]"#;
    let parsed = parse_rubric_assessment(raw);
    assert!(parsed.is_err());
}

#[test]
fn parse_external_tool_config_json_requires_object() {
    let parsed = parse_external_tool_config_json(r#"["tool"]"#);
    assert!(parsed.is_err());
}

#[test]
fn rubric_assessment_requires_entries() {
    let parsed = RubricAssessment::new(Vec::new());
    assert!(parsed.is_err());
}

#[test]
fn json_documents_read_every_kind_of_value() {
    match parse_json_document(r#"{"a":[1,2.5,"x",true,null],"b":{}}"#) {
        Some(JsonValue::Object(members)) => {
            assert_eq!(members.len(), 2);
            assert_eq!(members[0].0, "a");
            match &members[0].1 {
                JsonValue::Array(items) => {
                    assert!(matches!(&items[0], JsonValue::Number(n) if n == "1"));
                    assert!(matches!(&items[1], JsonValue::Number(n) if n == "2.5"));
                    assert!(matches!(&items[2], JsonValue::Text(t) if t == "x"));
                    assert!(matches!(items[3], JsonValue::Bool(true)));
                    assert!(matches!(items[4], JsonValue::Null));
                }
                other => panic!("unexpected {:?}", other),
            }
            assert!(matches!(&members[1].1, JsonValue::Object(m) if m.is_empty()));
        }
        other => panic!("unexpected {:?}", other),
    }
    assert!(parse_json_document("{").is_none());
    assert!(parse_json_document("").is_none());
}

#[test]
fn overrides_keep_students_in_order() {
    let raw = r#"[{"student_ids":[7,"3"],"unlock_at":null,"lock_at":"2025-02-01T00:00:00Z"}]"#;
    let parsed = parse_assignment_overrides(raw).expect("overrides");
    let overrides = parsed.overrides();
    assert_eq!(overrides.len(), 1);
    match overrides[0].target() {
        AssignmentOverrideTarget::Students(ids) => {
            let got: Vec<u64> = ids.ids().iter().map(|id| id.get()).collect();
            assert_eq!(got, vec![7, 3]);
        }
        AssignmentOverrideTarget::Section(_) => panic!("expected students"),
    }
    assert!(overrides[0].dates().unlock_at().is_none());
    assert!(overrides[0].dates().lock_at().is_some());
}

fn override_error(raw: &str) -> CanvasError {
    parse_assignment_overrides(raw).expect_err("refused")
}

#[test]
fn overrides_report_each_refusal() {
    assert!(matches!(override_error("[{"), CanvasError::InvalidAssignmentOverrides(d) if d == "invalid_json"));
    assert!(matches!(override_error("{}"), CanvasError::InvalidAssignmentOverrides(d) if d == "expected_array"));
    assert!(matches!(override_error("[]"), CanvasError::InvalidAssignmentOverrides(d) if d == "empty"));
    assert!(matches!(override_error("[1]"), CanvasError::InvalidAssignmentOverrides(d) if d == "expected_object"));
    assert!(matches!(
        override_error("[{}]"),
        CanvasError::InvalidAssignmentOverrideTarget(d) if d == "missing_target"
    ));
    assert!(matches!(
        override_error(r#"[{"section_id":0}]"#),
        CanvasError::InvalidAssignmentOverrideTarget(d) if d == "invalid_section_id"
    ));
    assert!(matches!(
        override_error(r#"[{"student_ids":[]}]"#),
        CanvasError::InvalidAssignmentOverrideTarget(d) if d == "invalid_student_ids"
    ));
    assert!(matches!(
        override_error(r#"[{"section_id":1,"due_at":true}]"#),
        CanvasError::InvalidAssignmentOverrideDates(d) if d == "invalid_due_at"
    ));
    assert!(matches!(
        override_error(r#"[{"section_id":1,"due_at":"tomorrow"}]"#),
        CanvasError::InvalidDueDate(d) if d == "tomorrow"
    ));
    assert!(matches!(
        override_error(
            r#"[{"section_id":1,"unlock_at":"2025-01-02T00:00:00Z","due_at":"2025-01-01T00:00:00Z"}]"#
        ),
        CanvasError::InvalidAssignmentOverrideDates(d) if d == "invalid"
    ));
}

#[test]
fn prerequisites_keep_order_and_refuse_bad_items() {
    let parsed = parse_module_prerequisites(r#"["9",4]"#).expect("prerequisites");
    let got: Vec<u64> = parsed.ids().iter().map(|id| id.get()).collect();
    assert_eq!(got, vec![9, 4]);
    assert!(matches!(
        parse_module_prerequisites("[null]"),
        Err(CanvasError::InvalidModulePrerequisites(d)) if d == "invalid_module_id"
    ));
    assert!(matches!(
        parse_module_prerequisites(r#"["x"]"#),
        Err(CanvasError::InvalidModuleId(d)) if d == "x"
    ));
    assert!(matches!(
        parse_module_prerequisites("nope"),
        Err(CanvasError::InvalidModulePrerequisites(d)) if d == "invalid_json"
    ));
    assert!(parse_module_prerequisites("[]").expect("empty").ids().is_empty());
}

#[test]
fn rubric_assessment_accepts_object() {
    let raw = r#"{"crit":{"points":3}}"#;
    let parsed = parse_rubric_assessment(raw).expect("assessment");
    assert_eq!(parsed.entries().len(), 1);
    assert_eq!(parsed.entries()[0].0, "crit");
    assert!(matches!(
        parse_rubric_assessment("{}"),
        Err(CanvasError::InvalidRubricAssessment(d)) if d == "{}"
    ));
}

#[test]
fn tool_config_json_accepts_object() {
    let parsed = parse_external_tool_config_json(r#"{"title":"Tool"}"#);
    assert!(parsed.is_ok());
    assert!(parse_external_tool_config_json("{").is_err());
}
