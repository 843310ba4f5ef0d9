use canvas_core::assignments::{
    assignment_request, AssignmentCommand, AssignmentRequest, AssignmentUpdateForm,
    AssignmentUpdateInput,
};
use canvas_core::cli::GlobalOptions;
use canvas_core::dates::DueDate;
use canvas_core::errors::{CanvasError, CliError};
use canvas_core::ids::CourseId;
use canvas_core::json::{DocumentSource, JsonValue};
use canvas_core::kinds::PublishState;
use canvas_core::names::AssignmentName;

fn global(course: Option<u64>) -> GlobalOptions {
    let course = course.map(|c| CourseId::parse(&c.to_string()).expect("course"));
    GlobalOptions { course, json: false, quiet: false, confirm: false, explain: false }
}

fn section_overrides() -> JsonValue {
    // [{"section_id":1,"due_at":"2025-01-01T00:00:00Z"}]
    JsonValue::Object(vec![
        ("section_id".to_string(), JsonValue::Number("1".to_string())),
        ("due_at".to_string(), JsonValue::Text("2025-01-01T00:00:00Z".to_string())),
    ])
}

fn create(points: Option<Result<f64, String>>, overrides: DocumentSource) -> AssignmentCommand<f64> {
    AssignmentCommand::Create {
        course: None,
        name: " Essay ".to_string(),
        points,
        due_at: Some("2025-02-01T00:00:00Z".to_string()),
        publish_state: Some("unpublished".to_string()),
        peer_review_mode: None,
        peer_review_assign_at: None,
        peer_review_due_at: None,
        group_assignment_mode: Some("individual".to_string()),
        group_category_id: None,
        overrides,
    }
}

fn update_with(group_mode: Option<&str>, overrides: DocumentSource) -> AssignmentCommand<f64> {
    AssignmentCommand::Update {
        course: None,
        assignment: "12".to_string(),
        name: None,
        points: None,
        due_at: None,
        publish_state: None,
        peer_review_mode: None,
        peer_review_assign_at: None,
        peer_review_due_at: None,
        group_assignment_mode: group_mode.map(|m| m.to_string()),
        group_category_id: None,
        overrides,
    }
}

#[test]
fn assignment_update_requires_fields() {
    let update = AssignmentUpdateInput::<f64>::new(None, None, None, None);
    assert!(update.is_err());
}

#[test]
fn assignment_update_form_maps_fields() {
    let name: AssignmentName = "Quiz 1".parse().expect("name");
    let points: f64 = "10".parse().expect("points");
    let due_at: DueDate = "2025-01-01T00:00:00Z".parse().expect("due");
    let update = AssignmentUpdateInput::new(
        Some(name),
        Some(points),
        Some(due_at),
        Some(PublishState::Published),
    )
    .expect("update");
    let form = AssignmentUpdateForm::from_input(&update);
    assert_eq!(form.name.as_deref(), Some("Quiz 1"));
    assert_eq!(form.points_possible, Some(10.0));
    assert_eq!(form.due_at.as_deref(), Some("2025-01-01T00:00:00Z"));
    assert_eq!(form.published, Some(true));
}

#[test]
fn assignment_create_reads_fields_and_settings() {
    let doc = DocumentSource::Read(r#"[{"section_id":1,"due_at":"2025-01-01T00:00:00Z"}]"#.to_string());
    match assignment_request(create(Some(Ok(25.0)), doc), &global(Some(3))) {
        Ok(AssignmentRequest::Create { course_id, input, settings }) => {
            assert_eq!(course_id.get(), 3);
            assert_eq!(input.name.as_str(), "Essay");
            assert_eq!(input.points_possible, Some(25.0));
            assert_eq!(input.publish_state, Some(PublishState::Unpublished));
            assert!(settings.peer_reviews.is_none());
            assert!(settings.group_assignment.is_some());
            assert_eq!(settings.overrides.map(|o| o.overrides().len()), Some(1));
        }
        _ => panic!("expected create"),
    }
}

#[test]
fn assignment_refusals_come_in_order() {
    let both = assignment_request(create(Some(Err("lots".to_string())), DocumentSource::Conflicting), &global(Some(3)));
    assert!(matches!(both, Err(CliError::Canvas(CanvasError::InvalidPointsPossible(s))) if s == "lots"));
    let conflicting = assignment_request(create(None, DocumentSource::Conflicting), &global(Some(3)));
    assert!(matches!(
        conflicting,
        Err(CliError::Canvas(CanvasError::InvalidAssignmentOverrides(s))) if s == "multiple_sources"
    ));
    let unreadable = assignment_request(
        create(None, DocumentSource::Unreadable("o.json".to_string(), "missing".to_string())),
        &global(Some(3)),
    );
    assert!(matches!(unreadable, Err(CliError::FileRead(p, m)) if p == "o.json" && m == "missing"));
    let not_json = assignment_request(create(None, DocumentSource::Read("[".to_string())), &global(Some(3)));
    assert!(matches!(
        not_json,
        Err(CliError::Canvas(CanvasError::InvalidAssignmentOverrides(s))) if s == "invalid_json"
    ));
}

#[test]
fn assignment_update_counts_settings_as_changes() {
    match assignment_request(update_with(Some("individual"), DocumentSource::Absent), &global(Some(3))) {
        Ok(AssignmentRequest::Update { assignment_id, input, settings, .. }) => {
            assert_eq!(assignment_id.get(), 12);
            assert!(input.name.is_none());
            assert!(settings.group_assignment.is_some());
        }
        _ => panic!("expected update"),
    }
    assert!(matches!(
        assignment_request(update_with(None, DocumentSource::Absent), &global(Some(3))),
        Err(CliError::Canvas(CanvasError::InvalidAssignmentUpdate(s))) if s == "no_fields"
    ));
    let review_without_mode: AssignmentCommand<f64> = AssignmentCommand::Update {
        course: None,
        assignment: "12".to_string(),
        name: None,
        points: None,
        due_at: None,
        publish_state: None,
        peer_review_mode: None,
        peer_review_assign_at: Some("2025-01-01T00:00:00Z".to_string()),
        peer_review_due_at: None,
        group_assignment_mode: None,
        group_category_id: None,
        overrides: DocumentSource::Absent,
    };
    assert!(matches!(
        assignment_request(review_without_mode, &global(Some(3))),
        Err(CliError::Canvas(CanvasError::InvalidPeerReviewSettings(s))) if s == "missing_mode"
    ));
}
