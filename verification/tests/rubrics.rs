use canvas_core::cli::GlobalOptions;
use canvas_core::contexts::RubricAssociationTarget;
use canvas_core::errors::{CanvasError, CliError};
use canvas_core::ids::CourseId;
use canvas_core::kinds::RubricSelection;
use canvas_core::rubrics::{rubric_request, RubricCommand, RubricRequest};

fn global(course: Option<u64>) -> GlobalOptions {
    let course = course.map(|c| CourseId::parse(&c.to_string()).expect("course"));
    GlobalOptions { course, json: false, quiet: false, confirm: false, explain: false }
}

fn attach(assignment: Option<&str>, outcome: Option<&str>, grading: &str) -> RubricCommand {
    RubricCommand::Attach {
        course: None,
        rubric: "3".to_string(),
        assignment: assignment.map(|a| a.to_string()),
        outcome: outcome.map(|o| o.to_string()),
        grading: grading.to_string(),
        title: Some("Essay rubric".to_string()),
    }
}

#[test]
fn rubric_attach_needs_exactly_one_target() {
    match rubric_request(attach(Some("8"), None, "Rubric"), &global(Some(1))) {
        Ok(RubricRequest::Attach { course_id, input }) => {
            assert_eq!(course_id.get(), 1);
            assert_eq!(input.rubric_id.get(), 3);
            assert!(matches!(input.target, RubricAssociationTarget::Assignment(a) if a.get() == 8));
            assert_eq!(input.selection, RubricSelection::Rubric);
            assert_eq!(input.title.as_deref(), Some("Essay rubric"));
        }
        _ => panic!("expected attach"),
    }
    assert!(matches!(
        rubric_request(attach(None, None, "rubric"), &global(Some(1))),
        Err(CliError::Canvas(CanvasError::InvalidRubricAssociationTarget(s))) if s == "missing_target"
    ));
    assert!(matches!(
        rubric_request(attach(Some("8"), Some("9"), "rubric"), &global(Some(1))),
        Err(CliError::Canvas(CanvasError::InvalidRubricAssociationTarget(s))) if s == "conflicting_target"
    ));
    assert!(matches!(
        rubric_request(attach(None, Some("9"), "sometimes"), &global(Some(1))),
        Err(CliError::Canvas(CanvasError::InvalidRubricSelection(s))) if s == "sometimes"
    ));
    assert!(matches!(
        rubric_request(attach(Some("x"), Some("9"), "rubric"), &global(Some(1))),
        Err(CliError::Canvas(CanvasError::InvalidAssignmentId(s))) if s == "x"
    ));
}

#[test]
fn rubric_delete_and_detach_read_ids() {
    let delete = RubricCommand::Delete { course: None, rubric: "0".to_string() };
    assert!(matches!(
        rubric_request(delete, &global(Some(1))),
        Err(CliError::Canvas(CanvasError::InvalidRubricId(s))) if s == "0"
    ));
    let detach = RubricCommand::Detach { course: None, association: "12".to_string() };
    match rubric_request(detach, &global(Some(1))) {
        Ok(RubricRequest::Detach { rubric_association_id, .. }) => {
            assert_eq!(rubric_association_id.get(), 12)
        }
        _ => panic!("expected detach"),
    }
}
