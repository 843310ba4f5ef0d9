use canvas_core::catalog::{
    collaboration_request, outcome_request, question_request, tool_request, CollaborationCommand,
    CollaborationRequest, OutcomeCommand, OutcomeRequest, QuestionCommand, QuestionRequest,
    ToolCommand, ToolRequest,
};
use canvas_core::cli::GlobalOptions;
use canvas_core::errors::{CanvasError, CliError};
use canvas_core::ids::CourseId;

fn global(course: Option<u64>) -> GlobalOptions {
    let course = course.map(|c| CourseId::parse(&c.to_string()).expect("course"));
    GlobalOptions { course, json: false, quiet: false, confirm: false, explain: false }
}

#[test]
fn outcome_delete_reads_group_then_outcome() {
    let delete = OutcomeCommand::Delete {
        course: None,
        group: "g".to_string(),
        outcome: "x".to_string(),
    };
    assert!(matches!(
        outcome_request(delete, &global(Some(2))),
        Err(CliError::Canvas(CanvasError::InvalidOutcomeGroupId(s))) if s == "g"
    ));
    let delete = OutcomeCommand::Delete {
        course: None,
        group: "4".to_string(),
        outcome: "5".to_string(),
    };
    match outcome_request(delete, &global(Some(2))) {
        Ok(OutcomeRequest::Delete { course_id, outcome_group_id, outcome_id }) => {
            assert_eq!((course_id.get(), outcome_group_id.get(), outcome_id.get()), (2, 4, 5));
        }
        _ => panic!("expected delete"),
    }
}

#[test]
fn tool_collaboration_and_question_ids_are_checked() {
    assert!(matches!(
        tool_request(ToolCommand::Delete { course: None, tool: "0".to_string() }, &global(Some(2))),
        Err(CliError::Canvas(CanvasError::InvalidExternalToolId(s))) if s == "0"
    ));
    assert!(matches!(
        tool_request(ToolCommand::List { course: None }, &global(None)),
        Err(CliError::MissingCourseId)
    ));
    assert!(matches!(
        tool_request(ToolCommand::List { course: None }, &global(Some(6))),
        Ok(ToolRequest::List { course_id }) if course_id.get() == 6
    ));
    assert!(matches!(
        collaboration_request(CollaborationCommand::Delete { collaboration: "7".to_string() }, &global(None)),
        Ok(CollaborationRequest::Delete { collaboration_id }) if collaboration_id.get() == 7
    ));
    assert!(matches!(
        question_request(QuestionCommand::Delete { bank: "3".to_string(), question: "q".to_string() }),
        Err(CliError::Canvas(CanvasError::InvalidQuestionId(s))) if s == "q"
    ));
    assert!(matches!(
        question_request(QuestionCommand::List { bank: " 3 ".to_string() }),
        Ok(QuestionRequest::List { bank_id }) if bank_id.get() == 3
    ));
}
