use canvas_core::cli::GlobalOptions;
use canvas_core::errors::{CanvasError, CliError};
use canvas_core::ids::CourseId;
use canvas_core::json::{module_prerequisites_input, DocumentSource, JsonValue};
use canvas_core::submissions::{
    submission_request, ImportFormat, SubmissionCommand, SubmissionRequest,
};

fn global(course: Option<u64>) -> GlobalOptions {
    let course = course.map(|c| CourseId::parse(&c.to_string()).expect("course"));
    GlobalOptions { course, json: false, quiet: false, confirm: false, explain: false }
}

fn grade(user: &str, rubric: DocumentSource) -> SubmissionCommand {
    SubmissionCommand::Grade {
        course: None,
        assignment: "5".to_string(),
        user: user.to_string(),
        score: "9.5".to_string(),
        rubric,
    }
}

#[test]
fn submission_grade_reads_rubric_document() {
    let rubric = DocumentSource::Read(r#"{"crit_1":{"points":3}}"#.to_string());
    match submission_request(grade("77", rubric), &global(Some(2))) {
        Ok(SubmissionRequest::Grade { course_id, assignment_id, user_id, score, rubric_assessment }) => {
            assert_eq!(course_id.get(), 2);
            assert_eq!(assignment_id.get(), 5);
            assert_eq!(user_id.get(), 77);
            assert_eq!(score, "9.5");
            assert!(rubric_assessment.is_some());
        }
        _ => panic!("expected grade"),
    }
    let empty = DocumentSource::Read("{}".to_string());
    assert!(matches!(
        submission_request(grade("77", empty), &global(Some(2))),
        Err(CliError::Canvas(CanvasError::InvalidRubricAssessment(s))) if s == "{}"
    ));
    assert!(matches!(
        submission_request(grade("77", DocumentSource::Conflicting), &global(Some(2))),
        Err(CliError::Canvas(CanvasError::InvalidRubricAssessment(s))) if s == "multiple_sources"
    ));
    assert!(matches!(
        submission_request(grade("me", DocumentSource::Conflicting), &global(Some(2))),
        Err(CliError::Canvas(CanvasError::InvalidUserId(s))) if s == "me"
    ));
    match submission_request(grade("77", DocumentSource::Absent), &global(Some(2))) {
        Ok(SubmissionRequest::Grade { rubric_assessment, .. }) => assert!(rubric_assessment.is_none()),
        _ => panic!("expected grade"),
    }
}

#[test]
fn submission_import_keeps_format_and_file() {
    let import = SubmissionCommand::Import {
        course: Some("4".to_string()),
        assignment: "6".to_string(),
        format: ImportFormat::Csv,
        file: "grades.csv".to_string(),
    };
    match submission_request(import, &global(None)) {
        Ok(SubmissionRequest::Import { course_id, assignment_id, format, file }) => {
            assert_eq!(course_id.get(), 4);
            assert_eq!(assignment_id.get(), 6);
            assert_eq!(format, ImportFormat::Csv);
            assert_eq!(file, "grades.csv");
        }
        _ => panic!("expected import"),
    }
    let list = SubmissionCommand::List { course: None, assignment: "0".to_string() };
    assert!(matches!(
        submission_request(list, &global(Some(4))),
        Err(CliError::Canvas(CanvasError::InvalidAssignmentId(s))) if s == "0"
    ));
}

#[test]
fn prerequisites_input_checks_sources() {
    assert!(matches!(module_prerequisites_input(DocumentSource::Absent), Ok(None)));
    assert!(matches!(
        module_prerequisites_input(DocumentSource::Conflicting),
        Err(CliError::Canvas(CanvasError::InvalidModulePrerequisites(s))) if s == "multiple_sources"
    ));
    let doc = DocumentSource::Read(r#"[1,"2"]"#.to_string());
    match module_prerequisites_input(doc) {
        Ok(Some(p)) => {
            let ids: Vec<u64> = p.ids().iter().map(|m| m.get()).collect();
            assert_eq!(ids, vec![1, 2]);
        }
        _ => panic!("expected prerequisites"),
    }
}
