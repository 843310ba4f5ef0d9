use canvas_core::cli::GlobalOptions;
use canvas_core::errors::{CanvasError, CliError};
use canvas_core::ids::CourseId;
use canvas_core::reports::{report_request, ReportCommand, ReportFormat, ReportRequest};

fn global(course: Option<u64>) -> GlobalOptions {
    let course = course.map(|c| CourseId::parse(&c.to_string()).expect("course"));
    GlobalOptions { course, json: false, quiet: false, confirm: false, explain: false }
}

#[test]
fn report_file_needs_csv_before_course() {
    let json_file = ReportCommand::GradebookExport {
        course: Some("bad".to_string()),
        format: ReportFormat::Json,
        output: Some("grades.json".to_string()),
    };
    assert!(matches!(
        report_request(json_file, &global(None)),
        Err(CliError::InvalidReportFormat(s)) if s == "output_requires_csv"
    ));
    let csv_file = ReportCommand::GradeChangeLog {
        course: None,
        format: ReportFormat::Csv,
        output: Some("log.csv".to_string()),
    };
    match report_request(csv_file, &global(Some(8))) {
        Ok(ReportRequest::GradeChangeLog(x)) => {
            assert_eq!(x.course_id.get(), 8);
            assert_eq!(x.format, ReportFormat::Csv);
            assert_eq!(x.output, Some("log.csv".to_string()));
        }
        _ => panic!("expected grade change log"),
    }
}

#[test]
fn report_course_is_checked() {
    let status = ReportCommand::SubmissionStatus {
        course: Some("x1".to_string()),
        format: ReportFormat::Json,
        output: None,
    };
    assert!(matches!(
        report_request(status, &global(Some(8))),
        Err(CliError::Canvas(CanvasError::InvalidCourseId(s))) if s == "x1"
    ));
    let activity = ReportCommand::CourseActivity { course: None };
    assert!(matches!(report_request(activity, &global(None)), Err(CliError::MissingCourseId)));
    let activity = ReportCommand::CourseActivity { course: Some("5".to_string()) };
    match report_request(activity, &global(None)) {
        Ok(ReportRequest::CourseActivitySummary { course_id }) => assert_eq!(course_id.get(), 5),
        _ => panic!("expected activity"),
    }
}
