use canvas_core::cli::GlobalOptions;
use canvas_core::errors::CliError;
use canvas_core::gates::{
    auth_check_gate, config_init_gate, course_gate, report_gate, submission_gate, Gate,
};
use canvas_core::ids::{AssignmentId, CourseId};
use canvas_core::reports::{ReportExportRequest, ReportFormat, ReportRequest};
use canvas_core::requests::CourseRequest;
use canvas_core::submissions::SubmissionRequest;

fn options(explain: bool, confirm: bool, json: bool) -> GlobalOptions {
    GlobalOptions { course: None, json, quiet: false, confirm, explain }
}

fn course(id: u64) -> CourseId {
    CourseId::parse(&id.to_string()).expect("course")
}

#[test]
fn explain_shows_the_plan_and_stops() {
    match config_init_gate(&options(true, false, false)) {
        Gate::Explain(command, action) => {
            assert_eq!(command, "config init");
            assert_eq!(action.action, "prompt for Canvas host/token and write config");
            assert_eq!(action.risk, "writes local config");
            assert!(action.requires_confirmation);
        }
        other => panic!("unexpected {:?}", other),
    }
    match course_gate(&CourseRequest::Show { course_id: course(3) }, &options(true, false, false)) {
        Gate::Explain(command, action) => {
            assert_eq!(command, "course show");
            assert_eq!(action.action, "show course summary");
            assert!(!action.requires_confirmation);
        }
        other => panic!("unexpected {:?}", other),
    }
    assert!(matches!(auth_check_gate(&options(true, true, false)), Gate::Explain("auth check", _)));
}

#[test]
fn destructive_steps_need_confirm() {
    assert!(matches!(
        config_init_gate(&options(false, false, false)),
        Gate::Refuse(CliError::ConfirmationRequired("config init"))
    ));
    assert!(matches!(config_init_gate(&options(false, true, false)), Gate::Proceed));
    assert!(matches!(auth_check_gate(&options(false, false, false)), Gate::Proceed));
    assert!(matches!(course_gate(&CourseRequest::List, &options(false, false, false)), Gate::Proceed));
    let list = SubmissionRequest::List {
        course_id: course(3),
        assignment_id: AssignmentId::parse("5").expect("assignment"),
    };
    assert!(matches!(submission_gate(&list, &options(false, false, false)), Gate::Proceed));
}

#[test]
fn reports_refuse_tables_in_json_output() {
    let export = ReportRequest::GradebookExport(ReportExportRequest {
        course_id: course(4),
        format: ReportFormat::Csv,
        output: None,
    });
    assert!(matches!(
        report_gate(&export, &options(false, false, true)),
        Gate::Refuse(CliError::InvalidReportFormat(s)) if s == "json_output_with_csv"
    ));
    assert!(matches!(report_gate(&export, &options(false, false, false)), Gate::Proceed));
    assert!(matches!(
        report_gate(&export, &options(true, false, true)),
        Gate::Explain("report gradebook-export", _)
    ));
}
