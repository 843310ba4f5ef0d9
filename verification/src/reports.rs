//! Course reports: which report a command asks for, in which format, and
//! where a table is written.

use crate::cli::{course_choice, course_for, course_refusal, GlobalOptions};
use crate::errors::CliError;
use crate::ids::CourseId;
use crate::text::to_owned_string;
use vstd::prelude::*;

verus! {

/// How an exported report is given back.
#[derive(Debug, Clone, Copy, PartialEq, Eq, Structural)]
pub enum ReportFormat {
    Json,
    Csv,
}

/// A report command as given on the command line, unvalidated; `output` is
/// the path of a file to write the table to.
#[derive(Debug, Clone, PartialEq, Eq)]
pub enum ReportCommand {
    GradebookExport { course: Option<String>, format: ReportFormat, output: Option<String> },
    SubmissionStatus { course: Option<String>, format: ReportFormat, output: Option<String> },
    CourseActivity { course: Option<String> },
    GradeChangeLog { course: Option<String>, format: ReportFormat, output: Option<String> },
}

/// An export of a course report.
#[derive(Debug, Clone, PartialEq, Eq)]
pub struct ReportExportRequest {
    pub course_id: CourseId,
    pub format: ReportFormat,
    pub output: Option<String>,
}

/// A validated report command.
#[derive(Debug, Clone, PartialEq, Eq)]
pub enum ReportRequest {
    GradebookExport(ReportExportRequest),
    SubmissionStatus(ReportExportRequest),
    CourseActivitySummary { course_id: CourseId },
    GradeChangeLog(ReportExportRequest),
}

/// Whether a format and an output file go together: a file is written only
/// as a table.
pub open spec fn output_allowed(format: ReportFormat, output: Option<String>) -> bool {
    !(format == ReportFormat::Json && output is Some)
}

/// Whether `x` is the export of `course`'s report in `format` to `output`.
pub open spec fn export_of(
    x: ReportExportRequest,
    course: Option<String>,
    default: Option<CourseId>,
    format: ReportFormat,
    output: Option<String>,
) -> bool {
    course_choice(course, default) == Some(x.course_id@) && x.format == format && x.output
        == output
}

/// Whether `e` refuses an export: a file asked for without the table format
/// first, then the course.
pub open spec fn export_refusal(
    course: Option<String>,
    default: Option<CourseId>,
    format: ReportFormat,
    output: Option<String>,
    e: CliError,
) -> bool {
    if !output_allowed(format, output) {
        e matches CliError::InvalidReportFormat(s) && s@ == "output_requires_csv"@
    } else {
        course_choice(course, default) is None && course_refusal(course, e)
    }
}

/// Whether `r` is what the report command `command` stands for.
pub open spec fn report_outcome(
    command: ReportCommand,
    default: Option<CourseId>,
    r: Result<ReportRequest, CliError>,
) -> bool {
    match command {
        ReportCommand::GradebookExport { course, format, output } => match r {
            Ok(req) => output_allowed(format, output) && (req matches ReportRequest::GradebookExport(
                x,
            ) && export_of(x, course, default, format, output)),
            Err(e) => export_refusal(course, default, format, output, e),
        },
        ReportCommand::SubmissionStatus { course, format, output } => match r {
            Ok(req) => output_allowed(format, output) && (req matches ReportRequest::SubmissionStatus(
                x,
            ) && export_of(x, course, default, format, output)),
            Err(e) => export_refusal(course, default, format, output, e),
        },
        ReportCommand::CourseActivity { course } => match r {
            Ok(req) => req matches ReportRequest::CourseActivitySummary { course_id }
                && course_choice(course, default) == Some(course_id@),
            Err(e) => course_choice(course, default) is None && course_refusal(course, e),
        },
        ReportCommand::GradeChangeLog { course, format, output } => match r {
            Ok(req) => output_allowed(format, output) && (req matches ReportRequest::GradeChangeLog(
                x,
            ) && export_of(x, course, default, format, output)),
            Err(e) => export_refusal(course, default, format, output, e),
        },
    }
}

fn export_request(course: Option<String>, format: ReportFormat, output: Option<String>, global: &GlobalOptions) -> (r:
    Result<ReportExportRequest, CliError>)
    ensures
        match r {
            Ok(x) => output_allowed(format, output) && export_of(
                x,
                course,
                global.course,
                format,
                output,
            ),
            Err(e) => export_refusal(course, global.course, format, output, e),
        },
{
    if format == ReportFormat::Json && output.is_some() {
        return Err(CliError::InvalidReportFormat(to_owned_string("output_requires_csv")));
    }
    let course_id = course_for(course, global)?;
    Ok(ReportExportRequest { course_id, format, output })
}

/// The validated request that a report command stands for.
pub fn report_request(command: ReportCommand, global: &GlobalOptions) -> (r: Result<
    ReportRequest,
    CliError,
>)
    ensures
        report_outcome(command, global.course, r),
{
    match command {
        ReportCommand::GradebookExport { course, format, output } => {
            let x = export_request(course, format, output, global)?;
            Ok(ReportRequest::GradebookExport(x))
        },
        ReportCommand::SubmissionStatus { course, format, output } => {
            let x = export_request(course, format, output, global)?;
            Ok(ReportRequest::SubmissionStatus(x))
        },
        ReportCommand::CourseActivity { course } => {
            let course_id = course_for(course, global)?;
            Ok(ReportRequest::CourseActivitySummary { course_id })
        },
        ReportCommand::GradeChangeLog { course, format, output } => {
            let x = export_request(course, format, output, global)?;
            Ok(ReportRequest::GradeChangeLog(x))
        },
    }
}

} // verus!
