//! Submissions: listing, grading with an optional rubric assessment, and
//! importing grades from a file.

use crate::assignments::bad_assignment;
use crate::cli::{course_choice, course_for, course_refusal, GlobalOptions};
use crate::errors::{CanvasError, CliError};
use crate::ids::{AssignmentId, CourseId, UserId};
use crate::json::{rubric_assessment_input, rubric_from, rubric_refused, DocumentSource, RubricAssessment};
use crate::parse::{parse_assignment_id, parse_user_id};
use crate::text::positive_id_spec;
use vstd::prelude::*;

verus! {

/// The format of a grades file.
#[derive(Debug, Clone, Copy, PartialEq, Eq, Structural)]
pub enum ImportFormat {
    Csv,
    Json,
}

/// A submission command as given on the command line, unvalidated, with the
/// rubric assessment document as the caller found it. The score stays text:
/// it is a decimal number, read where the grade is sent.
#[derive(Debug)]
pub enum SubmissionCommand {
    List { course: Option<String>, assignment: String },
    Grade {
        course: Option<String>,
        assignment: String,
        user: String,
        score: String,
        rubric: DocumentSource,
    },
    Import { course: Option<String>, assignment: String, format: ImportFormat, file: String },
}

/// A validated submission command.
#[derive(Debug)]
pub enum SubmissionRequest {
    List { course_id: CourseId, assignment_id: AssignmentId },
    Grade {
        course_id: CourseId,
        assignment_id: AssignmentId,
        user_id: UserId,
        score: String,
        rubric_assessment: Option<RubricAssessment>,
    },
    Import { course_id: CourseId, assignment_id: AssignmentId, format: ImportFormat, file: String },
}

/// Whether `r` is what the submission command `command` stands for: the
/// course first, then the assignment, then the user and the rubric.
pub open spec fn submission_outcome(
    command: SubmissionCommand,
    default: Option<CourseId>,
    r: Result<SubmissionRequest, CliError>,
) -> bool {
    match command {
        SubmissionCommand::List { course, assignment } => match r {
            Ok(req) => req matches SubmissionRequest::List { course_id, assignment_id }
                && course_choice(course, default) == Some(course_id@) && positive_id_spec(
                assignment@,
            ) == Some(assignment_id@),
            Err(e) => if course_choice(course, default) is None {
                course_refusal(course, e)
            } else {
                bad_assignment(assignment, e)
            },
        },
        SubmissionCommand::Grade { course, assignment, user, score, rubric } => match r {
            Ok(req) => req matches SubmissionRequest::Grade {
                course_id,
                assignment_id,
                user_id,
                score: s,
                rubric_assessment,
            } && course_choice(course, default) == Some(course_id@) && positive_id_spec(
                assignment@,
            ) == Some(assignment_id@) && positive_id_spec(user@) == Some(user_id@) && s@ == score@
                && rubric_from(rubric, rubric_assessment),
            Err(e) => if course_choice(course, default) is None {
                course_refusal(course, e)
            } else if positive_id_spec(assignment@) is None {
                bad_assignment(assignment, e)
            } else if positive_id_spec(user@) is None {
                e matches CliError::Canvas(CanvasError::InvalidUserId(s)) && s@ == user@
            } else {
                rubric_refused(rubric, e)
            },
        },
        SubmissionCommand::Import { course, assignment, format, file } => match r {
            Ok(req) => req matches SubmissionRequest::Import {
                course_id,
                assignment_id,
                format: f,
                file: p,
            } && course_choice(course, default) == Some(course_id@) && positive_id_spec(
                assignment@,
            ) == Some(assignment_id@) && f == format && p@ == file@,
            Err(e) => if course_choice(course, default) is None {
                course_refusal(course, e)
            } else {
                bad_assignment(assignment, e)
            },
        },
    }
}

fn read_assignment(assignment: String) -> (r: Result<AssignmentId, CliError>)
    ensures
        match r {
            Ok(a) => positive_id_spec(assignment@) == Some(a@),
            Err(e) => bad_assignment(assignment, e),
        },
{
    match parse_assignment_id(assignment.as_str()) {
        Ok(a) => Ok(a),
        Err(e) => Err(CliError::Canvas(e)),
    }
}

/// The validated request that a submission command stands for.
pub fn submission_request(command: SubmissionCommand, global: &GlobalOptions) -> (r: Result<
    SubmissionRequest,
    CliError,
>)
    ensures
        submission_outcome(command, global.course, r),
{
    match command {
        SubmissionCommand::List { course, assignment } => {
            let course_id = course_for(course, global)?;
            let assignment_id = read_assignment(assignment)?;
            Ok(SubmissionRequest::List { course_id, assignment_id })
        },
        SubmissionCommand::Grade { course, assignment, user, score, rubric } => {
            let course_id = course_for(course, global)?;
            let assignment_id = read_assignment(assignment)?;
            let user_id = match parse_user_id(user.as_str()) {
                Ok(u) => u,
                Err(e) => return Err(CliError::Canvas(e)),
            };
            let rubric_assessment = rubric_assessment_input(rubric)?;
            Ok(SubmissionRequest::Grade { course_id, assignment_id, user_id, score, rubric_assessment })
        },
        SubmissionCommand::Import { course, assignment, format, file } => {
            let course_id = course_for(course, global)?;
            let assignment_id = read_assignment(assignment)?;
            Ok(SubmissionRequest::Import { course_id, assignment_id, format, file })
        },
    }
}

} // verus!
