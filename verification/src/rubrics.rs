//! Rubrics: listing, deleting, and attaching them to an assignment or an
//! outcome. Creating or changing a rubric, whose criteria carry point
//! values, is not part of this library.

use crate::cli::{course_choice, course_for, course_refusal, GlobalOptions};
use crate::combine::parse_rubric_association_target;
use crate::contexts::RubricAssociationTarget;
use crate::errors::{CanvasError, CliError};
use crate::ids::{AssignmentId, CourseId, OutcomeId, RubricAssociationId, RubricId};
use crate::kinds::{rubric_selection_named, RubricSelection};
use crate::parse::{
    parse_assignment_id, parse_outcome_id, parse_rubric_association_id, parse_rubric_id,
    parse_rubric_selection,
};
use crate::text::{lower, positive_id_spec, trim};
use vstd::prelude::*;

verus! {

/// What attaches a rubric: the rubric, what it grades, whether it is used
/// for grading, and an optional title for the association.
#[derive(Debug, Clone)]
pub struct RubricAssociationInput {
    pub rubric_id: RubricId,
    pub target: RubricAssociationTarget,
    pub selection: RubricSelection,
    pub title: Option<String>,
}

impl RubricAssociationInput {
    /// The association of `rubric_id` with `target`.
    pub fn new(
        rubric_id: RubricId,
        target: RubricAssociationTarget,
        selection: RubricSelection,
        title: Option<String>,
    ) -> (r: Self)
        ensures
            r == (RubricAssociationInput { rubric_id, target, selection, title }),
    {
        RubricAssociationInput { rubric_id, target, selection, title }
    }
}

/// A rubric command as given on the command line, unvalidated.
#[derive(Debug, Clone, PartialEq, Eq)]
pub enum RubricCommand {
    List { course: Option<String> },
    Delete { course: Option<String>, rubric: String },
    Attach {
        course: Option<String>,
        rubric: String,
        assignment: Option<String>,
        outcome: Option<String>,
        grading: String,
        title: Option<String>,
    },
    Detach { course: Option<String>, association: String },
}

/// A validated rubric command.
#[derive(Debug, Clone)]
pub enum RubricRequest {
    List { course_id: CourseId },
    Delete { course_id: CourseId, rubric_id: RubricId },
    Attach { course_id: CourseId, input: RubricAssociationInput },
    Detach { course_id: CourseId, rubric_association_id: RubricAssociationId },
}

/// The id of an optional id text; `Err` carries the refused text.
pub open spec fn optional_id(raw: Option<String>) -> Result<Option<u64>, Seq<char>> {
    match raw {
        Some(t) => match positive_id_spec(t@) {
            Some(v) => Ok(Some(v)),
            None => Err(t@),
        },
        None => Ok(None),
    }
}

/// The model of an association target: `true` with the assignment, `false`
/// with the outcome.
pub open spec fn target_view(t: RubricAssociationTarget) -> (bool, u64) {
    match t {
        RubricAssociationTarget::Assignment(a) => (true, a@),
        RubricAssociationTarget::Outcome(o) => (false, o@),
    }
}

/// Whether `e` is the error for the id text `t` of a rubric.
pub open spec fn bad_rubric(t: String, e: CliError) -> bool {
    positive_id_spec(t@) is None && (e matches CliError::Canvas(CanvasError::InvalidRubricId(s))
        && s@ == t@)
}

/// Whether `r` is what the attach command stands for, past its course: the
/// rubric, the assignment, the outcome, exactly one target, then the grading
/// selection.
pub open spec fn attach_outcome(
    rubric: String,
    assignment: Option<String>,
    outcome: Option<String>,
    grading: String,
    title: Option<String>,
    r: Result<RubricAssociationInput, CliError>,
) -> bool {
    let s = rubric_selection_named(lower(trim(grading@)));
    match r {
        Ok(input) => positive_id_spec(rubric@) == Some(input.rubric_id@) && match (
            optional_id(assignment),
            optional_id(outcome),
        ) {
            (Ok(Some(a)), Ok(None)) => target_view(input.target) == (true, a),
            (Ok(None), Ok(Some(o))) => target_view(input.target) == (false, o),
            _ => false,
        } && s == Some(input.selection) && input.title == title,
        Err(e) => if positive_id_spec(rubric@) is None {
            bad_rubric(rubric, e)
        } else if optional_id(assignment) is Err {
            optional_id(assignment) matches Err(t) && (e matches CliError::Canvas(
                CanvasError::InvalidAssignmentId(x),
            ) && x@ == t)
        } else if optional_id(outcome) is Err {
            optional_id(outcome) matches Err(t) && (e matches CliError::Canvas(
                CanvasError::InvalidOutcomeId(x),
            ) && x@ == t)
        } else if assignment is None && outcome is None {
            e matches CliError::Canvas(CanvasError::InvalidRubricAssociationTarget(x)) && x@
                == "missing_target"@
        } else if assignment is Some && outcome is Some {
            e matches CliError::Canvas(CanvasError::InvalidRubricAssociationTarget(x)) && x@
                == "conflicting_target"@
        } else {
            s is None && (e matches CliError::Canvas(CanvasError::InvalidRubricSelection(x)) && x@
                == grading@)
        },
    }
}

/// Whether `r` is what the rubric command `command` stands for: the course
/// first, then the other values in the order given.
pub open spec fn rubric_outcome(
    command: RubricCommand,
    default: Option<CourseId>,
    r: Result<RubricRequest, CliError>,
) -> bool {
    match command {
        RubricCommand::List { course } => match r {
            Ok(req) => req matches RubricRequest::List { course_id }
                && course_choice(course, default) == Some(course_id@),
            Err(e) => course_choice(course, default) is None && course_refusal(course, e),
        },
        RubricCommand::Delete { course, rubric } => match r {
            Ok(req) => req matches RubricRequest::Delete { course_id, rubric_id }
                && course_choice(course, default) == Some(course_id@) && positive_id_spec(rubric@)
                == Some(rubric_id@),
            Err(e) => if course_choice(course, default) is None {
                course_refusal(course, e)
            } else {
                bad_rubric(rubric, e)
            },
        },
        RubricCommand::Attach { course, rubric, assignment, outcome, grading, title } => match r {
            Ok(req) => req matches RubricRequest::Attach { course_id, input }
                && course_choice(course, default) == Some(course_id@) && attach_outcome(
                rubric,
                assignment,
                outcome,
                grading,
                title,
                Ok::<RubricAssociationInput, CliError>(input),
            ),
            Err(e) => if course_choice(course, default) is None {
                course_refusal(course, e)
            } else {
                attach_outcome(
                    rubric,
                    assignment,
                    outcome,
                    grading,
                    title,
                    Err::<RubricAssociationInput, CliError>(e),
                )
            },
        },
        RubricCommand::Detach { course, association } => match r {
            Ok(req) => req matches RubricRequest::Detach { course_id, rubric_association_id }
                && course_choice(course, default) == Some(course_id@) && positive_id_spec(
                association@,
            ) == Some(rubric_association_id@),
            Err(e) => if course_choice(course, default) is None {
                course_refusal(course, e)
            } else {
                positive_id_spec(association@) is None && (e matches CliError::Canvas(
                    CanvasError::InvalidRubricAssociationId(s),
                ) && s@ == association@)
            },
        },
    }
}

fn read_rubric_id(rubric: String) -> (r: Result<RubricId, CliError>)
    ensures
        match r {
            Ok(v) => positive_id_spec(rubric@) == Some(v@),
            Err(e) => bad_rubric(rubric, e),
        },
{
    match parse_rubric_id(rubric.as_str()) {
        Ok(v) => Ok(v),
        Err(e) => Err(CliError::Canvas(e)),
    }
}

fn attach_input(
    rubric: String,
    assignment: Option<String>,
    outcome: Option<String>,
    grading: String,
    title: Option<String>,
) -> (r: Result<RubricAssociationInput, CliError>)
    ensures
        attach_outcome(rubric, assignment, outcome, grading, title, r),
{
    let rubric_id = read_rubric_id(rubric)?;
    let assignment_id: Option<AssignmentId> = match assignment {
        Some(raw) => match parse_assignment_id(raw.as_str()) {
            Ok(a) => Some(a),
            Err(e) => return Err(CliError::Canvas(e)),
        },
        None => None,
    };
    let outcome_id: Option<OutcomeId> = match outcome {
        Some(raw) => match parse_outcome_id(raw.as_str()) {
            Ok(o) => Some(o),
            Err(e) => return Err(CliError::Canvas(e)),
        },
        None => None,
    };
    let target = match parse_rubric_association_target(assignment_id, outcome_id) {
        Ok(t) => t,
        Err(e) => return Err(CliError::Canvas(e)),
    };
    let selection = match parse_rubric_selection(grading.as_str()) {
        Ok(s) => s,
        Err(e) => return Err(CliError::Canvas(e)),
    };
    Ok(RubricAssociationInput::new(rubric_id, target, selection, title))
}

/// The validated request that a rubric command stands for.
pub fn rubric_request(command: RubricCommand, global: &GlobalOptions) -> (r: Result<
    RubricRequest,
    CliError,
>)
    ensures
        rubric_outcome(command, global.course, r),
{
    match command {
        RubricCommand::List { course } => {
            let course_id = course_for(course, global)?;
            Ok(RubricRequest::List { course_id })
        },
        RubricCommand::Delete { course, rubric } => {
            let course_id = course_for(course, global)?;
            let rubric_id = read_rubric_id(rubric)?;
            Ok(RubricRequest::Delete { course_id, rubric_id })
        },
        RubricCommand::Attach { course, rubric, assignment, outcome, grading, title } => {
            let course_id = course_for(course, global)?;
            let input = attach_input(rubric, assignment, outcome, grading, title)?;
            Ok(RubricRequest::Attach { course_id, input })
        },
        RubricCommand::Detach { course, association } => {
            let course_id = course_for(course, global)?;
            match parse_rubric_association_id(association.as_str()) {
                Ok(rubric_association_id) => Ok(
                    RubricRequest::Detach { course_id, rubric_association_id },
                ),
                Err(e) => Err(CliError::Canvas(e)),
            }
        },
    }
}

} // verus!
