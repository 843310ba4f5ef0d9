//! Listing and deleting outcomes, external tools, collaborations and bank
//! questions. Creating or changing them reads point values, placement
//! settings, collaborator lists or question documents, which are not part of
//! this library.

use crate::cli::{course_choice, course_for, course_refusal, GlobalOptions};
use crate::errors::{CanvasError, CliError};
use crate::ids::{
    CollaborationId, CourseId, ExternalToolId, OutcomeGroupId, OutcomeId, QuestionBankId,
    QuestionId,
};
use crate::parse::{
    parse_collaboration_id, parse_external_tool_id, parse_outcome_group_id, parse_outcome_id,
    parse_question_bank_id, parse_question_id,
};
use crate::text::positive_id_spec;
use vstd::prelude::*;

verus! {

/// An outcome command as given on the command line, unvalidated.
#[derive(Debug, Clone, PartialEq, Eq)]
pub enum OutcomeCommand {
    List { course: Option<String> },
    Delete { course: Option<String>, group: String, outcome: String },
}

/// A validated outcome command.
#[derive(Debug, Clone, Copy, PartialEq, Eq, Structural)]
pub enum OutcomeRequest {
    List { course_id: CourseId },
    Delete { course_id: CourseId, outcome_group_id: OutcomeGroupId, outcome_id: OutcomeId },
}

/// Whether `r` is what the outcome command `command` stands for: the course
/// first, then the group, then the outcome.
pub open spec fn outcome_outcome(
    command: OutcomeCommand,
    default: Option<CourseId>,
    r: Result<OutcomeRequest, CliError>,
) -> bool {
    match command {
        OutcomeCommand::List { course } => match r {
            Ok(req) => req matches OutcomeRequest::List { course_id }
                && course_choice(course, default) == Some(course_id@),
            Err(e) => course_choice(course, default) is None && course_refusal(course, e),
        },
        OutcomeCommand::Delete { course, group, outcome } => match r {
            Ok(req) => req matches OutcomeRequest::Delete { course_id, outcome_group_id, outcome_id }
                && course_choice(course, default) == Some(course_id@) && positive_id_spec(group@)
                == Some(outcome_group_id@) && positive_id_spec(outcome@) == Some(outcome_id@),
            Err(e) => if course_choice(course, default) is None {
                course_refusal(course, e)
            } else if positive_id_spec(group@) is None {
                e matches CliError::Canvas(CanvasError::InvalidOutcomeGroupId(s)) && s@ == group@
            } else {
                positive_id_spec(outcome@) is None && (e matches CliError::Canvas(
                    CanvasError::InvalidOutcomeId(s),
                ) && s@ == outcome@)
            },
        },
    }
}

/// The validated request that an outcome command stands for.
pub fn outcome_request(command: OutcomeCommand, global: &GlobalOptions) -> (r: Result<
    OutcomeRequest,
    CliError,
>)
    ensures
        outcome_outcome(command, global.course, r),
{
    match command {
        OutcomeCommand::List { course } => {
            let course_id = course_for(course, global)?;
            Ok(OutcomeRequest::List { course_id })
        },
        OutcomeCommand::Delete { course, group, outcome } => {
            let course_id = course_for(course, global)?;
            let outcome_group_id = match parse_outcome_group_id(group.as_str()) {
                Ok(g) => g,
                Err(e) => return Err(CliError::Canvas(e)),
            };
            match parse_outcome_id(outcome.as_str()) {
                Ok(outcome_id) => Ok(OutcomeRequest::Delete { course_id, outcome_group_id, outcome_id }),
                Err(e) => Err(CliError::Canvas(e)),
            }
        },
    }
}

/// An external tool command as given on the command line, unvalidated.
#[derive(Debug, Clone, PartialEq, Eq)]
pub enum ToolCommand {
    List { course: Option<String> },
    Delete { course: Option<String>, tool: String },
}

/// A validated external tool command.
#[derive(Debug, Clone, Copy, PartialEq, Eq, Structural)]
pub enum ToolRequest {
    List { course_id: CourseId },
    Delete { course_id: CourseId, tool_id: ExternalToolId },
}

/// Whether `r` is what the external tool command `command` stands for: the
/// course first, then the tool.
pub open spec fn tool_outcome(
    command: ToolCommand,
    default: Option<CourseId>,
    r: Result<ToolRequest, CliError>,
) -> bool {
    match command {
        ToolCommand::List { course } => match r {
            Ok(req) => req matches ToolRequest::List { course_id }
                && course_choice(course, default) == Some(course_id@),
            Err(e) => course_choice(course, default) is None && course_refusal(course, e),
        },
        ToolCommand::Delete { course, tool } => match r {
            Ok(req) => req matches ToolRequest::Delete { course_id, tool_id }
                && course_choice(course, default) == Some(course_id@) && positive_id_spec(tool@)
                == Some(tool_id@),
            Err(e) => if course_choice(course, default) is None {
                course_refusal(course, e)
            } else {
                positive_id_spec(tool@) is None && (e matches CliError::Canvas(
                    CanvasError::InvalidExternalToolId(s),
                ) && s@ == tool@)
            },
        },
    }
}

/// The validated request that an external tool command stands for.
pub fn tool_request(command: ToolCommand, global: &GlobalOptions) -> (r: Result<
    ToolRequest,
    CliError,
>)
    ensures
        tool_outcome(command, global.course, r),
{
    match command {
        ToolCommand::List { course } => {
            let course_id = course_for(course, global)?;
            Ok(ToolRequest::List { course_id })
        },
        ToolCommand::Delete { course, tool } => {
            let course_id = course_for(course, global)?;
            match parse_external_tool_id(tool.as_str()) {
                Ok(tool_id) => Ok(ToolRequest::Delete { course_id, tool_id }),
                Err(e) => Err(CliError::Canvas(e)),
            }
        },
    }
}

/// A collaboration command as given on the command line, unvalidated.
#[derive(Debug, Clone, PartialEq, Eq)]
pub enum CollaborationCommand {
    List { course: Option<String> },
    Delete { collaboration: String },
}

/// A validated collaboration command.
#[derive(Debug, Clone, Copy, PartialEq, Eq, Structural)]
pub enum CollaborationRequest {
    List { course_id: CourseId },
    Delete { collaboration_id: CollaborationId },
}

/// Whether `r` is what the collaboration command `command` stands for.
pub open spec fn collaboration_outcome(
    command: CollaborationCommand,
    default: Option<CourseId>,
    r: Result<CollaborationRequest, CliError>,
) -> bool {
    match command {
        CollaborationCommand::List { course } => match r {
            Ok(req) => req matches CollaborationRequest::List { course_id }
                && course_choice(course, default) == Some(course_id@),
            Err(e) => course_choice(course, default) is None && course_refusal(course, e),
        },
        CollaborationCommand::Delete { collaboration } => match r {
            Ok(req) => req matches CollaborationRequest::Delete { collaboration_id }
                && positive_id_spec(collaboration@) == Some(collaboration_id@),
            Err(e) => positive_id_spec(collaboration@) is None && (e matches CliError::Canvas(
                CanvasError::InvalidCollaborationId(s),
            ) && s@ == collaboration@),
        },
    }
}

/// The validated request that a collaboration command stands for.
pub fn collaboration_request(command: CollaborationCommand, global: &GlobalOptions) -> (r: Result<
    CollaborationRequest,
    CliError,
>)
    ensures
        collaboration_outcome(command, global.course, r),
{
    match command {
        CollaborationCommand::List { course } => {
            let course_id = course_for(course, global)?;
            Ok(CollaborationRequest::List { course_id })
        },
        CollaborationCommand::Delete { collaboration } => match parse_collaboration_id(
            collaboration.as_str(),
        ) {
            Ok(collaboration_id) => Ok(CollaborationRequest::Delete { collaboration_id }),
            Err(e) => Err(CliError::Canvas(e)),
        },
    }
}

/// A bank question command as given on the command line, unvalidated.
#[derive(Debug, Clone, PartialEq, Eq)]
pub enum QuestionCommand {
    List { bank: String },
    Delete { bank: String, question: String },
}

/// A validated bank question command.
#[derive(Debug, Clone, Copy, PartialEq, Eq, Structural)]
pub enum QuestionRequest {
    List { bank_id: QuestionBankId },
    Delete { bank_id: QuestionBankId, question_id: QuestionId },
}

/// Whether `r` is what the bank question command `command` stands for: the
/// bank first, then the question.
pub open spec fn question_outcome(command: QuestionCommand, r: Result<QuestionRequest, CliError>) -> bool {
    match command {
        QuestionCommand::List { bank } => match r {
            Ok(req) => req matches QuestionRequest::List { bank_id } && positive_id_spec(bank@)
                == Some(bank_id@),
            Err(e) => positive_id_spec(bank@) is None && (e matches CliError::Canvas(
                CanvasError::InvalidQuestionBankId(s),
            ) && s@ == bank@),
        },
        QuestionCommand::Delete { bank, question } => match r {
            Ok(req) => req matches QuestionRequest::Delete { bank_id, question_id }
                && positive_id_spec(bank@) == Some(bank_id@) && positive_id_spec(question@)
                == Some(question_id@),
            Err(e) => if positive_id_spec(bank@) is None {
                e matches CliError::Canvas(CanvasError::InvalidQuestionBankId(s)) && s@ == bank@
            } else {
                positive_id_spec(question@) is None && (e matches CliError::Canvas(
                    CanvasError::InvalidQuestionId(s),
                ) && s@ == question@)
            },
        },
    }
}

/// The validated request that a bank question command stands for.
pub fn question_request(command: QuestionCommand) -> (r: Result<QuestionRequest, CliError>)
    ensures
        question_outcome(command, r),
{
    match command {
        QuestionCommand::List { bank } => match parse_question_bank_id(bank.as_str()) {
            Ok(bank_id) => Ok(QuestionRequest::List { bank_id }),
            Err(e) => Err(CliError::Canvas(e)),
        },
        QuestionCommand::Delete { bank, question } => {
            let bank_id = match parse_question_bank_id(bank.as_str()) {
                Ok(b) => b,
                Err(e) => return Err(CliError::Canvas(e)),
            };
            match parse_question_id(question.as_str()) {
                Ok(question_id) => Ok(QuestionRequest::Delete { bank_id, question_id }),
                Err(e) => Err(CliError::Canvas(e)),
            }
        },
    }
}

} // verus!
