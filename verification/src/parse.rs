//! Parsing of every command line value into its validated type, with the
//! errors the command line reports.

use crate::dates::{calendar_day_spec, timestamp_spec, AllDayDate, DueDate, EventDateTime};
use crate::errors::CanvasError;
use crate::hosts::{
    host_spec, token_spec, tool_url_spec, CanvasHost, CanvasHostParseError, CanvasToken,
    CanvasTokenParseError, ExternalToolConfigUrl, ExternalToolConfigUrlParseError,
};
use crate::ids::{AssignmentId, CalendarEventId, CollaborationId, EnrollmentId, ConferenceDuration, ConferenceId, ContentMigrationId, CourseId, DiscussionId, ExternalToolId, FileId, FolderId, GradingPeriodId, GradingSchemeId, GroupCategoryId, GroupId, ModuleId, ModuleItemId, OutcomeGroupId, OutcomeId, QuestionBankId, QuestionId, QuizId, QuizSubmissionId, QuizTimeLimit, RubricAssociationId, RubricId, SectionId, SubmissionId, UserId};
use crate::kinds::{CollaborationType, collaboration_type_named, ContentMigrationType, CourseVisibility, GradingPostingPolicy, GroupAssignmentMode, ModuleRequirementType, MutedState, PeerReviewMode, PublishState, QuestionType, ReportType, RubricSelection, UserRole, content_migration_type_named, course_visibility_named, grading_posting_policy_named, group_assignment_mode_named, module_requirement_type_named, muted_state_named, peer_review_mode_named, publish_state_named, question_type_named, report_type_named, rubric_selection_named, user_role_named};
use crate::names::{AssignmentName, CalendarEventTitle, CollaborationTitle, ConferenceDescription, ConferenceTitle, ExternalToolName, ExternalToolPlacement, FolderName, GroupName, MessageBody, MessageSubject, ModuleName, OutcomeDescription, OutcomeTitle, PageBody, PageId, PageTitle, QuestionBankTitle, QuestionName, QuestionText, QuizAccessCode, QuizTitle, RubricTitle, SectionName};
use crate::text::{lower, positive_id_spec, positive_u32_spec, to_owned_string, trim};
use vstd::prelude::*;

verus! {

/// Parses a positive integer identifier as a [`CourseId`]; the error carries the input.
pub fn parse_course_id(raw: &str) -> (r: Result<CourseId, CanvasError>)
    ensures
        match r {
            Ok(v) => positive_id_spec(raw@) == Some(v@),
            Err(e) => positive_id_spec(raw@) is None && (e matches CanvasError::InvalidCourseId(s) && s@ == raw@),
        },
{
    match CourseId::parse(raw) {
        Ok(v) => Ok(v),
        Err(_) => Err(CanvasError::InvalidCourseId(to_owned_string(raw))),
    }
}

/// Parses a positive integer identifier as a [`ContentMigrationId`]; the error carries the input.
pub fn parse_content_migration_id(raw: &str) -> (r: Result<ContentMigrationId, CanvasError>)
    ensures
        match r {
            Ok(v) => positive_id_spec(raw@) == Some(v@),
            Err(e) => positive_id_spec(raw@) is None && (e matches CanvasError::InvalidContentMigrationId(s) && s@ == raw@),
        },
{
    match ContentMigrationId::parse(raw) {
        Ok(v) => Ok(v),
        Err(_) => Err(CanvasError::InvalidContentMigrationId(to_owned_string(raw))),
    }
}

/// Parses a keyword, case and surrounding whitespace ignored as a [`ContentMigrationType`]; the error carries the input.
pub fn parse_content_migration_type(raw: &str) -> (r: Result<ContentMigrationType, CanvasError>)
    ensures
        match r {
            Ok(v) => content_migration_type_named(lower(trim(raw@))) == Some(v),
            Err(e) => content_migration_type_named(lower(trim(raw@))) is None && (e matches CanvasError::InvalidContentMigrationType(s) && s@ == raw@),
        },
{
    match ContentMigrationType::parse(raw) {
        Ok(v) => Ok(v),
        Err(_) => Err(CanvasError::InvalidContentMigrationType(to_owned_string(raw))),
    }
}

/// Parses a positive integer identifier as a [`GradingPeriodId`]; the error carries the input.
pub fn parse_grading_period_id(raw: &str) -> (r: Result<GradingPeriodId, CanvasError>)
    ensures
        match r {
            Ok(v) => positive_id_spec(raw@) == Some(v@),
            Err(e) => positive_id_spec(raw@) is None && (e matches CanvasError::InvalidGradingPeriodId(s) && s@ == raw@),
        },
{
    match GradingPeriodId::parse(raw) {
        Ok(v) => Ok(v),
        Err(_) => Err(CanvasError::InvalidGradingPeriodId(to_owned_string(raw))),
    }
}

/// Parses a positive integer identifier as a [`AssignmentId`]; the error carries the input.
pub fn parse_assignment_id(raw: &str) -> (r: Result<AssignmentId, CanvasError>)
    ensures
        match r {
            Ok(v) => positive_id_spec(raw@) == Some(v@),
            Err(e) => positive_id_spec(raw@) is None && (e matches CanvasError::InvalidAssignmentId(s) && s@ == raw@),
        },
{
    match AssignmentId::parse(raw) {
        Ok(v) => Ok(v),
        Err(_) => Err(CanvasError::InvalidAssignmentId(to_owned_string(raw))),
    }
}

/// Parses a non-empty text, trimmed as a [`AssignmentName`]; the error carries the input.
pub fn parse_assignment_name(raw: &str) -> (r: Result<AssignmentName, CanvasError>)
    ensures
        match r {
            Ok(v) => trim(raw@).len() > 0 && v@ == trim(raw@),
            Err(e) => trim(raw@).len() == 0 && (e matches CanvasError::InvalidAssignmentName(s) && s@ == raw@),
        },
{
    match AssignmentName::parse(raw) {
        Ok(v) => Ok(v),
        Err(_) => Err(CanvasError::InvalidAssignmentName(to_owned_string(raw))),
    }
}

/// Parses a positive integer identifier as a [`OutcomeId`]; the error carries the input.
pub fn parse_outcome_id(raw: &str) -> (r: Result<OutcomeId, CanvasError>)
    ensures
        match r {
            Ok(v) => positive_id_spec(raw@) == Some(v@),
            Err(e) => positive_id_spec(raw@) is None && (e matches CanvasError::InvalidOutcomeId(s) && s@ == raw@),
        },
{
    match OutcomeId::parse(raw) {
        Ok(v) => Ok(v),
        Err(_) => Err(CanvasError::InvalidOutcomeId(to_owned_string(raw))),
    }
}

/// Parses a positive integer identifier as a [`OutcomeGroupId`]; the error carries the input.
pub fn parse_outcome_group_id(raw: &str) -> (r: Result<OutcomeGroupId, CanvasError>)
    ensures
        match r {
            Ok(v) => positive_id_spec(raw@) == Some(v@),
            Err(e) => positive_id_spec(raw@) is None && (e matches CanvasError::InvalidOutcomeGroupId(s) && s@ == raw@),
        },
{
    match OutcomeGroupId::parse(raw) {
        Ok(v) => Ok(v),
        Err(_) => Err(CanvasError::InvalidOutcomeGroupId(to_owned_string(raw))),
    }
}

/// Parses a non-empty text, trimmed as a [`OutcomeTitle`]; the error carries the input.
pub fn parse_outcome_title(raw: &str) -> (r: Result<OutcomeTitle, CanvasError>)
    ensures
        match r {
            Ok(v) => trim(raw@).len() > 0 && v@ == trim(raw@),
            Err(e) => trim(raw@).len() == 0 && (e matches CanvasError::InvalidOutcomeTitle(s) && s@ == raw@),
        },
{
    match OutcomeTitle::parse(raw) {
        Ok(v) => Ok(v),
        Err(_) => Err(CanvasError::InvalidOutcomeTitle(to_owned_string(raw))),
    }
}

/// Parses a non-empty text, trimmed as a [`OutcomeDescription`]; the error carries the input.
pub fn parse_outcome_description(raw: &str) -> (r: Result<OutcomeDescription, CanvasError>)
    ensures
        match r {
            Ok(v) => trim(raw@).len() > 0 && v@ == trim(raw@),
            Err(e) => trim(raw@).len() == 0 && (e matches CanvasError::InvalidOutcomeDescription(s) && s@ == raw@),
        },
{
    match OutcomeDescription::parse(raw) {
        Ok(v) => Ok(v),
        Err(_) => Err(CanvasError::InvalidOutcomeDescription(to_owned_string(raw))),
    }
}

/// Parses a positive integer identifier as a [`RubricId`]; the error carries the input.
pub fn parse_rubric_id(raw: &str) -> (r: Result<RubricId, CanvasError>)
    ensures
        match r {
            Ok(v) => positive_id_spec(raw@) == Some(v@),
            Err(e) => positive_id_spec(raw@) is None && (e matches CanvasError::InvalidRubricId(s) && s@ == raw@),
        },
{
    match RubricId::parse(raw) {
        Ok(v) => Ok(v),
        Err(_) => Err(CanvasError::InvalidRubricId(to_owned_string(raw))),
    }
}

/// Parses a positive integer identifier as a [`RubricAssociationId`]; the error carries the input.
pub fn parse_rubric_association_id(raw: &str) -> (r: Result<RubricAssociationId, CanvasError>)
    ensures
        match r {
            Ok(v) => positive_id_spec(raw@) == Some(v@),
            Err(e) => positive_id_spec(raw@) is None && (e matches CanvasError::InvalidRubricAssociationId(s) && s@ == raw@),
        },
{
    match RubricAssociationId::parse(raw) {
        Ok(v) => Ok(v),
        Err(_) => Err(CanvasError::InvalidRubricAssociationId(to_owned_string(raw))),
    }
}

/// Parses a non-empty text, trimmed as a [`RubricTitle`]; the error carries the input.
pub fn parse_rubric_title(raw: &str) -> (r: Result<RubricTitle, CanvasError>)
    ensures
        match r {
            Ok(v) => trim(raw@).len() > 0 && v@ == trim(raw@),
            Err(e) => trim(raw@).len() == 0 && (e matches CanvasError::InvalidRubricTitle(s) && s@ == raw@),
        },
{
    match RubricTitle::parse(raw) {
        Ok(v) => Ok(v),
        Err(_) => Err(CanvasError::InvalidRubricTitle(to_owned_string(raw))),
    }
}

/// Parses a positive integer identifier as a [`QuizId`]; the error carries the input.
pub fn parse_quiz_id(raw: &str) -> (r: Result<QuizId, CanvasError>)
    ensures
        match r {
            Ok(v) => positive_id_spec(raw@) == Some(v@),
            Err(e) => positive_id_spec(raw@) is None && (e matches CanvasError::InvalidQuizId(s) && s@ == raw@),
        },
{
    match QuizId::parse(raw) {
        Ok(v) => Ok(v),
        Err(_) => Err(CanvasError::InvalidQuizId(to_owned_string(raw))),
    }
}

/// Parses a positive integer identifier as a [`QuizSubmissionId`]; the error carries the input.
pub fn parse_quiz_submission_id(raw: &str) -> (r: Result<QuizSubmissionId, CanvasError>)
    ensures
        match r {
            Ok(v) => positive_id_spec(raw@) == Some(v@),
            Err(e) => positive_id_spec(raw@) is None && (e matches CanvasError::InvalidQuizSubmissionId(s) && s@ == raw@),
        },
{
    match QuizSubmissionId::parse(raw) {
        Ok(v) => Ok(v),
        Err(_) => Err(CanvasError::InvalidQuizSubmissionId(to_owned_string(raw))),
    }
}

/// Parses a non-empty text, trimmed as a [`QuizTitle`]; the error carries the input.
pub fn parse_quiz_title(raw: &str) -> (r: Result<QuizTitle, CanvasError>)
    ensures
        match r {
            Ok(v) => trim(raw@).len() > 0 && v@ == trim(raw@),
            Err(e) => trim(raw@).len() == 0 && (e matches CanvasError::InvalidQuizTitle(s) && s@ == raw@),
        },
{
    match QuizTitle::parse(raw) {
        Ok(v) => Ok(v),
        Err(_) => Err(CanvasError::InvalidQuizTitle(to_owned_string(raw))),
    }
}

/// Parses a positive integer identifier as a [`QuestionBankId`]; the error carries the input.
pub fn parse_question_bank_id(raw: &str) -> (r: Result<QuestionBankId, CanvasError>)
    ensures
        match r {
            Ok(v) => positive_id_spec(raw@) == Some(v@),
            Err(e) => positive_id_spec(raw@) is None && (e matches CanvasError::InvalidQuestionBankId(s) && s@ == raw@),
        },
{
    match QuestionBankId::parse(raw) {
        Ok(v) => Ok(v),
        Err(_) => Err(CanvasError::InvalidQuestionBankId(to_owned_string(raw))),
    }
}

/// Parses a positive integer identifier as a [`QuestionId`]; the error carries the input.
pub fn parse_question_id(raw: &str) -> (r: Result<QuestionId, CanvasError>)
    ensures
        match r {
            Ok(v) => positive_id_spec(raw@) == Some(v@),
            Err(e) => positive_id_spec(raw@) is None && (e matches CanvasError::InvalidQuestionId(s) && s@ == raw@),
        },
{
    match QuestionId::parse(raw) {
        Ok(v) => Ok(v),
        Err(_) => Err(CanvasError::InvalidQuestionId(to_owned_string(raw))),
    }
}

/// Parses a non-empty text, trimmed as a [`QuestionBankTitle`]; the error carries the input.
pub fn parse_question_bank_title(raw: &str) -> (r: Result<QuestionBankTitle, CanvasError>)
    ensures
        match r {
            Ok(v) => trim(raw@).len() > 0 && v@ == trim(raw@),
            Err(e) => trim(raw@).len() == 0 && (e matches CanvasError::InvalidQuestionBankTitle(s) && s@ == raw@),
        },
{
    match QuestionBankTitle::parse(raw) {
        Ok(v) => Ok(v),
        Err(_) => Err(CanvasError::InvalidQuestionBankTitle(to_owned_string(raw))),
    }
}

/// Parses a non-empty text, trimmed as a [`QuestionName`]; the error carries the input.
pub fn parse_question_name(raw: &str) -> (r: Result<QuestionName, CanvasError>)
    ensures
        match r {
            Ok(v) => trim(raw@).len() > 0 && v@ == trim(raw@),
            Err(e) => trim(raw@).len() == 0 && (e matches CanvasError::InvalidQuestionName(s) && s@ == raw@),
        },
{
    match QuestionName::parse(raw) {
        Ok(v) => Ok(v),
        Err(_) => Err(CanvasError::InvalidQuestionName(to_owned_string(raw))),
    }
}

/// Parses a non-empty text, trimmed as a [`QuestionText`]; the error carries the input.
pub fn parse_question_text(raw: &str) -> (r: Result<QuestionText, CanvasError>)
    ensures
        match r {
            Ok(v) => trim(raw@).len() > 0 && v@ == trim(raw@),
            Err(e) => trim(raw@).len() == 0 && (e matches CanvasError::InvalidQuestionText(s) && s@ == raw@),
        },
{
    match QuestionText::parse(raw) {
        Ok(v) => Ok(v),
        Err(_) => Err(CanvasError::InvalidQuestionText(to_owned_string(raw))),
    }
}

/// Parses a keyword, case and surrounding whitespace ignored as a [`QuestionType`]; the error carries the input.
pub fn parse_question_type(raw: &str) -> (r: Result<QuestionType, CanvasError>)
    ensures
        match r {
            Ok(v) => question_type_named(lower(trim(raw@))) == Some(v),
            Err(e) => question_type_named(lower(trim(raw@))) is None && (e matches CanvasError::InvalidQuestionType(s) && s@ == raw@),
        },
{
    match QuestionType::parse(raw) {
        Ok(v) => Ok(v),
        Err(_) => Err(CanvasError::InvalidQuestionType(to_owned_string(raw))),
    }
}

/// Parses a positive integer identifier as a [`CalendarEventId`]; the error carries the input.
pub fn parse_calendar_event_id(raw: &str) -> (r: Result<CalendarEventId, CanvasError>)
    ensures
        match r {
            Ok(v) => positive_id_spec(raw@) == Some(v@),
            Err(e) => positive_id_spec(raw@) is None && (e matches CanvasError::InvalidCalendarEventId(s) && s@ == raw@),
        },
{
    match CalendarEventId::parse(raw) {
        Ok(v) => Ok(v),
        Err(_) => Err(CanvasError::InvalidCalendarEventId(to_owned_string(raw))),
    }
}

/// Parses a positive integer identifier as a [`ConferenceId`]; the error carries the input.
pub fn parse_conference_id(raw: &str) -> (r: Result<ConferenceId, CanvasError>)
    ensures
        match r {
            Ok(v) => positive_id_spec(raw@) == Some(v@),
            Err(e) => positive_id_spec(raw@) is None && (e matches CanvasError::InvalidConferenceId(s) && s@ == raw@),
        },
{
    match ConferenceId::parse(raw) {
        Ok(v) => Ok(v),
        Err(_) => Err(CanvasError::InvalidConferenceId(to_owned_string(raw))),
    }
}

/// Parses a positive integer identifier as a [`CollaborationId`]; the error carries the input.
pub fn parse_collaboration_id(raw: &str) -> (r: Result<CollaborationId, CanvasError>)
    ensures
        match r {
            Ok(v) => positive_id_spec(raw@) == Some(v@),
            Err(e) => positive_id_spec(raw@) is None && (e matches CanvasError::InvalidCollaborationId(s) && s@ == raw@),
        },
{
    match CollaborationId::parse(raw) {
        Ok(v) => Ok(v),
        Err(_) => Err(CanvasError::InvalidCollaborationId(to_owned_string(raw))),
    }
}

/// Parses a positive integer identifier as a [`SectionId`]; the error carries the input.
pub fn parse_section_id(raw: &str) -> (r: Result<SectionId, CanvasError>)
    ensures
        match r {
            Ok(v) => positive_id_spec(raw@) == Some(v@),
            Err(e) => positive_id_spec(raw@) is None && (e matches CanvasError::InvalidSectionId(s) && s@ == raw@),
        },
{
    match SectionId::parse(raw) {
        Ok(v) => Ok(v),
        Err(_) => Err(CanvasError::InvalidSectionId(to_owned_string(raw))),
    }
}

/// Parses a positive integer identifier as a [`ExternalToolId`]; the error carries the input.
pub fn parse_external_tool_id(raw: &str) -> (r: Result<ExternalToolId, CanvasError>)
    ensures
        match r {
            Ok(v) => positive_id_spec(raw@) == Some(v@),
            Err(e) => positive_id_spec(raw@) is None && (e matches CanvasError::InvalidExternalToolId(s) && s@ == raw@),
        },
{
    match ExternalToolId::parse(raw) {
        Ok(v) => Ok(v),
        Err(_) => Err(CanvasError::InvalidExternalToolId(to_owned_string(raw))),
    }
}

/// Parses a non-empty text, trimmed as a [`ExternalToolName`]; the error carries the input.
pub fn parse_external_tool_name(raw: &str) -> (r: Result<ExternalToolName, CanvasError>)
    ensures
        match r {
            Ok(v) => trim(raw@).len() > 0 && v@ == trim(raw@),
            Err(e) => trim(raw@).len() == 0 && (e matches CanvasError::InvalidExternalToolName(s) && s@ == raw@),
        },
{
    match ExternalToolName::parse(raw) {
        Ok(v) => Ok(v),
        Err(_) => Err(CanvasError::InvalidExternalToolName(to_owned_string(raw))),
    }
}

/// Parses an http or https URL as a [`ExternalToolConfigUrl`]; the error carries the input.
pub fn parse_external_tool_config_url(raw: &str) -> (r: Result<ExternalToolConfigUrl, CanvasError>)
    ensures
        match r {
            Ok(v) => tool_url_spec(raw@) == Ok::<Seq<char>, ExternalToolConfigUrlParseError>(v@),
            Err(e) => tool_url_spec(raw@) is Err && (e matches CanvasError::InvalidExternalToolConfig(s) && s@ == raw@),
        },
{
    match ExternalToolConfigUrl::parse(raw) {
        Ok(v) => Ok(v),
        Err(_) => Err(CanvasError::InvalidExternalToolConfig(to_owned_string(raw))),
    }
}

/// Parses a non-empty text, trimmed as a [`ExternalToolPlacement`]; the error carries the input.
pub fn parse_external_tool_placement(raw: &str) -> (r: Result<ExternalToolPlacement, CanvasError>)
    ensures
        match r {
            Ok(v) => trim(raw@).len() > 0 && v@ == trim(raw@),
            Err(e) => trim(raw@).len() == 0 && (e matches CanvasError::InvalidExternalToolPlacement(s) && s@ == raw@),
        },
{
    match ExternalToolPlacement::parse(raw) {
        Ok(v) => Ok(v),
        Err(_) => Err(CanvasError::InvalidExternalToolPlacement(to_owned_string(raw))),
    }
}

/// Parses a non-empty text, trimmed as a [`CalendarEventTitle`]; the error carries the input.
pub fn parse_calendar_event_title(raw: &str) -> (r: Result<CalendarEventTitle, CanvasError>)
    ensures
        match r {
            Ok(v) => trim(raw@).len() > 0 && v@ == trim(raw@),
            Err(e) => trim(raw@).len() == 0 && (e matches CanvasError::InvalidCalendarEventTitle(s) && s@ == raw@),
        },
{
    match CalendarEventTitle::parse(raw) {
        Ok(v) => Ok(v),
        Err(_) => Err(CanvasError::InvalidCalendarEventTitle(to_owned_string(raw))),
    }
}

/// Parses a non-empty text, trimmed as a [`ConferenceTitle`]; the error carries the input.
pub fn parse_conference_title(raw: &str) -> (r: Result<ConferenceTitle, CanvasError>)
    ensures
        match r {
            Ok(v) => trim(raw@).len() > 0 && v@ == trim(raw@),
            Err(e) => trim(raw@).len() == 0 && (e matches CanvasError::InvalidConferenceTitle(s) && s@ == raw@),
        },
{
    match ConferenceTitle::parse(raw) {
        Ok(v) => Ok(v),
        Err(_) => Err(CanvasError::InvalidConferenceTitle(to_owned_string(raw))),
    }
}

/// Parses a non-empty text, trimmed as a [`CollaborationTitle`]; the error carries the input.
pub fn parse_collaboration_title(raw: &str) -> (r: Result<CollaborationTitle, CanvasError>)
    ensures
        match r {
            Ok(v) => trim(raw@).len() > 0 && v@ == trim(raw@),
            Err(e) => trim(raw@).len() == 0 && (e matches CanvasError::InvalidCollaborationTitle(s) && s@ == raw@),
        },
{
    match CollaborationTitle::parse(raw) {
        Ok(v) => Ok(v),
        Err(_) => Err(CanvasError::InvalidCollaborationTitle(to_owned_string(raw))),
    }
}

/// Parses a non-empty text, trimmed as a [`ConferenceDescription`]; the error carries the input.
pub fn parse_conference_description(raw: &str) -> (r: Result<ConferenceDescription, CanvasError>)
    ensures
        match r {
            Ok(v) => trim(raw@).len() > 0 && v@ == trim(raw@),
            Err(e) => trim(raw@).len() == 0 && (e matches CanvasError::InvalidConferenceDescription(s) && s@ == raw@),
        },
{
    match ConferenceDescription::parse(raw) {
        Ok(v) => Ok(v),
        Err(_) => Err(CanvasError::InvalidConferenceDescription(to_owned_string(raw))),
    }
}

/// Parses a positive number of minutes as a [`ConferenceDuration`]; the error carries the input.
pub fn parse_conference_duration(raw: &str) -> (r: Result<ConferenceDuration, CanvasError>)
    ensures
        match r {
            Ok(v) => positive_u32_spec(raw@) == Some(v@),
            Err(e) => positive_u32_spec(raw@) is None && (e matches CanvasError::InvalidConferenceDuration(s) && s@ == raw@),
        },
{
    match ConferenceDuration::parse(raw) {
        Ok(v) => Ok(v),
        Err(_) => Err(CanvasError::InvalidConferenceDuration(to_owned_string(raw))),
    }
}

/// Parses a positive integer identifier as a [`UserId`]; the error carries the input.
pub fn parse_user_id(raw: &str) -> (r: Result<UserId, CanvasError>)
    ensures
        match r {
            Ok(v) => positive_id_spec(raw@) == Some(v@),
            Err(e) => positive_id_spec(raw@) is None && (e matches CanvasError::InvalidUserId(s) && s@ == raw@),
        },
{
    match UserId::parse(raw) {
        Ok(v) => Ok(v),
        Err(_) => Err(CanvasError::InvalidUserId(to_owned_string(raw))),
    }
}

/// Parses a positive integer identifier as a [`SubmissionId`]; the error carries the input.
pub fn parse_submission_id(raw: &str) -> (r: Result<SubmissionId, CanvasError>)
    ensures
        match r {
            Ok(v) => positive_id_spec(raw@) == Some(v@),
            Err(e) => positive_id_spec(raw@) is None && (e matches CanvasError::InvalidSubmissionId(s) && s@ == raw@),
        },
{
    match SubmissionId::parse(raw) {
        Ok(v) => Ok(v),
        Err(_) => Err(CanvasError::InvalidSubmissionId(to_owned_string(raw))),
    }
}

/// Parses a non-empty text, trimmed as a [`PageId`]; the error carries the input.
pub fn parse_page_id(raw: &str) -> (r: Result<PageId, CanvasError>)
    ensures
        match r {
            Ok(v) => trim(raw@).len() > 0 && v@ == trim(raw@),
            Err(e) => trim(raw@).len() == 0 && (e matches CanvasError::InvalidPageId(s) && s@ == raw@),
        },
{
    match PageId::parse(raw) {
        Ok(v) => Ok(v),
        Err(_) => Err(CanvasError::InvalidPageId(to_owned_string(raw))),
    }
}

/// Parses a non-empty text, trimmed as a [`PageTitle`]; the error carries the input.
pub fn parse_page_title(raw: &str) -> (r: Result<PageTitle, CanvasError>)
    ensures
        match r {
            Ok(v) => trim(raw@).len() > 0 && v@ == trim(raw@),
            Err(e) => trim(raw@).len() == 0 && (e matches CanvasError::InvalidPageTitle(s) && s@ == raw@),
        },
{
    match PageTitle::parse(raw) {
        Ok(v) => Ok(v),
        Err(_) => Err(CanvasError::InvalidPageTitle(to_owned_string(raw))),
    }
}

/// Parses a non-empty text, trimmed as a [`PageBody`]; the error carries the input.
pub fn parse_page_body(raw: &str) -> (r: Result<PageBody, CanvasError>)
    ensures
        match r {
            Ok(v) => trim(raw@).len() > 0 && v@ == trim(raw@),
            Err(e) => trim(raw@).len() == 0 && (e matches CanvasError::InvalidPageBody(s) && s@ == raw@),
        },
{
    match PageBody::parse(raw) {
        Ok(v) => Ok(v),
        Err(_) => Err(CanvasError::InvalidPageBody(to_owned_string(raw))),
    }
}

/// Parses a positive integer identifier as a [`ModuleId`]; the error carries the input.
pub fn parse_module_id(raw: &str) -> (r: Result<ModuleId, CanvasError>)
    ensures
        match r {
            Ok(v) => positive_id_spec(raw@) == Some(v@),
            Err(e) => positive_id_spec(raw@) is None && (e matches CanvasError::InvalidModuleId(s) && s@ == raw@),
        },
{
    match ModuleId::parse(raw) {
        Ok(v) => Ok(v),
        Err(_) => Err(CanvasError::InvalidModuleId(to_owned_string(raw))),
    }
}

/// Parses a positive integer identifier as a [`ModuleItemId`]; the error carries the input.
pub fn parse_module_item_id(raw: &str) -> (r: Result<ModuleItemId, CanvasError>)
    ensures
        match r {
            Ok(v) => positive_id_spec(raw@) == Some(v@),
            Err(e) => positive_id_spec(raw@) is None && (e matches CanvasError::InvalidModuleItemId(s) && s@ == raw@),
        },
{
    match ModuleItemId::parse(raw) {
        Ok(v) => Ok(v),
        Err(_) => Err(CanvasError::InvalidModuleItemId(to_owned_string(raw))),
    }
}

/// Parses a non-empty text, trimmed as a [`ModuleName`]; the error carries the input.
pub fn parse_module_name(raw: &str) -> (r: Result<ModuleName, CanvasError>)
    ensures
        match r {
            Ok(v) => trim(raw@).len() > 0 && v@ == trim(raw@),
            Err(e) => trim(raw@).len() == 0 && (e matches CanvasError::InvalidModuleName(s) && s@ == raw@),
        },
{
    match ModuleName::parse(raw) {
        Ok(v) => Ok(v),
        Err(_) => Err(CanvasError::InvalidModuleName(to_owned_string(raw))),
    }
}

/// Parses a keyword, case and surrounding whitespace ignored as a [`ModuleRequirementType`]; the error carries the input.
pub fn parse_module_requirement_type(raw: &str) -> (r: Result<ModuleRequirementType, CanvasError>)
    ensures
        match r {
            Ok(v) => module_requirement_type_named(lower(trim(raw@))) == Some(v),
            Err(e) => module_requirement_type_named(lower(trim(raw@))) is None && (e matches CanvasError::InvalidModuleRequirementType(s) && s@ == raw@),
        },
{
    match ModuleRequirementType::parse(raw) {
        Ok(v) => Ok(v),
        Err(_) => Err(CanvasError::InvalidModuleRequirementType(to_owned_string(raw))),
    }
}

/// Parses a positive integer identifier as a [`FileId`]; the error carries the input.
pub fn parse_file_id(raw: &str) -> (r: Result<FileId, CanvasError>)
    ensures
        match r {
            Ok(v) => positive_id_spec(raw@) == Some(v@),
            Err(e) => positive_id_spec(raw@) is None && (e matches CanvasError::InvalidFileId(s) && s@ == raw@),
        },
{
    match FileId::parse(raw) {
        Ok(v) => Ok(v),
        Err(_) => Err(CanvasError::InvalidFileId(to_owned_string(raw))),
    }
}

/// Parses a positive integer identifier as a [`FolderId`]; the error carries the input.
pub fn parse_folder_id(raw: &str) -> (r: Result<FolderId, CanvasError>)
    ensures
        match r {
            Ok(v) => positive_id_spec(raw@) == Some(v@),
            Err(e) => positive_id_spec(raw@) is None && (e matches CanvasError::InvalidFolderId(s) && s@ == raw@),
        },
{
    match FolderId::parse(raw) {
        Ok(v) => Ok(v),
        Err(_) => Err(CanvasError::InvalidFolderId(to_owned_string(raw))),
    }
}

/// Parses a non-empty text, trimmed as a [`FolderName`]; the error carries the input.
pub fn parse_folder_name(raw: &str) -> (r: Result<FolderName, CanvasError>)
    ensures
        match r {
            Ok(v) => trim(raw@).len() > 0 && v@ == trim(raw@),
            Err(e) => trim(raw@).len() == 0 && (e matches CanvasError::InvalidFolderName(s) && s@ == raw@),
        },
{
    match FolderName::parse(raw) {
        Ok(v) => Ok(v),
        Err(_) => Err(CanvasError::InvalidFolderName(to_owned_string(raw))),
    }
}

/// Parses a positive integer identifier as a [`DiscussionId`]; the error carries the input.
pub fn parse_discussion_id(raw: &str) -> (r: Result<DiscussionId, CanvasError>)
    ensures
        match r {
            Ok(v) => positive_id_spec(raw@) == Some(v@),
            Err(e) => positive_id_spec(raw@) is None && (e matches CanvasError::InvalidDiscussionId(s) && s@ == raw@),
        },
{
    match DiscussionId::parse(raw) {
        Ok(v) => Ok(v),
        Err(_) => Err(CanvasError::InvalidDiscussionId(to_owned_string(raw))),
    }
}

/// Parses a positive integer identifier as a [`GroupId`]; the error carries the input.
pub fn parse_group_id(raw: &str) -> (r: Result<GroupId, CanvasError>)
    ensures
        match r {
            Ok(v) => positive_id_spec(raw@) == Some(v@),
            Err(e) => positive_id_spec(raw@) is None && (e matches CanvasError::InvalidGroupId(s) && s@ == raw@),
        },
{
    match GroupId::parse(raw) {
        Ok(v) => Ok(v),
        Err(_) => Err(CanvasError::InvalidGroupId(to_owned_string(raw))),
    }
}

/// Parses a non-empty text, trimmed as a [`GroupName`]; the error carries the input.
pub fn parse_group_name(raw: &str) -> (r: Result<GroupName, CanvasError>)
    ensures
        match r {
            Ok(v) => trim(raw@).len() > 0 && v@ == trim(raw@),
            Err(e) => trim(raw@).len() == 0 && (e matches CanvasError::InvalidGroupName(s) && s@ == raw@),
        },
{
    match GroupName::parse(raw) {
        Ok(v) => Ok(v),
        Err(_) => Err(CanvasError::InvalidGroupName(to_owned_string(raw))),
    }
}

/// Parses a keyword, case and surrounding whitespace ignored as a [`UserRole`]; the error carries the input.
pub fn parse_user_role(raw: &str) -> (r: Result<UserRole, CanvasError>)
    ensures
        match r {
            Ok(v) => user_role_named(lower(trim(raw@))) == Some(v),
            Err(e) => user_role_named(lower(trim(raw@))) is None && (e matches CanvasError::InvalidUserRole(s) && s@ == raw@),
        },
{
    match UserRole::parse(raw) {
        Ok(v) => Ok(v),
        Err(_) => Err(CanvasError::InvalidUserRole(to_owned_string(raw))),
    }
}

/// Parses a non-empty text, trimmed as a [`MessageSubject`]; the error carries the input.
pub fn parse_message_subject(raw: &str) -> (r: Result<MessageSubject, CanvasError>)
    ensures
        match r {
            Ok(v) => trim(raw@).len() > 0 && v@ == trim(raw@),
            Err(e) => trim(raw@).len() == 0 && (e matches CanvasError::InvalidMessageSubject(s) && s@ == raw@),
        },
{
    match MessageSubject::parse(raw) {
        Ok(v) => Ok(v),
        Err(_) => Err(CanvasError::InvalidMessageSubject(to_owned_string(raw))),
    }
}

/// Parses a non-empty text, trimmed as a [`MessageBody`]; the error carries the input.
pub fn parse_message_body(raw: &str) -> (r: Result<MessageBody, CanvasError>)
    ensures
        match r {
            Ok(v) => trim(raw@).len() > 0 && v@ == trim(raw@),
            Err(e) => trim(raw@).len() == 0 && (e matches CanvasError::InvalidMessageBody(s) && s@ == raw@),
        },
{
    match MessageBody::parse(raw) {
        Ok(v) => Ok(v),
        Err(_) => Err(CanvasError::InvalidMessageBody(to_owned_string(raw))),
    }
}

/// Parses a date as a [`DueDate`]; the error carries the input.
pub fn parse_due_date(raw: &str) -> (r: Result<DueDate, CanvasError>)
    ensures
        match r {
            Ok(v) => timestamp_spec(raw@) == Some(v@),
            Err(e) => timestamp_spec(raw@) is None && (e matches CanvasError::InvalidDueDate(s) && s@ == raw@),
        },
{
    match DueDate::parse(raw) {
        Ok(v) => Ok(v),
        Err(_) => Err(CanvasError::InvalidDueDate(to_owned_string(raw))),
    }
}

/// Parses a positive integer identifier as a [`GroupCategoryId`]; the error carries the input.
pub fn parse_group_category_id(raw: &str) -> (r: Result<GroupCategoryId, CanvasError>)
    ensures
        match r {
            Ok(v) => positive_id_spec(raw@) == Some(v@),
            Err(e) => positive_id_spec(raw@) is None && (e matches CanvasError::InvalidGroupCategoryId(s) && s@ == raw@),
        },
{
    match GroupCategoryId::parse(raw) {
        Ok(v) => Ok(v),
        Err(_) => Err(CanvasError::InvalidGroupCategoryId(to_owned_string(raw))),
    }
}

/// Parses a keyword, case and surrounding whitespace ignored as a [`GroupAssignmentMode`]; the error carries the input.
pub fn parse_group_assignment_mode(raw: &str) -> (r: Result<GroupAssignmentMode, CanvasError>)
    ensures
        match r {
            Ok(v) => group_assignment_mode_named(lower(trim(raw@))) == Some(v),
            Err(e) => group_assignment_mode_named(lower(trim(raw@))) is None && (e matches CanvasError::InvalidGroupAssignmentMode(s) && s@ == raw@),
        },
{
    match GroupAssignmentMode::parse(raw) {
        Ok(v) => Ok(v),
        Err(_) => Err(CanvasError::InvalidGroupAssignmentMode(to_owned_string(raw))),
    }
}

/// Parses a keyword, case and surrounding whitespace ignored as a [`PeerReviewMode`]; the error carries the input.
pub fn parse_peer_review_mode(raw: &str) -> (r: Result<PeerReviewMode, CanvasError>)
    ensures
        match r {
            Ok(v) => peer_review_mode_named(lower(trim(raw@))) == Some(v),
            Err(e) => peer_review_mode_named(lower(trim(raw@))) is None && (e matches CanvasError::InvalidPeerReviewMode(s) && s@ == raw@),
        },
{
    match PeerReviewMode::parse(raw) {
        Ok(v) => Ok(v),
        Err(_) => Err(CanvasError::InvalidPeerReviewMode(to_owned_string(raw))),
    }
}

/// Parses a keyword, case and surrounding whitespace ignored as a [`GradingPostingPolicy`]; the error carries the input.
pub fn parse_grading_posting_policy(raw: &str) -> (r: Result<GradingPostingPolicy, CanvasError>)
    ensures
        match r {
            Ok(v) => grading_posting_policy_named(lower(trim(raw@))) == Some(v),
            Err(e) => grading_posting_policy_named(lower(trim(raw@))) is None && (e matches CanvasError::InvalidGradingPostingPolicy(s) && s@ == raw@),
        },
{
    match GradingPostingPolicy::parse(raw) {
        Ok(v) => Ok(v),
        Err(_) => Err(CanvasError::InvalidGradingPostingPolicy(to_owned_string(raw))),
    }
}

/// Parses a keyword, case and surrounding whitespace ignored as a [`MutedState`]; the error carries the input.
pub fn parse_muted_state(raw: &str) -> (r: Result<MutedState, CanvasError>)
    ensures
        match r {
            Ok(v) => muted_state_named(lower(trim(raw@))) == Some(v),
            Err(e) => muted_state_named(lower(trim(raw@))) is None && (e matches CanvasError::InvalidMutedState(s) && s@ == raw@),
        },
{
    match MutedState::parse(raw) {
        Ok(v) => Ok(v),
        Err(_) => Err(CanvasError::InvalidMutedState(to_owned_string(raw))),
    }
}

/// Parses a date as a [`EventDateTime`]; the error carries the input.
pub fn parse_event_date_time(raw: &str) -> (r: Result<EventDateTime, CanvasError>)
    ensures
        match r {
            Ok(v) => timestamp_spec(raw@) == Some(v@),
            Err(e) => timestamp_spec(raw@) is None && (e matches CanvasError::InvalidEventDateTime(s) && s@ == raw@),
        },
{
    match EventDateTime::parse(raw) {
        Ok(v) => Ok(v),
        Err(_) => Err(CanvasError::InvalidEventDateTime(to_owned_string(raw))),
    }
}

/// Parses a date as a [`AllDayDate`]; the error carries the input.
pub fn parse_all_day_date(raw: &str) -> (r: Result<AllDayDate, CanvasError>)
    ensures
        match r {
            Ok(v) => calendar_day_spec(raw@) == Some(v@),
            Err(e) => calendar_day_spec(raw@) is None && (e matches CanvasError::InvalidAllDayDate(s) && s@ == raw@),
        },
{
    match AllDayDate::parse(raw) {
        Ok(v) => Ok(v),
        Err(_) => Err(CanvasError::InvalidAllDayDate(to_owned_string(raw))),
    }
}

/// Parses a positive number of minutes as a [`QuizTimeLimit`]; the error carries the input.
pub fn parse_quiz_time_limit(raw: &str) -> (r: Result<QuizTimeLimit, CanvasError>)
    ensures
        match r {
            Ok(v) => positive_u32_spec(raw@) == Some(v@),
            Err(e) => positive_u32_spec(raw@) is None && (e matches CanvasError::InvalidQuizTimeLimit(s) && s@ == raw@),
        },
{
    match QuizTimeLimit::parse(raw) {
        Ok(v) => Ok(v),
        Err(_) => Err(CanvasError::InvalidQuizTimeLimit(to_owned_string(raw))),
    }
}

/// Parses a non-empty text, trimmed as a [`QuizAccessCode`]; the error carries the input.
pub fn parse_quiz_access_code(raw: &str) -> (r: Result<QuizAccessCode, CanvasError>)
    ensures
        match r {
            Ok(v) => trim(raw@).len() > 0 && v@ == trim(raw@),
            Err(e) => trim(raw@).len() == 0 && (e matches CanvasError::InvalidQuizAccessCode(s) && s@ == raw@),
        },
{
    match QuizAccessCode::parse(raw) {
        Ok(v) => Ok(v),
        Err(_) => Err(CanvasError::InvalidQuizAccessCode(to_owned_string(raw))),
    }
}

/// Parses a keyword, case and surrounding whitespace ignored as a [`PublishState`]; the error carries the input.
pub fn parse_publish_state(raw: &str) -> (r: Result<PublishState, CanvasError>)
    ensures
        match r {
            Ok(v) => publish_state_named(lower(trim(raw@))) == Some(v),
            Err(e) => publish_state_named(lower(trim(raw@))) is None && (e matches CanvasError::InvalidPublishState(s) && s@ == raw@),
        },
{
    match PublishState::parse(raw) {
        Ok(v) => Ok(v),
        Err(_) => Err(CanvasError::InvalidPublishState(to_owned_string(raw))),
    }
}

/// Parses a keyword, case and surrounding whitespace ignored as a [`RubricSelection`]; the error carries the input.
pub fn parse_rubric_selection(raw: &str) -> (r: Result<RubricSelection, CanvasError>)
    ensures
        match r {
            Ok(v) => rubric_selection_named(lower(trim(raw@))) == Some(v),
            Err(e) => rubric_selection_named(lower(trim(raw@))) is None && (e matches CanvasError::InvalidRubricSelection(s) && s@ == raw@),
        },
{
    match RubricSelection::parse(raw) {
        Ok(v) => Ok(v),
        Err(_) => Err(CanvasError::InvalidRubricSelection(to_owned_string(raw))),
    }
}

/// Parses a keyword, case and surrounding whitespace ignored as a [`CourseVisibility`]; the error carries the input.
pub fn parse_course_visibility(raw: &str) -> (r: Result<CourseVisibility, CanvasError>)
    ensures
        match r {
            Ok(v) => course_visibility_named(lower(trim(raw@))) == Some(v),
            Err(e) => course_visibility_named(lower(trim(raw@))) is None && (e matches CanvasError::InvalidCourseVisibility(s) && s@ == raw@),
        },
{
    match CourseVisibility::parse(raw) {
        Ok(v) => Ok(v),
        Err(_) => Err(CanvasError::InvalidCourseVisibility(to_owned_string(raw))),
    }
}

/// Parses a positive integer identifier as a [`GradingSchemeId`]; the error carries the input.
pub fn parse_grading_scheme_id(raw: &str) -> (r: Result<GradingSchemeId, CanvasError>)
    ensures
        match r {
            Ok(v) => positive_id_spec(raw@) == Some(v@),
            Err(e) => positive_id_spec(raw@) is None && (e matches CanvasError::InvalidGradingSchemeId(s) && s@ == raw@),
        },
{
    match GradingSchemeId::parse(raw) {
        Ok(v) => Ok(v),
        Err(_) => Err(CanvasError::InvalidGradingSchemeId(to_owned_string(raw))),
    }
}

/// Parses a keyword, case and surrounding whitespace ignored as a [`ReportType`]; the error carries the input.
pub fn parse_report_type(raw: &str) -> (r: Result<ReportType, CanvasError>)
    ensures
        match r {
            Ok(v) => report_type_named(lower(trim(raw@))) == Some(v),
            Err(e) => report_type_named(lower(trim(raw@))) is None && (e matches CanvasError::InvalidReportType(s) && s@ == raw@),
        },
{
    match ReportType::parse(raw) {
        Ok(v) => Ok(v),
        Err(_) => Err(CanvasError::InvalidReportType(to_owned_string(raw))),
    }
}

/// Parses a Canvas host URL as a [`CanvasHost`]; the error carries the input.
pub fn parse_host(raw: &str) -> (r: Result<CanvasHost, CanvasError>)
    ensures
        match r {
            Ok(v) => host_spec(raw@) == Ok::<Seq<char>, CanvasHostParseError>(v@),
            Err(e) => host_spec(raw@) is Err && (e matches CanvasError::InvalidHost(s) && s@ == raw@),
        },
{
    match CanvasHost::parse(raw) {
        Ok(v) => Ok(v),
        Err(_) => Err(CanvasError::InvalidHost(to_owned_string(raw))),
    }
}

/// Parses an access token; the error carries no input, so that a token never
/// appears in a message.
pub fn parse_token(raw: &str) -> (r: Result<CanvasToken, CanvasError>)
    ensures
        match r {
            Ok(v) => token_spec(raw@) == Ok::<Seq<char>, CanvasTokenParseError>(v@),
            Err(e) => token_spec(raw@) is Err && e == CanvasError::InvalidToken,
        },
{
    match CanvasToken::parse(raw) {
        Ok(v) => Ok(v),
        Err(_) => Err(CanvasError::InvalidToken),
    }
}

/// Parses a non-empty text, trimmed as a [`SectionName`]; the error carries the input.
pub fn parse_section_name(raw: &str) -> (r: Result<SectionName, CanvasError>)
    ensures
        match r {
            Ok(v) => trim(raw@).len() > 0 && v@ == trim(raw@),
            Err(e) => trim(raw@).len() == 0 && (e matches CanvasError::InvalidSectionName(s) && s@ == raw@),
        },
{
    match SectionName::parse(raw) {
        Ok(v) => Ok(v),
        Err(_) => Err(CanvasError::InvalidSectionName(to_owned_string(raw))),
    }
}

/// Parses a positive integer identifier as an [`EnrollmentId`]; the error carries the input.
pub fn parse_enrollment_id(raw: &str) -> (r: Result<EnrollmentId, CanvasError>)
    ensures
        match r {
            Ok(v) => positive_id_spec(raw@) == Some(v@),
            Err(e) => positive_id_spec(raw@) is None && (e matches CanvasError::InvalidEnrollmentId(s) && s@ == raw@),
        },
{
    match EnrollmentId::parse(raw) {
        Ok(v) => Ok(v),
        Err(_) => Err(CanvasError::InvalidEnrollmentId(to_owned_string(raw))),
    }
}

/// Parses a keyword, case and surrounding whitespace ignored as a [`CollaborationType`]; the error carries the input.
pub fn parse_collaboration_type(raw: &str) -> (r: Result<CollaborationType, CanvasError>)
    ensures
        match r {
            Ok(v) => collaboration_type_named(lower(trim(raw@))) == Some(v),
            Err(e) => collaboration_type_named(lower(trim(raw@))) is None && (e matches CanvasError::InvalidCollaborationType(s) && s@ == raw@),
        },
{
    match CollaborationType::parse(raw) {
        Ok(v) => Ok(v),
        Err(_) => Err(CanvasError::InvalidCollaborationType(to_owned_string(raw))),
    }
}

} // verus!
