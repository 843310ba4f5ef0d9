//! The structured details that go with an error in the command line's
//! machine-readable output.

use crate::errors::{opt_text, CanvasError, CliError};
use crate::text::to_owned_string;
use vstd::prelude::*;

verus! {

/// The details of an error: which input, detail, path or identifier it is
/// about. Each variant stands for one shape of the details object.
#[derive(Debug, Clone, PartialEq, Eq)]
pub enum ErrorDetails {
    /// An empty details object.
    NoDetails,
    /// The action that needs confirmation.
    Action(&'static str),
    /// The name of a missing field.
    Field(&'static str),
    /// The input that was refused.
    Input(String),
    /// A detail of what went wrong.
    Detail(String),
    /// The path of a missing file.
    Path(String),
    /// A path and what went wrong with it.
    PathDetail(String, String),
    /// The grading period that was not found.
    GradingPeriodId(u64),
    /// The assignment whose points are missing.
    AssignmentId(u64),
    /// The quiz whose points are missing.
    QuizId(u64),
    /// The status, request id and body of a failed API request.
    Api { status: Option<u16>, request_id: Option<String>, body: Option<String> },
}

/// Whether `d` gives the details of the library error `e`.
pub open spec fn canvas_details(d: ErrorDetails, e: CanvasError) -> bool {
    match e {
            CanvasError::InvalidCourseId(a) => d == ErrorDetails::Input(a),
            CanvasError::InvalidGradingPeriodId(a) => d == ErrorDetails::Input(a),
            CanvasError::InvalidAssignmentId(a) => d == ErrorDetails::Input(a),
            CanvasError::InvalidAssignmentName(a) => d == ErrorDetails::Input(a),
            CanvasError::InvalidGroupCategoryId(a) => d == ErrorDetails::Input(a),
            CanvasError::InvalidGroupAssignmentMode(a) => d == ErrorDetails::Input(a),
            CanvasError::InvalidGroupAssignmentSettings(a) => d == ErrorDetails::Detail(a),
            CanvasError::InvalidPeerReviewMode(a) => d == ErrorDetails::Input(a),
            CanvasError::InvalidPeerReviewSettings(a) => d == ErrorDetails::Detail(a),
            CanvasError::InvalidAssignmentOverrides(a) => d == ErrorDetails::Detail(a),
            CanvasError::InvalidAssignmentOverrideTarget(a) => d == ErrorDetails::Detail(a),
            CanvasError::InvalidAssignmentOverrideDates(a) => d == ErrorDetails::Detail(a),
            CanvasError::InvalidGradingPostingPolicy(a) => d == ErrorDetails::Input(a),
            CanvasError::InvalidMutedState(a) => d == ErrorDetails::Input(a),
            CanvasError::InvalidOutcomeId(a) => d == ErrorDetails::Input(a),
            CanvasError::InvalidOutcomeGroupId(a) => d == ErrorDetails::Input(a),
            CanvasError::InvalidOutcomeTitle(a) => d == ErrorDetails::Input(a),
            CanvasError::InvalidOutcomeDescription(a) => d == ErrorDetails::Input(a),
            CanvasError::InvalidRubricId(a) => d == ErrorDetails::Input(a),
            CanvasError::InvalidRubricAssociationId(a) => d == ErrorDetails::Input(a),
            CanvasError::InvalidRubricTitle(a) => d == ErrorDetails::Input(a),
            CanvasError::InvalidQuizId(a) => d == ErrorDetails::Input(a),
            CanvasError::InvalidQuizSubmissionId(a) => d == ErrorDetails::Input(a),
            CanvasError::InvalidQuizTitle(a) => d == ErrorDetails::Input(a),
            CanvasError::InvalidQuestionBankId(a) => d == ErrorDetails::Input(a),
            CanvasError::InvalidQuestionId(a) => d == ErrorDetails::Input(a),
            CanvasError::InvalidQuestionBankTitle(a) => d == ErrorDetails::Input(a),
            CanvasError::InvalidQuestionName(a) => d == ErrorDetails::Input(a),
            CanvasError::InvalidQuestionText(a) => d == ErrorDetails::Input(a),
            CanvasError::InvalidQuestionType(a) => d == ErrorDetails::Input(a),
            CanvasError::InvalidQuestionBankUpdate(a) => d == ErrorDetails::Detail(a),
            CanvasError::InvalidQuestionUpdate(a) => d == ErrorDetails::Detail(a),
            CanvasError::InvalidQuestionBankJson(a) => d == ErrorDetails::Detail(a),
            CanvasError::InvalidQuestionJson(a) => d == ErrorDetails::Detail(a),
            CanvasError::InvalidCalendarEventId(a) => d == ErrorDetails::Input(a),
            CanvasError::InvalidConferenceId(a) => d == ErrorDetails::Input(a),
            CanvasError::InvalidCollaborationId(a) => d == ErrorDetails::Input(a),
            CanvasError::InvalidSectionId(a) => d == ErrorDetails::Input(a),
            CanvasError::InvalidSectionName(a) => d == ErrorDetails::Input(a),
            CanvasError::InvalidEnrollmentId(a) => d == ErrorDetails::Input(a),
            CanvasError::InvalidExternalToolId(a) => d == ErrorDetails::Input(a),
            CanvasError::InvalidExternalToolName(a) => d == ErrorDetails::Input(a),
            CanvasError::InvalidExternalToolConfig(a) => d == ErrorDetails::Detail(a),
            CanvasError::InvalidExternalToolPlacement(a) => d == ErrorDetails::Input(a),
            CanvasError::InvalidExternalToolPlacements(a) => d == ErrorDetails::Detail(a),
            CanvasError::InvalidExternalToolUpdate(a) => d == ErrorDetails::Detail(a),
            CanvasError::InvalidCalendarEventTitle(a) => d == ErrorDetails::Input(a),
            CanvasError::InvalidConferenceTitle(a) => d == ErrorDetails::Input(a),
            CanvasError::InvalidCollaborationTitle(a) => d == ErrorDetails::Input(a),
            CanvasError::InvalidCollaborationType(a) => d == ErrorDetails::Input(a),
            CanvasError::InvalidCollaborators(a) => d == ErrorDetails::Detail(a),
            CanvasError::InvalidConferenceDescription(a) => d == ErrorDetails::Input(a),
            CanvasError::InvalidConferenceDuration(a) => d == ErrorDetails::Input(a),
            CanvasError::InvalidUserId(a) => d == ErrorDetails::Input(a),
            CanvasError::InvalidSubmissionId(a) => d == ErrorDetails::Input(a),
            CanvasError::InvalidPageId(a) => d == ErrorDetails::Input(a),
            CanvasError::InvalidPageTitle(a) => d == ErrorDetails::Input(a),
            CanvasError::InvalidPageBody(a) => d == ErrorDetails::Input(a),
            CanvasError::InvalidModuleId(a) => d == ErrorDetails::Input(a),
            CanvasError::InvalidModuleItemId(a) => d == ErrorDetails::Input(a),
            CanvasError::InvalidModuleName(a) => d == ErrorDetails::Input(a),
            CanvasError::InvalidModuleRequirementType(a) => d == ErrorDetails::Input(a),
            CanvasError::InvalidModuleRequirement(a) => d == ErrorDetails::Detail(a),
            CanvasError::InvalidModulePrerequisites(a) => d == ErrorDetails::Detail(a),
            CanvasError::InvalidFileId(a) => d == ErrorDetails::Input(a),
            CanvasError::InvalidFolderId(a) => d == ErrorDetails::Input(a),
            CanvasError::InvalidFolderName(a) => d == ErrorDetails::Input(a),
            CanvasError::InvalidDiscussionId(a) => d == ErrorDetails::Input(a),
            CanvasError::InvalidGroupId(a) => d == ErrorDetails::Input(a),
            CanvasError::InvalidGroupName(a) => d == ErrorDetails::Input(a),
            CanvasError::InvalidUserRole(a) => d == ErrorDetails::Input(a),
            CanvasError::InvalidMessageSubject(a) => d == ErrorDetails::Input(a),
            CanvasError::InvalidMessageBody(a) => d == ErrorDetails::Input(a),
            CanvasError::InvalidRecipients(a) => d == ErrorDetails::Input(a),
            CanvasError::InvalidScore(a) => d == ErrorDetails::Input(a),
            CanvasError::InvalidPointsPossible(a) => d == ErrorDetails::Input(a),
            CanvasError::InvalidDueDate(a) => d == ErrorDetails::Input(a),
            CanvasError::InvalidEventDateTime(a) => d == ErrorDetails::Input(a),
            CanvasError::InvalidAllDayDate(a) => d == ErrorDetails::Input(a),
            CanvasError::InvalidQuizTimeLimit(a) => d == ErrorDetails::Input(a),
            CanvasError::InvalidQuizAccessCode(a) => d == ErrorDetails::Input(a),
            CanvasError::InvalidPublishState(a) => d == ErrorDetails::Input(a),
            CanvasError::InvalidRubricSelection(a) => d == ErrorDetails::Input(a),
            CanvasError::InvalidRubricAssessment(a) => d == ErrorDetails::Input(a),
            CanvasError::InvalidRubricCriteria(a) => d == ErrorDetails::Input(a),
            CanvasError::InvalidCourseVisibility(a) => d == ErrorDetails::Input(a),
            CanvasError::InvalidGradingSchemeId(a) => d == ErrorDetails::Input(a),
            CanvasError::InvalidContentMigrationId(a) => d == ErrorDetails::Input(a),
            CanvasError::InvalidContentMigrationType(a) => d == ErrorDetails::Input(a),
            CanvasError::InvalidContentMigrationCreate(a) => d == ErrorDetails::Detail(a),
            CanvasError::InvalidReportType(a) => d == ErrorDetails::Input(a),
            CanvasError::InvalidCourseDates(a) => d == ErrorDetails::Detail(a),
            CanvasError::InvalidCourseUpdate(a) => d == ErrorDetails::Detail(a),
            CanvasError::GradingPeriodNotFound(v) => d == ErrorDetails::GradingPeriodId(v),
            CanvasError::InvalidAssignmentUpdate(a) => d == ErrorDetails::Detail(a),
            CanvasError::InvalidOutcomeUpdate(a) => d == ErrorDetails::Detail(a),
            CanvasError::InvalidQuizUpdate(a) => d == ErrorDetails::Detail(a),
            CanvasError::InvalidPageUpdate(a) => d == ErrorDetails::Detail(a),
            CanvasError::InvalidModuleUpdate(a) => d == ErrorDetails::Detail(a),
            CanvasError::InvalidSectionUpdate(a) => d == ErrorDetails::Detail(a),
            CanvasError::InvalidModuleRequirementUpdate(a) => d == ErrorDetails::Detail(a),
            CanvasError::InvalidModuleReorder(a) => d == ErrorDetails::Detail(a),
            CanvasError::InvalidRubricUpdate(a) => d == ErrorDetails::Detail(a),
            CanvasError::InvalidCalendarEventCreate(a) => d == ErrorDetails::Detail(a),
            CanvasError::InvalidCalendarEventUpdate(a) => d == ErrorDetails::Detail(a),
            CanvasError::InvalidCalendarEventContext(a) => d == ErrorDetails::Detail(a),
            CanvasError::InvalidConferenceUpdate(a) => d == ErrorDetails::Detail(a),
            CanvasError::InvalidRubricAssociationTarget(a) => d == ErrorDetails::Detail(a),
            CanvasError::MissingAssignmentPoints(v) => d == ErrorDetails::AssignmentId(v),
            CanvasError::MissingQuizPoints(v) => d == ErrorDetails::QuizId(v),
            CanvasError::InvalidQuizAvailability(a) => d == ErrorDetails::Detail(a),
            CanvasError::InvalidFileUpload(a) => d == ErrorDetails::Detail(a),
            CanvasError::ContentMigrationFailed(a) => d == ErrorDetails::Detail(a),
            CanvasError::ContentMigrationTimeout(a) => d == ErrorDetails::Detail(a),
            CanvasError::ReportNotReady(a) => d == ErrorDetails::Detail(a),
            CanvasError::ReportDownloadFailed(a) => d == ErrorDetails::Detail(a),
            CanvasError::ReportTimeout(a) => d == ErrorDetails::Detail(a),
            CanvasError::InvalidHost(a) => d == ErrorDetails::Input(a),
            CanvasError::MissingConfig(p) => d == ErrorDetails::Path(p),
            CanvasError::ConfigRead(p, a) => d == ErrorDetails::PathDetail(p, a),
            CanvasError::ConfigParse(p, a) => d == ErrorDetails::PathDetail(p, a),
            CanvasError::ConfigWrite(p, a) => d == ErrorDetails::PathDetail(p, a),
            CanvasError::AuthCheckFailed(a) => d == ErrorDetails::Detail(a),
            CanvasError::Http(a) => d == ErrorDetails::Detail(a),
            CanvasError::Api(e) => d matches ErrorDetails::Api { status, request_id, body }
                && status == e@.status && opt_text(request_id) == e@.request_id
                && opt_text(body) == e@.body,
            CanvasError::InvalidToken => d == ErrorDetails::NoDetails,
    }
}

/// Whether `d` gives the details of the command-line error `e`.
pub open spec fn details_of(d: ErrorDetails, e: CliError) -> bool {
    match e {
        CliError::ConfirmationRequired(action) => d == ErrorDetails::Action(action),
        CliError::MissingCourseId => d == ErrorDetails::Field("course"),
        CliError::FileRead(p, a) => d == ErrorDetails::PathDetail(p, a),
        CliError::FileWrite(p, a) => d == ErrorDetails::PathDetail(p, a),
        CliError::InvalidReportFormat(a) => d == ErrorDetails::Detail(a),
        CliError::Canvas(e) => canvas_details(d, e),
        CliError::MissingCommand => d == ErrorDetails::NoDetails,
        CliError::AskExecutionUnsupported => d == ErrorDetails::NoDetails,
    }
}

/// The details of a library error.
pub fn canvas_error_details(error: &CanvasError) -> (r: ErrorDetails)
    ensures
        canvas_details(r, *error),
{
    match error {
            CanvasError::InvalidCourseId(a) => ErrorDetails::Input(a.clone()),
            CanvasError::InvalidGradingPeriodId(a) => ErrorDetails::Input(a.clone()),
            CanvasError::InvalidAssignmentId(a) => ErrorDetails::Input(a.clone()),
            CanvasError::InvalidAssignmentName(a) => ErrorDetails::Input(a.clone()),
            CanvasError::InvalidGroupCategoryId(a) => ErrorDetails::Input(a.clone()),
            CanvasError::InvalidGroupAssignmentMode(a) => ErrorDetails::Input(a.clone()),
            CanvasError::InvalidGroupAssignmentSettings(a) => ErrorDetails::Detail(a.clone()),
            CanvasError::InvalidPeerReviewMode(a) => ErrorDetails::Input(a.clone()),
            CanvasError::InvalidPeerReviewSettings(a) => ErrorDetails::Detail(a.clone()),
            CanvasError::InvalidAssignmentOverrides(a) => ErrorDetails::Detail(a.clone()),
            CanvasError::InvalidAssignmentOverrideTarget(a) => ErrorDetails::Detail(a.clone()),
            CanvasError::InvalidAssignmentOverrideDates(a) => ErrorDetails::Detail(a.clone()),
            CanvasError::InvalidGradingPostingPolicy(a) => ErrorDetails::Input(a.clone()),
            CanvasError::InvalidMutedState(a) => ErrorDetails::Input(a.clone()),
            CanvasError::InvalidOutcomeId(a) => ErrorDetails::Input(a.clone()),
            CanvasError::InvalidOutcomeGroupId(a) => ErrorDetails::Input(a.clone()),
            CanvasError::InvalidOutcomeTitle(a) => ErrorDetails::Input(a.clone()),
            CanvasError::InvalidOutcomeDescription(a) => ErrorDetails::Input(a.clone()),
            CanvasError::InvalidRubricId(a) => ErrorDetails::Input(a.clone()),
            CanvasError::InvalidRubricAssociationId(a) => ErrorDetails::Input(a.clone()),
            CanvasError::InvalidRubricTitle(a) => ErrorDetails::Input(a.clone()),
            CanvasError::InvalidQuizId(a) => ErrorDetails::Input(a.clone()),
            CanvasError::InvalidQuizSubmissionId(a) => ErrorDetails::Input(a.clone()),
            CanvasError::InvalidQuizTitle(a) => ErrorDetails::Input(a.clone()),
            CanvasError::InvalidQuestionBankId(a) => ErrorDetails::Input(a.clone()),
            CanvasError::InvalidQuestionId(a) => ErrorDetails::Input(a.clone()),
            CanvasError::InvalidQuestionBankTitle(a) => ErrorDetails::Input(a.clone()),
            CanvasError::InvalidQuestionName(a) => ErrorDetails::Input(a.clone()),
            CanvasError::InvalidQuestionText(a) => ErrorDetails::Input(a.clone()),
            CanvasError::InvalidQuestionType(a) => ErrorDetails::Input(a.clone()),
            CanvasError::InvalidQuestionBankUpdate(a) => ErrorDetails::Detail(a.clone()),
            CanvasError::InvalidQuestionUpdate(a) => ErrorDetails::Detail(a.clone()),
            CanvasError::InvalidQuestionBankJson(a) => ErrorDetails::Detail(a.clone()),
            CanvasError::InvalidQuestionJson(a) => ErrorDetails::Detail(a.clone()),
            CanvasError::InvalidCalendarEventId(a) => ErrorDetails::Input(a.clone()),
            CanvasError::InvalidConferenceId(a) => ErrorDetails::Input(a.clone()),
            CanvasError::InvalidCollaborationId(a) => ErrorDetails::Input(a.clone()),
            CanvasError::InvalidSectionId(a) => ErrorDetails::Input(a.clone()),
            CanvasError::InvalidSectionName(a) => ErrorDetails::Input(a.clone()),
            CanvasError::InvalidEnrollmentId(a) => ErrorDetails::Input(a.clone()),
            CanvasError::InvalidExternalToolId(a) => ErrorDetails::Input(a.clone()),
            CanvasError::InvalidExternalToolName(a) => ErrorDetails::Input(a.clone()),
            CanvasError::InvalidExternalToolConfig(a) => ErrorDetails::Detail(a.clone()),
            CanvasError::InvalidExternalToolPlacement(a) => ErrorDetails::Input(a.clone()),
            CanvasError::InvalidExternalToolPlacements(a) => ErrorDetails::Detail(a.clone()),
            CanvasError::InvalidExternalToolUpdate(a) => ErrorDetails::Detail(a.clone()),
            CanvasError::InvalidCalendarEventTitle(a) => ErrorDetails::Input(a.clone()),
            CanvasError::InvalidConferenceTitle(a) => ErrorDetails::Input(a.clone()),
            CanvasError::InvalidCollaborationTitle(a) => ErrorDetails::Input(a.clone()),
            CanvasError::InvalidCollaborationType(a) => ErrorDetails::Input(a.clone()),
            CanvasError::InvalidCollaborators(a) => ErrorDetails::Detail(a.clone()),
            CanvasError::InvalidConferenceDescription(a) => ErrorDetails::Input(a.clone()),
            CanvasError::InvalidConferenceDuration(a) => ErrorDetails::Input(a.clone()),
            CanvasError::InvalidUserId(a) => ErrorDetails::Input(a.clone()),
            CanvasError::InvalidSubmissionId(a) => ErrorDetails::Input(a.clone()),
            CanvasError::InvalidPageId(a) => ErrorDetails::Input(a.clone()),
            CanvasError::InvalidPageTitle(a) => ErrorDetails::Input(a.clone()),
            CanvasError::InvalidPageBody(a) => ErrorDetails::Input(a.clone()),
            CanvasError::InvalidModuleId(a) => ErrorDetails::Input(a.clone()),
            CanvasError::InvalidModuleItemId(a) => ErrorDetails::Input(a.clone()),
            CanvasError::InvalidModuleName(a) => ErrorDetails::Input(a.clone()),
            CanvasError::InvalidModuleRequirementType(a) => ErrorDetails::Input(a.clone()),
            CanvasError::InvalidModuleRequirement(a) => ErrorDetails::Detail(a.clone()),
            CanvasError::InvalidModulePrerequisites(a) => ErrorDetails::Detail(a.clone()),
            CanvasError::InvalidFileId(a) => ErrorDetails::Input(a.clone()),
            CanvasError::InvalidFolderId(a) => ErrorDetails::Input(a.clone()),
            CanvasError::InvalidFolderName(a) => ErrorDetails::Input(a.clone()),
            CanvasError::InvalidDiscussionId(a) => ErrorDetails::Input(a.clone()),
            CanvasError::InvalidGroupId(a) => ErrorDetails::Input(a.clone()),
            CanvasError::InvalidGroupName(a) => ErrorDetails::Input(a.clone()),
            CanvasError::InvalidUserRole(a) => ErrorDetails::Input(a.clone()),
            CanvasError::InvalidMessageSubject(a) => ErrorDetails::Input(a.clone()),
            CanvasError::InvalidMessageBody(a) => ErrorDetails::Input(a.clone()),
            CanvasError::InvalidRecipients(a) => ErrorDetails::Input(a.clone()),
            CanvasError::InvalidScore(a) => ErrorDetails::Input(a.clone()),
            CanvasError::InvalidPointsPossible(a) => ErrorDetails::Input(a.clone()),
            CanvasError::InvalidDueDate(a) => ErrorDetails::Input(a.clone()),
            CanvasError::InvalidEventDateTime(a) => ErrorDetails::Input(a.clone()),
            CanvasError::InvalidAllDayDate(a) => ErrorDetails::Input(a.clone()),
            CanvasError::InvalidQuizTimeLimit(a) => ErrorDetails::Input(a.clone()),
            CanvasError::InvalidQuizAccessCode(a) => ErrorDetails::Input(a.clone()),
            CanvasError::InvalidPublishState(a) => ErrorDetails::Input(a.clone()),
            CanvasError::InvalidRubricSelection(a) => ErrorDetails::Input(a.clone()),
            CanvasError::InvalidRubricAssessment(a) => ErrorDetails::Input(a.clone()),
            CanvasError::InvalidRubricCriteria(a) => ErrorDetails::Input(a.clone()),
            CanvasError::InvalidCourseVisibility(a) => ErrorDetails::Input(a.clone()),
            CanvasError::InvalidGradingSchemeId(a) => ErrorDetails::Input(a.clone()),
            CanvasError::InvalidContentMigrationId(a) => ErrorDetails::Input(a.clone()),
            CanvasError::InvalidContentMigrationType(a) => ErrorDetails::Input(a.clone()),
            CanvasError::InvalidContentMigrationCreate(a) => ErrorDetails::Detail(a.clone()),
            CanvasError::InvalidReportType(a) => ErrorDetails::Input(a.clone()),
            CanvasError::InvalidCourseDates(a) => ErrorDetails::Detail(a.clone()),
            CanvasError::InvalidCourseUpdate(a) => ErrorDetails::Detail(a.clone()),
            CanvasError::GradingPeriodNotFound(v) => ErrorDetails::GradingPeriodId(*v),
            CanvasError::InvalidAssignmentUpdate(a) => ErrorDetails::Detail(a.clone()),
            CanvasError::InvalidOutcomeUpdate(a) => ErrorDetails::Detail(a.clone()),
            CanvasError::InvalidQuizUpdate(a) => ErrorDetails::Detail(a.clone()),
            CanvasError::InvalidPageUpdate(a) => ErrorDetails::Detail(a.clone()),
            CanvasError::InvalidModuleUpdate(a) => ErrorDetails::Detail(a.clone()),
            CanvasError::InvalidSectionUpdate(a) => ErrorDetails::Detail(a.clone()),
            CanvasError::InvalidModuleRequirementUpdate(a) => ErrorDetails::Detail(a.clone()),
            CanvasError::InvalidModuleReorder(a) => ErrorDetails::Detail(a.clone()),
            CanvasError::InvalidRubricUpdate(a) => ErrorDetails::Detail(a.clone()),
            CanvasError::InvalidCalendarEventCreate(a) => ErrorDetails::Detail(a.clone()),
            CanvasError::InvalidCalendarEventUpdate(a) => ErrorDetails::Detail(a.clone()),
            CanvasError::InvalidCalendarEventContext(a) => ErrorDetails::Detail(a.clone()),
            CanvasError::InvalidConferenceUpdate(a) => ErrorDetails::Detail(a.clone()),
            CanvasError::InvalidRubricAssociationTarget(a) => ErrorDetails::Detail(a.clone()),
            CanvasError::MissingAssignmentPoints(v) => ErrorDetails::AssignmentId(*v),
            CanvasError::MissingQuizPoints(v) => ErrorDetails::QuizId(*v),
            CanvasError::InvalidQuizAvailability(a) => ErrorDetails::Detail(a.clone()),
            CanvasError::InvalidFileUpload(a) => ErrorDetails::Detail(a.clone()),
            CanvasError::ContentMigrationFailed(a) => ErrorDetails::Detail(a.clone()),
            CanvasError::ContentMigrationTimeout(a) => ErrorDetails::Detail(a.clone()),
            CanvasError::ReportNotReady(a) => ErrorDetails::Detail(a.clone()),
            CanvasError::ReportDownloadFailed(a) => ErrorDetails::Detail(a.clone()),
            CanvasError::ReportTimeout(a) => ErrorDetails::Detail(a.clone()),
            CanvasError::InvalidHost(a) => ErrorDetails::Input(a.clone()),
            CanvasError::MissingConfig(p) => ErrorDetails::Path(p.clone()),
            CanvasError::ConfigRead(p, a) => ErrorDetails::PathDetail(p.clone(), a.clone()),
            CanvasError::ConfigParse(p, a) => ErrorDetails::PathDetail(p.clone(), a.clone()),
            CanvasError::ConfigWrite(p, a) => ErrorDetails::PathDetail(p.clone(), a.clone()),
            CanvasError::AuthCheckFailed(a) => ErrorDetails::Detail(a.clone()),
            CanvasError::Http(a) => ErrorDetails::Detail(a.clone()),
            CanvasError::Api(e) => {
                let request_id = match e.request_id() {
                    Some(s) => Some(to_owned_string(s)),
                    None => None,
                };
                let body = match e.body() {
                    Some(s) => Some(to_owned_string(s)),
                    None => None,
                };
                ErrorDetails::Api { status: e.status(), request_id, body }
            },
            CanvasError::InvalidToken => ErrorDetails::NoDetails,
    }
}

/// The details that go with an error in the machine-readable output.
pub fn error_details(error: &CliError) -> (r: ErrorDetails)
    ensures
        details_of(r, *error),
{
    match error {
        CliError::ConfirmationRequired(action) => ErrorDetails::Action(action),
        CliError::MissingCourseId => ErrorDetails::Field("course"),
        CliError::FileRead(p, a) => ErrorDetails::PathDetail(p.clone(), a.clone()),
        CliError::FileWrite(p, a) => ErrorDetails::PathDetail(p.clone(), a.clone()),
        CliError::InvalidReportFormat(a) => ErrorDetails::Detail(a.clone()),
        CliError::Canvas(e) => canvas_error_details(e),
        CliError::MissingCommand => ErrorDetails::NoDetails,
        CliError::AskExecutionUnsupported => ErrorDetails::NoDetails,
    }
}

} // verus!
