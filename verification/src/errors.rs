//! The errors of the library and of the command line, with their stable
//! codes and messages, and the classification of failed API requests.

use crate::text::{dec, push_decimal, push_str, trim, trim_str};
use vstd::prelude::*;

verus! {

/// The class of a failed API request.
#[derive(Debug, Clone, Copy, PartialEq, Eq, Hash, Structural)]
pub enum ApiErrorCode {
    Network,
    Timeout,
    RateLimited,
    Unauthorized,
    Forbidden,
    NotFound,
    Conflict,
    InvalidRequest,
    ServerError,
    Decode,
    UnexpectedStatus,
}

impl ApiErrorCode {
    /// The code's text.
    pub open spec fn text(self) -> Seq<char> {
        match self {
            ApiErrorCode::Network => "network_error"@,
            ApiErrorCode::Timeout => "timeout"@,
            ApiErrorCode::RateLimited => "rate_limited"@,
            ApiErrorCode::Unauthorized => "unauthorized"@,
            ApiErrorCode::Forbidden => "forbidden"@,
            ApiErrorCode::NotFound => "not_found"@,
            ApiErrorCode::Conflict => "conflict"@,
            ApiErrorCode::InvalidRequest => "invalid_request"@,
            ApiErrorCode::ServerError => "server_error"@,
            ApiErrorCode::Decode => "decode_error"@,
            ApiErrorCode::UnexpectedStatus => "unexpected_status"@,
        }
    }

    /// The code's text.
    pub fn as_str(self) -> (r: &'static str)
        ensures
            r@ == self.text(),
    {
        match self {
            ApiErrorCode::Network => "network_error",
            ApiErrorCode::Timeout => "timeout",
            ApiErrorCode::RateLimited => "rate_limited",
            ApiErrorCode::Unauthorized => "unauthorized",
            ApiErrorCode::Forbidden => "forbidden",
            ApiErrorCode::NotFound => "not_found",
            ApiErrorCode::Conflict => "conflict",
            ApiErrorCode::InvalidRequest => "invalid_request",
            ApiErrorCode::ServerError => "server_error",
            ApiErrorCode::Decode => "decode_error",
            ApiErrorCode::UnexpectedStatus => "unexpected_status",
        }
    }
}

/// The class of an HTTP status that is not a success.
pub open spec fn status_code_class(status: u16) -> ApiErrorCode {
    if status == 401 {
        ApiErrorCode::Unauthorized
    } else if status == 403 {
        ApiErrorCode::Forbidden
    } else if status == 404 {
        ApiErrorCode::NotFound
    } else if status == 409 {
        ApiErrorCode::Conflict
    } else if status == 400 {
        ApiErrorCode::InvalidRequest
    } else if status == 429 {
        ApiErrorCode::RateLimited
    } else if 500 <= status <= 599 {
        ApiErrorCode::ServerError
    } else {
        ApiErrorCode::UnexpectedStatus
    }
}

/// No two error classes share a code text.
pub proof fn lemma_code_texts_distinct(a: ApiErrorCode, b: ApiErrorCode)
    ensures
        a != b ==> a.text() != b.text(),
{
    reveal_strlit("network_error");
    reveal_strlit("timeout");
    reveal_strlit("rate_limited");
    reveal_strlit("unauthorized");
    reveal_strlit("forbidden");
    reveal_strlit("not_found");
    reveal_strlit("conflict");
    reveal_strlit("invalid_request");
    reveal_strlit("server_error");
    reveal_strlit("decode_error");
    reveal_strlit("unexpected_status");
    if a != b && a.text() == b.text() {
        let x = a.text();
        let y = b.text();
        assert(x.len() == y.len());
        assert(x[0] == y[0]);
        assert(x[1] == y[1]);
        assert(x[2] == y[2]);
    }
}

/// Each named status has a class of its own, with its own code text: 400
/// `invalid_request`, 401 `unauthorized`, 403 `forbidden`, 404 `not_found`,
/// 409 `conflict`, 429 `rate_limited`, every status from 500 to 599
/// `server_error`, and every other status `unexpected_status`. A failed
/// response is never classed as a network, timeout or decoding error.
pub proof fn lemma_status_classes(status: u16)
    ensures
        (status_code_class(status) == ApiErrorCode::InvalidRequest) <==> status == 400,
        (status_code_class(status) == ApiErrorCode::Unauthorized) <==> status == 401,
        (status_code_class(status) == ApiErrorCode::Forbidden) <==> status == 403,
        (status_code_class(status) == ApiErrorCode::NotFound) <==> status == 404,
        (status_code_class(status) == ApiErrorCode::Conflict) <==> status == 409,
        (status_code_class(status) == ApiErrorCode::RateLimited) <==> status == 429,
        (status_code_class(status) == ApiErrorCode::ServerError) <==> 500 <= status <= 599,
        (status_code_class(status) == ApiErrorCode::UnexpectedStatus) <==> !(status == 400
            || status == 401 || status == 403 || status == 404 || status == 409 || status == 429
            || 500 <= status <= 599),
        status == 400 ==> status_code_class(status).text() == "invalid_request"@,
        status == 401 ==> status_code_class(status).text() == "unauthorized"@,
        status == 403 ==> status_code_class(status).text() == "forbidden"@,
        status == 404 ==> status_code_class(status).text() == "not_found"@,
        status == 409 ==> status_code_class(status).text() == "conflict"@,
        status == 429 ==> status_code_class(status).text() == "rate_limited"@,
        500 <= status <= 599 ==> status_code_class(status).text() == "server_error"@,
{
}

/// A failed API request: its class, message, HTTP status, request id and
/// response body.
#[derive(Debug, Clone, PartialEq, Eq)]
pub struct ApiError {
    code: ApiErrorCode,
    message: String,
    status: Option<u16>,
    request_id: Option<String>,
    body: Option<String>,
}

/// The text of an optional string.
pub open spec fn opt_text(s: Option<String>) -> Option<Seq<char>> {
    match s {
        Some(s) => Some(s@),
        None => None,
    }
}

/// The model of an API error.
pub ghost struct ApiErrorView {
    pub code: ApiErrorCode,
    pub message: Seq<char>,
    pub status: Option<u16>,
    pub request_id: Option<Seq<char>>,
    pub body: Option<Seq<char>>,
}

impl View for ApiError {
    type V = ApiErrorView;

    closed spec fn view(&self) -> ApiErrorView {
        ApiErrorView {
            code: self.code,
            message: self.message@,
            status: self.status,
            request_id: opt_text(self.request_id),
            body: opt_text(self.body),
        }
    }
}

impl ApiError {
    /// The error for a response with a non-success `status`: its class
    /// follows the status, its message names the status, and a body of only
    /// whitespace is dropped.
    pub fn from_status(status: u16, body: String, request_id: Option<String>) -> (r: Self)
        ensures
            r@.code == status_code_class(status),
            r@.message == "request failed with status "@ + dec(status as nat),
            r@.status == Some(status),
            r@.request_id == opt_text(request_id),
            r@.body == (if trim(body@).len() == 0 { None } else { Some(body@) }),
    {
        let code = if status == 401 {
            ApiErrorCode::Unauthorized
        } else if status == 403 {
            ApiErrorCode::Forbidden
        } else if status == 404 {
            ApiErrorCode::NotFound
        } else if status == 409 {
            ApiErrorCode::Conflict
        } else if status == 400 {
            ApiErrorCode::InvalidRequest
        } else if status == 429 {
            ApiErrorCode::RateLimited
        } else if 500 <= status && status <= 599 {
            ApiErrorCode::ServerError
        } else {
            ApiErrorCode::UnexpectedStatus
        };
        let mut message = String::new();
        push_str(&mut message, "request failed with status ");
        push_decimal(&mut message, status as u64);
        assert(message@ =~= "request failed with status "@ + dec(status as nat));
        let blank = trim_str(body.as_str()).unicode_len() == 0;
        ApiError {
            code,
            message,
            status: Some(status),
            request_id,
            body: if blank { None } else { Some(body) },
        }
    }

    /// The error for a request that got no response: a timeout or a network
    /// failure, with the transport's message.
    pub fn from_transport(timed_out: bool, message: String, status: Option<u16>) -> (r: Self)
        ensures
            r@.code == (if timed_out { ApiErrorCode::Timeout } else { ApiErrorCode::Network }),
            r@.message == message@,
            r@.status == status,
            r@.request_id is None,
            r@.body is None,
    {
        ApiError {
            code: if timed_out { ApiErrorCode::Timeout } else { ApiErrorCode::Network },
            message,
            status,
            request_id: None,
            body: None,
        }
    }

    /// The error for a response body that could not be decoded.
    pub fn from_decode(message: String, status: Option<u16>) -> (r: Self)
        ensures
            r@.code == ApiErrorCode::Decode,
            r@.message == message@,
            r@.status == status,
            r@.request_id is None,
            r@.body is None,
    {
        ApiError { code: ApiErrorCode::Decode, message, status, request_id: None, body: None }
    }

    /// The class of the error.
    pub fn code(&self) -> (r: ApiErrorCode)
        ensures
            r == self@.code,
    {
        self.code
    }

    /// The class of the error, for contracts.
    pub open spec fn code_value(&self) -> ApiErrorCode {
        self@.code
    }

    /// The message of the error, for contracts.
    pub open spec fn message_text(&self) -> Seq<char> {
        self@.message
    }

    /// The message of the error.
    pub fn message(&self) -> (r: &str)
        ensures
            r@ == self@.message,
    {
        self.message.as_str()
    }

    /// The HTTP status, where a response came.
    pub fn status(&self) -> (r: Option<u16>)
        ensures
            r == self@.status,
    {
        self.status
    }

    /// The request id the server reported.
    pub fn request_id(&self) -> (r: Option<&str>)
        ensures
            match r {
                Some(s) => self@.request_id == Some(s@),
                None => self@.request_id is None,
            },
    {
        match &self.request_id {
            Some(s) => Some(s.as_str()),
            None => None,
        }
    }

    /// The response body, where it was not blank.
    pub fn body(&self) -> (r: Option<&str>)
        ensures
            match r {
                Some(s) => self@.body == Some(s@),
                None => self@.body is None,
            },
    {
        match &self.body {
            Some(s) => Some(s.as_str()),
            None => None,
        }
    }
}

/// Why text is not a number of points.
#[derive(Debug, Clone, Copy, PartialEq, Eq, Structural)]
pub enum PointsPossibleParseError {
    Invalid,
}

impl PointsPossibleParseError {
    /// The error's message.
    pub fn message(&self) -> (r: &'static str)
        ensures
            r@ == "points must be a positive finite number"@,
    {
        "points must be a positive finite number"
    }
}

/// Why a score is refused.
#[derive(Debug, Clone, Copy, PartialEq, Eq, Structural)]
pub enum ScoreParseError {
    InvalidValue,
    InvalidMax,
    OutOfRange,
}

impl ScoreParseError {
    /// The error's message.
    pub fn message(&self) -> (r: &'static str)
        ensures
            r@ == match self {
                ScoreParseError::InvalidValue => "score must be a finite number"@,
                ScoreParseError::InvalidMax => "score max must be a positive finite number"@,
                ScoreParseError::OutOfRange => "score must be within 0..=max"@,
            },
    {
        match self {
            ScoreParseError::InvalidValue => "score must be a finite number",
            ScoreParseError::InvalidMax => "score max must be a positive finite number",
            ScoreParseError::OutOfRange => "score must be within 0..=max",
        }
    }
}

/// The errors of the library: invalid inputs, missing configuration, failed
/// requests.
#[derive(Debug, Clone, PartialEq, Eq)]
pub enum CanvasError {
    InvalidCourseId(String),
    InvalidGradingPeriodId(String),
    InvalidAssignmentId(String),
    InvalidAssignmentName(String),
    InvalidGroupCategoryId(String),
    InvalidGroupAssignmentMode(String),
    InvalidGroupAssignmentSettings(String),
    InvalidPeerReviewMode(String),
    InvalidPeerReviewSettings(String),
    InvalidAssignmentOverrides(String),
    InvalidAssignmentOverrideTarget(String),
    InvalidAssignmentOverrideDates(String),
    InvalidGradingPostingPolicy(String),
    InvalidMutedState(String),
    InvalidOutcomeId(String),
    InvalidOutcomeGroupId(String),
    InvalidOutcomeTitle(String),
    InvalidOutcomeDescription(String),
    InvalidRubricId(String),
    InvalidRubricAssociationId(String),
    InvalidRubricTitle(String),
    InvalidQuizId(String),
    InvalidQuizSubmissionId(String),
    InvalidQuizTitle(String),
    InvalidQuestionBankId(String),
    InvalidQuestionId(String),
    InvalidQuestionBankTitle(String),
    InvalidQuestionName(String),
    InvalidQuestionText(String),
    InvalidQuestionType(String),
    InvalidQuestionBankUpdate(String),
    InvalidQuestionUpdate(String),
    InvalidQuestionBankJson(String),
    InvalidQuestionJson(String),
    InvalidCalendarEventId(String),
    InvalidConferenceId(String),
    InvalidCollaborationId(String),
    InvalidSectionId(String),
    InvalidSectionName(String),
    InvalidEnrollmentId(String),
    InvalidSectionUpdate(String),
    InvalidExternalToolId(String),
    InvalidExternalToolName(String),
    InvalidExternalToolConfig(String),
    InvalidExternalToolPlacement(String),
    InvalidExternalToolPlacements(String),
    InvalidExternalToolUpdate(String),
    InvalidCalendarEventTitle(String),
    InvalidConferenceTitle(String),
    InvalidCollaborationTitle(String),
    InvalidCollaborationType(String),
    InvalidCollaborators(String),
    InvalidConferenceDescription(String),
    InvalidConferenceDuration(String),
    InvalidUserId(String),
    InvalidSubmissionId(String),
    InvalidPageId(String),
    InvalidPageTitle(String),
    InvalidPageBody(String),
    InvalidModuleId(String),
    InvalidModuleItemId(String),
    InvalidModuleName(String),
    InvalidModuleRequirementType(String),
    InvalidModuleRequirement(String),
    InvalidModulePrerequisites(String),
    InvalidFileId(String),
    InvalidFolderId(String),
    InvalidFolderName(String),
    InvalidDiscussionId(String),
    InvalidGroupId(String),
    InvalidGroupName(String),
    InvalidUserRole(String),
    InvalidMessageSubject(String),
    InvalidMessageBody(String),
    InvalidRecipients(String),
    InvalidScore(String),
    InvalidPointsPossible(String),
    InvalidDueDate(String),
    InvalidEventDateTime(String),
    InvalidAllDayDate(String),
    InvalidQuizTimeLimit(String),
    InvalidQuizAccessCode(String),
    InvalidPublishState(String),
    InvalidRubricSelection(String),
    InvalidRubricAssessment(String),
    InvalidRubricCriteria(String),
    InvalidCourseVisibility(String),
    InvalidGradingSchemeId(String),
    InvalidContentMigrationId(String),
    InvalidContentMigrationType(String),
    InvalidContentMigrationCreate(String),
    InvalidReportType(String),
    InvalidCourseDates(String),
    InvalidCourseUpdate(String),
    GradingPeriodNotFound(u64),
    InvalidAssignmentUpdate(String),
    InvalidOutcomeUpdate(String),
    InvalidQuizUpdate(String),
    InvalidPageUpdate(String),
    InvalidModuleUpdate(String),
    InvalidModuleRequirementUpdate(String),
    InvalidModuleReorder(String),
    InvalidRubricUpdate(String),
    InvalidCalendarEventCreate(String),
    InvalidCalendarEventUpdate(String),
    InvalidCalendarEventContext(String),
    InvalidConferenceUpdate(String),
    InvalidRubricAssociationTarget(String),
    MissingAssignmentPoints(u64),
    MissingQuizPoints(u64),
    InvalidQuizAvailability(String),
    InvalidFileUpload(String),
    ContentMigrationFailed(String),
    ContentMigrationTimeout(String),
    ReportNotReady(String),
    ReportDownloadFailed(String),
    ReportTimeout(String),
    InvalidHost(String),
    InvalidToken,
    MissingConfig(String),
    ConfigRead(String, String),
    ConfigParse(String, String),
    ConfigWrite(String, String),
    AuthCheckFailed(String),
    Http(String),
    Api(ApiError),
}

impl CanvasError {
    /// The stable machine-readable code of the error.
    pub open spec fn code_text(&self) -> Seq<char> {
        match self {
            CanvasError::InvalidCourseId(_) => "invalid_course_id"@,
            CanvasError::InvalidGradingPeriodId(_) => "invalid_grading_period_id"@,
            CanvasError::InvalidAssignmentId(_) => "invalid_assignment_id"@,
            CanvasError::InvalidAssignmentName(_) => "invalid_assignment_name"@,
            CanvasError::InvalidGroupCategoryId(_) => "invalid_group_category_id"@,
            CanvasError::InvalidGroupAssignmentMode(_) => "invalid_group_assignment_mode"@,
            CanvasError::InvalidGroupAssignmentSettings(_) => "invalid_group_assignment_settings"@,
            CanvasError::InvalidPeerReviewMode(_) => "invalid_peer_review_mode"@,
            CanvasError::InvalidPeerReviewSettings(_) => "invalid_peer_review_settings"@,
            CanvasError::InvalidAssignmentOverrides(_) => "invalid_assignment_overrides"@,
            CanvasError::InvalidAssignmentOverrideTarget(_) => "invalid_assignment_override_target"@,
            CanvasError::InvalidAssignmentOverrideDates(_) => "invalid_assignment_override_dates"@,
            CanvasError::InvalidGradingPostingPolicy(_) => "invalid_grading_posting_policy"@,
            CanvasError::InvalidMutedState(_) => "invalid_muted_state"@,
            CanvasError::InvalidOutcomeId(_) => "invalid_outcome_id"@,
            CanvasError::InvalidOutcomeGroupId(_) => "invalid_outcome_group_id"@,
            CanvasError::InvalidOutcomeTitle(_) => "invalid_outcome_title"@,
            CanvasError::InvalidOutcomeDescription(_) => "invalid_outcome_description"@,
            CanvasError::InvalidRubricId(_) => "invalid_rubric_id"@,
            CanvasError::InvalidRubricAssociationId(_) => "invalid_rubric_association_id"@,
            CanvasError::InvalidRubricTitle(_) => "invalid_rubric_title"@,
            CanvasError::InvalidQuizId(_) => "invalid_quiz_id"@,
            CanvasError::InvalidQuizSubmissionId(_) => "invalid_quiz_submission_id"@,
            CanvasError::InvalidQuizTitle(_) => "invalid_quiz_title"@,
            CanvasError::InvalidQuestionBankId(_) => "invalid_question_bank_id"@,
            CanvasError::InvalidQuestionId(_) => "invalid_question_id"@,
            CanvasError::InvalidQuestionBankTitle(_) => "invalid_question_bank_title"@,
            CanvasError::InvalidQuestionName(_) => "invalid_question_name"@,
            CanvasError::InvalidQuestionText(_) => "invalid_question_text"@,
            CanvasError::InvalidQuestionType(_) => "invalid_question_type"@,
            CanvasError::InvalidQuestionBankUpdate(_) => "invalid_question_bank_update"@,
            CanvasError::InvalidQuestionUpdate(_) => "invalid_question_update"@,
            CanvasError::InvalidQuestionBankJson(_) => "invalid_question_bank_json"@,
            CanvasError::InvalidQuestionJson(_) => "invalid_question_json"@,
            CanvasError::InvalidCalendarEventId(_) => "invalid_calendar_event_id"@,
            CanvasError::InvalidConferenceId(_) => "invalid_conference_id"@,
            CanvasError::InvalidCollaborationId(_) => "invalid_collaboration_id"@,
            CanvasError::InvalidSectionId(_) => "invalid_section_id"@,
            CanvasError::InvalidSectionName(_) => "invalid_section_name"@,
            CanvasError::InvalidEnrollmentId(_) => "invalid_enrollment_id"@,
            CanvasError::InvalidSectionUpdate(_) => "invalid_section_update"@,
            CanvasError::InvalidExternalToolId(_) => "invalid_external_tool_id"@,
            CanvasError::InvalidExternalToolName(_) => "invalid_external_tool_name"@,
            CanvasError::InvalidExternalToolConfig(_) => "invalid_external_tool_config"@,
            CanvasError::InvalidExternalToolPlacement(_) => "invalid_external_tool_placement"@,
            CanvasError::InvalidExternalToolPlacements(_) => "invalid_external_tool_placements"@,
            CanvasError::InvalidExternalToolUpdate(_) => "invalid_external_tool_update"@,
            CanvasError::InvalidCalendarEventTitle(_) => "invalid_calendar_event_title"@,
            CanvasError::InvalidConferenceTitle(_) => "invalid_conference_title"@,
            CanvasError::InvalidCollaborationTitle(_) => "invalid_collaboration_title"@,
            CanvasError::InvalidCollaborationType(_) => "invalid_collaboration_type"@,
            CanvasError::InvalidCollaborators(_) => "invalid_collaborators"@,
            CanvasError::InvalidConferenceDescription(_) => "invalid_conference_description"@,
            CanvasError::InvalidConferenceDuration(_) => "invalid_conference_duration"@,
            CanvasError::InvalidUserId(_) => "invalid_user_id"@,
            CanvasError::InvalidSubmissionId(_) => "invalid_submission_id"@,
            CanvasError::InvalidPageId(_) => "invalid_page_id"@,
            CanvasError::InvalidPageTitle(_) => "invalid_page_title"@,
            CanvasError::InvalidPageBody(_) => "invalid_page_body"@,
            CanvasError::InvalidModuleId(_) => "invalid_module_id"@,
            CanvasError::InvalidModuleItemId(_) => "invalid_module_item_id"@,
            CanvasError::InvalidModuleName(_) => "invalid_module_name"@,
            CanvasError::InvalidModuleRequirementType(_) => "invalid_module_requirement_type"@,
            CanvasError::InvalidModuleRequirement(_) => "invalid_module_requirement"@,
            CanvasError::InvalidModulePrerequisites(_) => "invalid_module_prerequisites"@,
            CanvasError::InvalidFileId(_) => "invalid_file_id"@,
            CanvasError::InvalidFolderId(_) => "invalid_folder_id"@,
            CanvasError::InvalidFolderName(_) => "invalid_folder_name"@,
            CanvasError::InvalidDiscussionId(_) => "invalid_discussion_id"@,
            CanvasError::InvalidGroupId(_) => "invalid_group_id"@,
            CanvasError::InvalidGroupName(_) => "invalid_group_name"@,
            CanvasError::InvalidUserRole(_) => "invalid_user_role"@,
            CanvasError::InvalidMessageSubject(_) => "invalid_message_subject"@,
            CanvasError::InvalidMessageBody(_) => "invalid_message_body"@,
            CanvasError::InvalidRecipients(_) => "invalid_recipients"@,
            CanvasError::InvalidScore(_) => "invalid_score"@,
            CanvasError::InvalidPointsPossible(_) => "invalid_points_possible"@,
            CanvasError::InvalidDueDate(_) => "invalid_due_date"@,
            CanvasError::InvalidEventDateTime(_) => "invalid_event_date_time"@,
            CanvasError::InvalidAllDayDate(_) => "invalid_all_day_date"@,
            CanvasError::InvalidQuizTimeLimit(_) => "invalid_quiz_time_limit"@,
            CanvasError::InvalidQuizAccessCode(_) => "invalid_quiz_access_code"@,
            CanvasError::InvalidPublishState(_) => "invalid_publish_state"@,
            CanvasError::InvalidRubricSelection(_) => "invalid_rubric_selection"@,
            CanvasError::InvalidRubricAssessment(_) => "invalid_rubric_assessment"@,
            CanvasError::InvalidRubricCriteria(_) => "invalid_rubric_criteria"@,
            CanvasError::InvalidCourseVisibility(_) => "invalid_course_visibility"@,
            CanvasError::InvalidGradingSchemeId(_) => "invalid_grading_scheme_id"@,
            CanvasError::InvalidContentMigrationId(_) => "invalid_content_migration_id"@,
            CanvasError::InvalidContentMigrationType(_) => "invalid_content_migration_type"@,
            CanvasError::InvalidContentMigrationCreate(_) => "invalid_content_migration_create"@,
            CanvasError::InvalidReportType(_) => "invalid_report_type"@,
            CanvasError::InvalidCourseDates(_) => "invalid_course_dates"@,
            CanvasError::InvalidCourseUpdate(_) => "invalid_course_update"@,
            CanvasError::GradingPeriodNotFound(_) => "grading_period_not_found"@,
            CanvasError::InvalidAssignmentUpdate(_) => "invalid_assignment_update"@,
            CanvasError::InvalidOutcomeUpdate(_) => "invalid_outcome_update"@,
            CanvasError::InvalidQuizUpdate(_) => "invalid_quiz_update"@,
            CanvasError::InvalidPageUpdate(_) => "invalid_page_update"@,
            CanvasError::InvalidModuleUpdate(_) => "invalid_module_update"@,
            CanvasError::InvalidModuleRequirementUpdate(_) => "invalid_module_requirement_update"@,
            CanvasError::InvalidModuleReorder(_) => "invalid_module_reorder"@,
            CanvasError::InvalidRubricUpdate(_) => "invalid_rubric_update"@,
            CanvasError::InvalidCalendarEventCreate(_) => "invalid_calendar_event_create"@,
            CanvasError::InvalidCalendarEventUpdate(_) => "invalid_calendar_event_update"@,
            CanvasError::InvalidCalendarEventContext(_) => "invalid_calendar_event_context"@,
            CanvasError::InvalidConferenceUpdate(_) => "invalid_conference_update"@,
            CanvasError::InvalidRubricAssociationTarget(_) => "invalid_rubric_association_target"@,
            CanvasError::MissingAssignmentPoints(_) => "missing_assignment_points"@,
            CanvasError::MissingQuizPoints(_) => "missing_quiz_points"@,
            CanvasError::InvalidQuizAvailability(_) => "invalid_quiz_availability"@,
            CanvasError::InvalidFileUpload(_) => "invalid_file_upload"@,
            CanvasError::ContentMigrationFailed(_) => "content_migration_failed"@,
            CanvasError::ContentMigrationTimeout(_) => "content_migration_timeout"@,
            CanvasError::ReportNotReady(_) => "report_not_ready"@,
            CanvasError::ReportDownloadFailed(_) => "report_download_failed"@,
            CanvasError::ReportTimeout(_) => "report_timeout"@,
            CanvasError::InvalidHost(_) => "invalid_host"@,
            CanvasError::InvalidToken => "invalid_token"@,
            CanvasError::MissingConfig(_) => "missing_config"@,
            CanvasError::ConfigRead(_, _) => "config_read"@,
            CanvasError::ConfigParse(_, _) => "config_parse"@,
            CanvasError::ConfigWrite(_, _) => "config_write"@,
            CanvasError::AuthCheckFailed(_) => "auth_check_failed"@,
            CanvasError::Http(_) => "http_error"@,
            CanvasError::Api(e) => e.code_value().text(),
        }
    }

    /// The stable machine-readable code of the error.
    pub fn code(&self) -> (r: &'static str)
        ensures
            r@ == self.code_text(),
    {
        match self {
            CanvasError::InvalidCourseId(_) => "invalid_course_id",
            CanvasError::InvalidGradingPeriodId(_) => "invalid_grading_period_id",
            CanvasError::InvalidAssignmentId(_) => "invalid_assignment_id",
            CanvasError::InvalidAssignmentName(_) => "invalid_assignment_name",
            CanvasError::InvalidGroupCategoryId(_) => "invalid_group_category_id",
            CanvasError::InvalidGroupAssignmentMode(_) => "invalid_group_assignment_mode",
            CanvasError::InvalidGroupAssignmentSettings(_) => "invalid_group_assignment_settings",
            CanvasError::InvalidPeerReviewMode(_) => "invalid_peer_review_mode",
            CanvasError::InvalidPeerReviewSettings(_) => "invalid_peer_review_settings",
            CanvasError::InvalidAssignmentOverrides(_) => "invalid_assignment_overrides",
            CanvasError::InvalidAssignmentOverrideTarget(_) => "invalid_assignment_override_target",
            CanvasError::InvalidAssignmentOverrideDates(_) => "invalid_assignment_override_dates",
            CanvasError::InvalidGradingPostingPolicy(_) => "invalid_grading_posting_policy",
            CanvasError::InvalidMutedState(_) => "invalid_muted_state",
            CanvasError::InvalidOutcomeId(_) => "invalid_outcome_id",
            CanvasError::InvalidOutcomeGroupId(_) => "invalid_outcome_group_id",
            CanvasError::InvalidOutcomeTitle(_) => "invalid_outcome_title",
            CanvasError::InvalidOutcomeDescription(_) => "invalid_outcome_description",
            CanvasError::InvalidRubricId(_) => "invalid_rubric_id",
            CanvasError::InvalidRubricAssociationId(_) => "invalid_rubric_association_id",
            CanvasError::InvalidRubricTitle(_) => "invalid_rubric_title",
            CanvasError::InvalidQuizId(_) => "invalid_quiz_id",
            CanvasError::InvalidQuizSubmissionId(_) => "invalid_quiz_submission_id",
            CanvasError::InvalidQuizTitle(_) => "invalid_quiz_title",
            CanvasError::InvalidQuestionBankId(_) => "invalid_question_bank_id",
            CanvasError::InvalidQuestionId(_) => "invalid_question_id",
            CanvasError::InvalidQuestionBankTitle(_) => "invalid_question_bank_title",
            CanvasError::InvalidQuestionName(_) => "invalid_question_name",
            CanvasError::InvalidQuestionText(_) => "invalid_question_text",
            CanvasError::InvalidQuestionType(_) => "invalid_question_type",
            CanvasError::InvalidQuestionBankUpdate(_) => "invalid_question_bank_update",
            CanvasError::InvalidQuestionUpdate(_) => "invalid_question_update",
            CanvasError::InvalidQuestionBankJson(_) => "invalid_question_bank_json",
            CanvasError::InvalidQuestionJson(_) => "invalid_question_json",
            CanvasError::InvalidCalendarEventId(_) => "invalid_calendar_event_id",
            CanvasError::InvalidConferenceId(_) => "invalid_conference_id",
            CanvasError::InvalidCollaborationId(_) => "invalid_collaboration_id",
            CanvasError::InvalidSectionId(_) => "invalid_section_id",
            CanvasError::InvalidSectionName(_) => "invalid_section_name",
            CanvasError::InvalidEnrollmentId(_) => "invalid_enrollment_id",
            CanvasError::InvalidSectionUpdate(_) => "invalid_section_update",
            CanvasError::InvalidExternalToolId(_) => "invalid_external_tool_id",
            CanvasError::InvalidExternalToolName(_) => "invalid_external_tool_name",
            CanvasError::InvalidExternalToolConfig(_) => "invalid_external_tool_config",
            CanvasError::InvalidExternalToolPlacement(_) => "invalid_external_tool_placement",
            CanvasError::InvalidExternalToolPlacements(_) => "invalid_external_tool_placements",
            CanvasError::InvalidExternalToolUpdate(_) => "invalid_external_tool_update",
            CanvasError::InvalidCalendarEventTitle(_) => "invalid_calendar_event_title",
            CanvasError::InvalidConferenceTitle(_) => "invalid_conference_title",
            CanvasError::InvalidCollaborationTitle(_) => "invalid_collaboration_title",
            CanvasError::InvalidCollaborationType(_) => "invalid_collaboration_type",
            CanvasError::InvalidCollaborators(_) => "invalid_collaborators",
            CanvasError::InvalidConferenceDescription(_) => "invalid_conference_description",
            CanvasError::InvalidConferenceDuration(_) => "invalid_conference_duration",
            CanvasError::InvalidUserId(_) => "invalid_user_id",
            CanvasError::InvalidSubmissionId(_) => "invalid_submission_id",
            CanvasError::InvalidPageId(_) => "invalid_page_id",
            CanvasError::InvalidPageTitle(_) => "invalid_page_title",
            CanvasError::InvalidPageBody(_) => "invalid_page_body",
            CanvasError::InvalidModuleId(_) => "invalid_module_id",
            CanvasError::InvalidModuleItemId(_) => "invalid_module_item_id",
            CanvasError::InvalidModuleName(_) => "invalid_module_name",
            CanvasError::InvalidModuleRequirementType(_) => "invalid_module_requirement_type",
            CanvasError::InvalidModuleRequirement(_) => "invalid_module_requirement",
            CanvasError::InvalidModulePrerequisites(_) => "invalid_module_prerequisites",
            CanvasError::InvalidFileId(_) => "invalid_file_id",
            CanvasError::InvalidFolderId(_) => "invalid_folder_id",
            CanvasError::InvalidFolderName(_) => "invalid_folder_name",
            CanvasError::InvalidDiscussionId(_) => "invalid_discussion_id",
            CanvasError::InvalidGroupId(_) => "invalid_group_id",
            CanvasError::InvalidGroupName(_) => "invalid_group_name",
            CanvasError::InvalidUserRole(_) => "invalid_user_role",
            CanvasError::InvalidMessageSubject(_) => "invalid_message_subject",
            CanvasError::InvalidMessageBody(_) => "invalid_message_body",
            CanvasError::InvalidRecipients(_) => "invalid_recipients",
            CanvasError::InvalidScore(_) => "invalid_score",
            CanvasError::InvalidPointsPossible(_) => "invalid_points_possible",
            CanvasError::InvalidDueDate(_) => "invalid_due_date",
            CanvasError::InvalidEventDateTime(_) => "invalid_event_date_time",
            CanvasError::InvalidAllDayDate(_) => "invalid_all_day_date",
            CanvasError::InvalidQuizTimeLimit(_) => "invalid_quiz_time_limit",
            CanvasError::InvalidQuizAccessCode(_) => "invalid_quiz_access_code",
            CanvasError::InvalidPublishState(_) => "invalid_publish_state",
            CanvasError::InvalidRubricSelection(_) => "invalid_rubric_selection",
            CanvasError::InvalidRubricAssessment(_) => "invalid_rubric_assessment",
            CanvasError::InvalidRubricCriteria(_) => "invalid_rubric_criteria",
            CanvasError::InvalidCourseVisibility(_) => "invalid_course_visibility",
            CanvasError::InvalidGradingSchemeId(_) => "invalid_grading_scheme_id",
            CanvasError::InvalidContentMigrationId(_) => "invalid_content_migration_id",
            CanvasError::InvalidContentMigrationType(_) => "invalid_content_migration_type",
            CanvasError::InvalidContentMigrationCreate(_) => "invalid_content_migration_create",
            CanvasError::InvalidReportType(_) => "invalid_report_type",
            CanvasError::InvalidCourseDates(_) => "invalid_course_dates",
            CanvasError::InvalidCourseUpdate(_) => "invalid_course_update",
            CanvasError::GradingPeriodNotFound(_) => "grading_period_not_found",
            CanvasError::InvalidAssignmentUpdate(_) => "invalid_assignment_update",
            CanvasError::InvalidOutcomeUpdate(_) => "invalid_outcome_update",
            CanvasError::InvalidQuizUpdate(_) => "invalid_quiz_update",
            CanvasError::InvalidPageUpdate(_) => "invalid_page_update",
            CanvasError::InvalidModuleUpdate(_) => "invalid_module_update",
            CanvasError::InvalidModuleRequirementUpdate(_) => "invalid_module_requirement_update",
            CanvasError::InvalidModuleReorder(_) => "invalid_module_reorder",
            CanvasError::InvalidRubricUpdate(_) => "invalid_rubric_update",
            CanvasError::InvalidCalendarEventCreate(_) => "invalid_calendar_event_create",
            CanvasError::InvalidCalendarEventUpdate(_) => "invalid_calendar_event_update",
            CanvasError::InvalidCalendarEventContext(_) => "invalid_calendar_event_context",
            CanvasError::InvalidConferenceUpdate(_) => "invalid_conference_update",
            CanvasError::InvalidRubricAssociationTarget(_) => "invalid_rubric_association_target",
            CanvasError::MissingAssignmentPoints(_) => "missing_assignment_points",
            CanvasError::MissingQuizPoints(_) => "missing_quiz_points",
            CanvasError::InvalidQuizAvailability(_) => "invalid_quiz_availability",
            CanvasError::InvalidFileUpload(_) => "invalid_file_upload",
            CanvasError::ContentMigrationFailed(_) => "content_migration_failed",
            CanvasError::ContentMigrationTimeout(_) => "content_migration_timeout",
            CanvasError::ReportNotReady(_) => "report_not_ready",
            CanvasError::ReportDownloadFailed(_) => "report_download_failed",
            CanvasError::ReportTimeout(_) => "report_timeout",
            CanvasError::InvalidHost(_) => "invalid_host",
            CanvasError::InvalidToken => "invalid_token",
            CanvasError::MissingConfig(_) => "missing_config",
            CanvasError::ConfigRead(_, _) => "config_read",
            CanvasError::ConfigParse(_, _) => "config_parse",
            CanvasError::ConfigWrite(_, _) => "config_write",
            CanvasError::AuthCheckFailed(_) => "auth_check_failed",
            CanvasError::Http(_) => "http_error",
            CanvasError::Api(e) => e.code().as_str(),
        }
    }

    /// The human-readable message of the error.
    pub open spec fn message_text(&self) -> Seq<char> {
        match self {
            CanvasError::InvalidCourseId(a0) => "invalid course id: "@ + a0@,
            CanvasError::InvalidGradingPeriodId(a0) => "invalid grading period id: "@ + a0@,
            CanvasError::InvalidAssignmentId(a0) => "invalid assignment id: "@ + a0@,
            CanvasError::InvalidAssignmentName(a0) => "invalid assignment name: "@ + a0@,
            CanvasError::InvalidGroupCategoryId(a0) => "invalid group category id: "@ + a0@,
            CanvasError::InvalidGroupAssignmentMode(a0) => "invalid group assignment mode: "@ + a0@,
            CanvasError::InvalidGroupAssignmentSettings(a0) => "invalid group assignment settings: "@ + a0@,
            CanvasError::InvalidPeerReviewMode(a0) => "invalid peer review mode: "@ + a0@,
            CanvasError::InvalidPeerReviewSettings(a0) => "invalid peer review settings: "@ + a0@,
            CanvasError::InvalidAssignmentOverrides(a0) => "invalid assignment overrides: "@ + a0@,
            CanvasError::InvalidAssignmentOverrideTarget(a0) => "invalid assignment override target: "@ + a0@,
            CanvasError::InvalidAssignmentOverrideDates(a0) => "invalid assignment override dates: "@ + a0@,
            CanvasError::InvalidGradingPostingPolicy(a0) => "invalid grading posting policy: "@ + a0@,
            CanvasError::InvalidMutedState(a0) => "invalid muted state: "@ + a0@,
            CanvasError::InvalidOutcomeId(a0) => "invalid outcome id: "@ + a0@,
            CanvasError::InvalidOutcomeGroupId(a0) => "invalid outcome group id: "@ + a0@,
            CanvasError::InvalidOutcomeTitle(a0) => "invalid outcome title: "@ + a0@,
            CanvasError::InvalidOutcomeDescription(a0) => "invalid outcome description: "@ + a0@,
            CanvasError::InvalidRubricId(a0) => "invalid rubric id: "@ + a0@,
            CanvasError::InvalidRubricAssociationId(a0) => "invalid rubric association id: "@ + a0@,
            CanvasError::InvalidRubricTitle(a0) => "invalid rubric title: "@ + a0@,
            CanvasError::InvalidQuizId(a0) => "invalid quiz id: "@ + a0@,
            CanvasError::InvalidQuizSubmissionId(a0) => "invalid quiz submission id: "@ + a0@,
            CanvasError::InvalidQuizTitle(a0) => "invalid quiz title: "@ + a0@,
            CanvasError::InvalidQuestionBankId(a0) => "invalid question bank id: "@ + a0@,
            CanvasError::InvalidQuestionId(a0) => "invalid question id: "@ + a0@,
            CanvasError::InvalidQuestionBankTitle(a0) => "invalid question bank title: "@ + a0@,
            CanvasError::InvalidQuestionName(a0) => "invalid question name: "@ + a0@,
            CanvasError::InvalidQuestionText(a0) => "invalid question text: "@ + a0@,
            CanvasError::InvalidQuestionType(a0) => "invalid question type: "@ + a0@,
            CanvasError::InvalidQuestionBankUpdate(a0) => "invalid question bank update: "@ + a0@,
            CanvasError::InvalidQuestionUpdate(a0) => "invalid question update: "@ + a0@,
            CanvasError::InvalidQuestionBankJson(a0) => "invalid question bank json: "@ + a0@,
            CanvasError::InvalidQuestionJson(a0) => "invalid question json: "@ + a0@,
            CanvasError::InvalidCalendarEventId(a0) => "invalid calendar event id: "@ + a0@,
            CanvasError::InvalidConferenceId(a0) => "invalid conference id: "@ + a0@,
            CanvasError::InvalidCollaborationId(a0) => "invalid collaboration id: "@ + a0@,
            CanvasError::InvalidSectionId(a0) => "invalid section id: "@ + a0@,
            CanvasError::InvalidSectionName(a0) => "invalid section name: "@ + a0@,
            CanvasError::InvalidEnrollmentId(a0) => "invalid enrollment id: "@ + a0@,
            CanvasError::InvalidSectionUpdate(a0) => "invalid section update: "@ + a0@,
            CanvasError::InvalidExternalToolId(a0) => "invalid external tool id: "@ + a0@,
            CanvasError::InvalidExternalToolName(a0) => "invalid external tool name: "@ + a0@,
            CanvasError::InvalidExternalToolConfig(a0) => "invalid external tool config: "@ + a0@,
            CanvasError::InvalidExternalToolPlacement(a0) => "invalid external tool placement: "@ + a0@,
            CanvasError::InvalidExternalToolPlacements(a0) => "invalid external tool placements: "@ + a0@,
            CanvasError::InvalidExternalToolUpdate(a0) => "invalid external tool update: "@ + a0@,
            CanvasError::InvalidCalendarEventTitle(a0) => "invalid calendar event title: "@ + a0@,
            CanvasError::InvalidConferenceTitle(a0) => "invalid conference title: "@ + a0@,
            CanvasError::InvalidCollaborationTitle(a0) => "invalid collaboration title: "@ + a0@,
            CanvasError::InvalidCollaborationType(a0) => "invalid collaboration type: "@ + a0@,
            CanvasError::InvalidCollaborators(a0) => "invalid collaborators: "@ + a0@,
            CanvasError::InvalidConferenceDescription(a0) => "invalid conference description: "@ + a0@,
            CanvasError::InvalidConferenceDuration(a0) => "invalid conference duration: "@ + a0@,
            CanvasError::InvalidUserId(a0) => "invalid user id: "@ + a0@,
            CanvasError::InvalidSubmissionId(a0) => "invalid submission id: "@ + a0@,
            CanvasError::InvalidPageId(a0) => "invalid page id: "@ + a0@,
            CanvasError::InvalidPageTitle(a0) => "invalid page title: "@ + a0@,
            CanvasError::InvalidPageBody(a0) => "invalid page body: "@ + a0@,
            CanvasError::InvalidModuleId(a0) => "invalid module id: "@ + a0@,
            CanvasError::InvalidModuleItemId(a0) => "invalid module item id: "@ + a0@,
            CanvasError::InvalidModuleName(a0) => "invalid module name: "@ + a0@,
            CanvasError::InvalidModuleRequirementType(a0) => "invalid module requirement type: "@ + a0@,
            CanvasError::InvalidModuleRequirement(a0) => "invalid module requirement: "@ + a0@,
            CanvasError::InvalidModulePrerequisites(a0) => "invalid module prerequisites: "@ + a0@,
            CanvasError::InvalidFileId(a0) => "invalid file id: "@ + a0@,
            CanvasError::InvalidFolderId(a0) => "invalid folder id: "@ + a0@,
            CanvasError::InvalidFolderName(a0) => "invalid folder name: "@ + a0@,
            CanvasError::InvalidDiscussionId(a0) => "invalid discussion id: "@ + a0@,
            CanvasError::InvalidGroupId(a0) => "invalid group id: "@ + a0@,
            CanvasError::InvalidGroupName(a0) => "invalid group name: "@ + a0@,
            CanvasError::InvalidUserRole(a0) => "invalid user role: "@ + a0@,
            CanvasError::InvalidMessageSubject(a0) => "invalid message subject: "@ + a0@,
            CanvasError::InvalidMessageBody(a0) => "invalid message body: "@ + a0@,
            CanvasError::InvalidRecipients(a0) => "invalid recipients: "@ + a0@,
            CanvasError::InvalidScore(a0) => "invalid score: "@ + a0@,
            CanvasError::InvalidPointsPossible(a0) => "invalid points possible: "@ + a0@,
            CanvasError::InvalidDueDate(a0) => "invalid due date: "@ + a0@,
            CanvasError::InvalidEventDateTime(a0) => "invalid event timestamp: "@ + a0@,
            CanvasError::InvalidAllDayDate(a0) => "invalid all-day date: "@ + a0@,
            CanvasError::InvalidQuizTimeLimit(a0) => "invalid quiz time limit: "@ + a0@,
            CanvasError::InvalidQuizAccessCode(a0) => "invalid quiz access code: "@ + a0@,
            CanvasError::InvalidPublishState(a0) => "invalid publish state: "@ + a0@,
            CanvasError::InvalidRubricSelection(a0) => "invalid rubric selection: "@ + a0@,
            CanvasError::InvalidRubricAssessment(a0) => "invalid rubric assessment: "@ + a0@,
            CanvasError::InvalidRubricCriteria(a0) => "invalid rubric criteria: "@ + a0@,
            CanvasError::InvalidCourseVisibility(a0) => "invalid course visibility: "@ + a0@,
            CanvasError::InvalidGradingSchemeId(a0) => "invalid grading scheme id: "@ + a0@,
            CanvasError::InvalidContentMigrationId(a0) => "invalid content migration id: "@ + a0@,
            CanvasError::InvalidContentMigrationType(a0) => "invalid content migration type: "@ + a0@,
            CanvasError::InvalidContentMigrationCreate(a0) => "invalid content migration create: "@ + a0@,
            CanvasError::InvalidReportType(a0) => "invalid report type: "@ + a0@,
            CanvasError::InvalidCourseDates(a0) => "invalid course dates: "@ + a0@,
            CanvasError::InvalidCourseUpdate(a0) => "invalid course update: "@ + a0@,
            CanvasError::GradingPeriodNotFound(a0) => "grading period not found: "@ + dec(*a0 as nat),
            CanvasError::InvalidAssignmentUpdate(a0) => "invalid assignment update: "@ + a0@,
            CanvasError::InvalidOutcomeUpdate(a0) => "invalid outcome update: "@ + a0@,
            CanvasError::InvalidQuizUpdate(a0) => "invalid quiz update: "@ + a0@,
            CanvasError::InvalidPageUpdate(a0) => "invalid page update: "@ + a0@,
            CanvasError::InvalidModuleUpdate(a0) => "invalid module update: "@ + a0@,
            CanvasError::InvalidModuleRequirementUpdate(a0) => "invalid module requirement update: "@ + a0@,
            CanvasError::InvalidModuleReorder(a0) => "invalid module reorder: "@ + a0@,
            CanvasError::InvalidRubricUpdate(a0) => "invalid rubric update: "@ + a0@,
            CanvasError::InvalidCalendarEventCreate(a0) => "invalid calendar event create: "@ + a0@,
            CanvasError::InvalidCalendarEventUpdate(a0) => "invalid calendar event update: "@ + a0@,
            CanvasError::InvalidCalendarEventContext(a0) => "invalid calendar event context: "@ + a0@,
            CanvasError::InvalidConferenceUpdate(a0) => "invalid conference update: "@ + a0@,
            CanvasError::InvalidRubricAssociationTarget(a0) => "invalid rubric association target: "@ + a0@,
            CanvasError::MissingAssignmentPoints(a0) => "missing assignment points for assignment id "@ + dec(*a0 as nat),
            CanvasError::MissingQuizPoints(a0) => "missing quiz points for quiz id "@ + dec(*a0 as nat),
            CanvasError::InvalidQuizAvailability(a0) => "invalid quiz availability: "@ + a0@,
            CanvasError::InvalidFileUpload(a0) => "invalid file upload: "@ + a0@,
            CanvasError::ContentMigrationFailed(a0) => "content migration failed: "@ + a0@,
            CanvasError::ContentMigrationTimeout(a0) => "content migration polling timed out: "@ + a0@,
            CanvasError::ReportNotReady(a0) => "report not ready: "@ + a0@,
            CanvasError::ReportDownloadFailed(a0) => "report download failed: "@ + a0@,
            CanvasError::ReportTimeout(a0) => "report polling timed out: "@ + a0@,
            CanvasError::InvalidHost(a0) => "invalid host: "@ + a0@,
            CanvasError::InvalidToken => "invalid token"@,
            CanvasError::MissingConfig(a0) => "missing configuration: "@ + a0@,
            CanvasError::ConfigRead(a0, a1) => "failed to read config file at "@ + a0@ + ": "@ + a1@,
            CanvasError::ConfigParse(a0, a1) => "failed to parse config file at "@ + a0@ + ": "@ + a1@,
            CanvasError::ConfigWrite(a0, a1) => "failed to write config file at "@ + a0@ + ": "@ + a1@,
            CanvasError::AuthCheckFailed(a0) => "auth check failed: "@ + a0@,
            CanvasError::Http(a0) => "http error: "@ + a0@,
            CanvasError::Api(e) => e.message_text(),
        }
    }

    /// The human-readable message of the error.
    pub fn message(&self) -> (r: String)
        ensures
            r@ == self.message_text(),
    {
        let mut out = String::new();
        match self {
            CanvasError::InvalidCourseId(a0) => {
                push_str(&mut out, "invalid course id: ");
                push_str(&mut out, a0.as_str());
            },
            CanvasError::InvalidGradingPeriodId(a0) => {
                push_str(&mut out, "invalid grading period id: ");
                push_str(&mut out, a0.as_str());
            },
            CanvasError::InvalidAssignmentId(a0) => {
                push_str(&mut out, "invalid assignment id: ");
                push_str(&mut out, a0.as_str());
            },
            CanvasError::InvalidAssignmentName(a0) => {
                push_str(&mut out, "invalid assignment name: ");
                push_str(&mut out, a0.as_str());
            },
            CanvasError::InvalidGroupCategoryId(a0) => {
                push_str(&mut out, "invalid group category id: ");
                push_str(&mut out, a0.as_str());
            },
            CanvasError::InvalidGroupAssignmentMode(a0) => {
                push_str(&mut out, "invalid group assignment mode: ");
                push_str(&mut out, a0.as_str());
            },
            CanvasError::InvalidGroupAssignmentSettings(a0) => {
                push_str(&mut out, "invalid group assignment settings: ");
                push_str(&mut out, a0.as_str());
            },
            CanvasError::InvalidPeerReviewMode(a0) => {
                push_str(&mut out, "invalid peer review mode: ");
                push_str(&mut out, a0.as_str());
            },
            CanvasError::InvalidPeerReviewSettings(a0) => {
                push_str(&mut out, "invalid peer review settings: ");
                push_str(&mut out, a0.as_str());
            },
            CanvasError::InvalidAssignmentOverrides(a0) => {
                push_str(&mut out, "invalid assignment overrides: ");
                push_str(&mut out, a0.as_str());
            },
            CanvasError::InvalidAssignmentOverrideTarget(a0) => {
                push_str(&mut out, "invalid assignment override target: ");
                push_str(&mut out, a0.as_str());
            },
            CanvasError::InvalidAssignmentOverrideDates(a0) => {
                push_str(&mut out, "invalid assignment override dates: ");
                push_str(&mut out, a0.as_str());
            },
            CanvasError::InvalidGradingPostingPolicy(a0) => {
                push_str(&mut out, "invalid grading posting policy: ");
                push_str(&mut out, a0.as_str());
            },
            CanvasError::InvalidMutedState(a0) => {
                push_str(&mut out, "invalid muted state: ");
                push_str(&mut out, a0.as_str());
            },
            CanvasError::InvalidOutcomeId(a0) => {
                push_str(&mut out, "invalid outcome id: ");
                push_str(&mut out, a0.as_str());
            },
            CanvasError::InvalidOutcomeGroupId(a0) => {
                push_str(&mut out, "invalid outcome group id: ");
                push_str(&mut out, a0.as_str());
            },
            CanvasError::InvalidOutcomeTitle(a0) => {
                push_str(&mut out, "invalid outcome title: ");
                push_str(&mut out, a0.as_str());
            },
            CanvasError::InvalidOutcomeDescription(a0) => {
                push_str(&mut out, "invalid outcome description: ");
                push_str(&mut out, a0.as_str());
            },
            CanvasError::InvalidRubricId(a0) => {
                push_str(&mut out, "invalid rubric id: ");
                push_str(&mut out, a0.as_str());
            },
            CanvasError::InvalidRubricAssociationId(a0) => {
                push_str(&mut out, "invalid rubric association id: ");
                push_str(&mut out, a0.as_str());
            },
            CanvasError::InvalidRubricTitle(a0) => {
                push_str(&mut out, "invalid rubric title: ");
                push_str(&mut out, a0.as_str());
            },
            CanvasError::InvalidQuizId(a0) => {
                push_str(&mut out, "invalid quiz id: ");
                push_str(&mut out, a0.as_str());
            },
            CanvasError::InvalidQuizSubmissionId(a0) => {
                push_str(&mut out, "invalid quiz submission id: ");
                push_str(&mut out, a0.as_str());
            },
            CanvasError::InvalidQuizTitle(a0) => {
                push_str(&mut out, "invalid quiz title: ");
                push_str(&mut out, a0.as_str());
            },
            CanvasError::InvalidQuestionBankId(a0) => {
                push_str(&mut out, "invalid question bank id: ");
                push_str(&mut out, a0.as_str());
            },
            CanvasError::InvalidQuestionId(a0) => {
                push_str(&mut out, "invalid question id: ");
                push_str(&mut out, a0.as_str());
            },
            CanvasError::InvalidQuestionBankTitle(a0) => {
                push_str(&mut out, "invalid question bank title: ");
                push_str(&mut out, a0.as_str());
            },
            CanvasError::InvalidQuestionName(a0) => {
                push_str(&mut out, "invalid question name: ");
                push_str(&mut out, a0.as_str());
            },
            CanvasError::InvalidQuestionText(a0) => {
                push_str(&mut out, "invalid question text: ");
                push_str(&mut out, a0.as_str());
            },
            CanvasError::InvalidQuestionType(a0) => {
                push_str(&mut out, "invalid question type: ");
                push_str(&mut out, a0.as_str());
            },
            CanvasError::InvalidQuestionBankUpdate(a0) => {
                push_str(&mut out, "invalid question bank update: ");
                push_str(&mut out, a0.as_str());
            },
            CanvasError::InvalidQuestionUpdate(a0) => {
                push_str(&mut out, "invalid question update: ");
                push_str(&mut out, a0.as_str());
            },
            CanvasError::InvalidQuestionBankJson(a0) => {
                push_str(&mut out, "invalid question bank json: ");
                push_str(&mut out, a0.as_str());
            },
            CanvasError::InvalidQuestionJson(a0) => {
                push_str(&mut out, "invalid question json: ");
                push_str(&mut out, a0.as_str());
            },
            CanvasError::InvalidCalendarEventId(a0) => {
                push_str(&mut out, "invalid calendar event id: ");
                push_str(&mut out, a0.as_str());
            },
            CanvasError::InvalidConferenceId(a0) => {
                push_str(&mut out, "invalid conference id: ");
                push_str(&mut out, a0.as_str());
            },
            CanvasError::InvalidCollaborationId(a0) => {
                push_str(&mut out, "invalid collaboration id: ");
                push_str(&mut out, a0.as_str());
            },
            CanvasError::InvalidSectionId(a0) => {
                push_str(&mut out, "invalid section id: ");
                push_str(&mut out, a0.as_str());
            },
            CanvasError::InvalidSectionName(a0) => {
                push_str(&mut out, "invalid section name: ");
                push_str(&mut out, a0.as_str());
            },
            CanvasError::InvalidEnrollmentId(a0) => {
                push_str(&mut out, "invalid enrollment id: ");
                push_str(&mut out, a0.as_str());
            },
            CanvasError::InvalidSectionUpdate(a0) => {
                push_str(&mut out, "invalid section update: ");
                push_str(&mut out, a0.as_str());
            },
            CanvasError::InvalidExternalToolId(a0) => {
                push_str(&mut out, "invalid external tool id: ");
                push_str(&mut out, a0.as_str());
            },
            CanvasError::InvalidExternalToolName(a0) => {
                push_str(&mut out, "invalid external tool name: ");
                push_str(&mut out, a0.as_str());
            },
            CanvasError::InvalidExternalToolConfig(a0) => {
                push_str(&mut out, "invalid external tool config: ");
                push_str(&mut out, a0.as_str());
            },
            CanvasError::InvalidExternalToolPlacement(a0) => {
                push_str(&mut out, "invalid external tool placement: ");
                push_str(&mut out, a0.as_str());
            },
            CanvasError::InvalidExternalToolPlacements(a0) => {
                push_str(&mut out, "invalid external tool placements: ");
                push_str(&mut out, a0.as_str());
            },
            CanvasError::InvalidExternalToolUpdate(a0) => {
                push_str(&mut out, "invalid external tool update: ");
                push_str(&mut out, a0.as_str());
            },
            CanvasError::InvalidCalendarEventTitle(a0) => {
                push_str(&mut out, "invalid calendar event title: ");
                push_str(&mut out, a0.as_str());
            },
            CanvasError::InvalidConferenceTitle(a0) => {
                push_str(&mut out, "invalid conference title: ");
                push_str(&mut out, a0.as_str());
            },
            CanvasError::InvalidCollaborationTitle(a0) => {
                push_str(&mut out, "invalid collaboration title: ");
                push_str(&mut out, a0.as_str());
            },
            CanvasError::InvalidCollaborationType(a0) => {
                push_str(&mut out, "invalid collaboration type: ");
                push_str(&mut out, a0.as_str());
            },
            CanvasError::InvalidCollaborators(a0) => {
                push_str(&mut out, "invalid collaborators: ");
                push_str(&mut out, a0.as_str());
            },
            CanvasError::InvalidConferenceDescription(a0) => {
                push_str(&mut out, "invalid conference description: ");
                push_str(&mut out, a0.as_str());
            },
            CanvasError::InvalidConferenceDuration(a0) => {
                push_str(&mut out, "invalid conference duration: ");
                push_str(&mut out, a0.as_str());
            },
            CanvasError::InvalidUserId(a0) => {
                push_str(&mut out, "invalid user id: ");
                push_str(&mut out, a0.as_str());
            },
            CanvasError::InvalidSubmissionId(a0) => {
                push_str(&mut out, "invalid submission id: ");
                push_str(&mut out, a0.as_str());
            },
            CanvasError::InvalidPageId(a0) => {
                push_str(&mut out, "invalid page id: ");
                push_str(&mut out, a0.as_str());
            },
            CanvasError::InvalidPageTitle(a0) => {
                push_str(&mut out, "invalid page title: ");
                push_str(&mut out, a0.as_str());
            },
            CanvasError::InvalidPageBody(a0) => {
                push_str(&mut out, "invalid page body: ");
                push_str(&mut out, a0.as_str());
            },
            CanvasError::InvalidModuleId(a0) => {
                push_str(&mut out, "invalid module id: ");
                push_str(&mut out, a0.as_str());
            },
            CanvasError::InvalidModuleItemId(a0) => {
                push_str(&mut out, "invalid module item id: ");
                push_str(&mut out, a0.as_str());
            },
            CanvasError::InvalidModuleName(a0) => {
                push_str(&mut out, "invalid module name: ");
                push_str(&mut out, a0.as_str());
            },
            CanvasError::InvalidModuleRequirementType(a0) => {
                push_str(&mut out, "invalid module requirement type: ");
                push_str(&mut out, a0.as_str());
            },
            CanvasError::InvalidModuleRequirement(a0) => {
                push_str(&mut out, "invalid module requirement: ");
                push_str(&mut out, a0.as_str());
            },
            CanvasError::InvalidModulePrerequisites(a0) => {
                push_str(&mut out, "invalid module prerequisites: ");
                push_str(&mut out, a0.as_str());
            },
            CanvasError::InvalidFileId(a0) => {
                push_str(&mut out, "invalid file id: ");
                push_str(&mut out, a0.as_str());
            },
            CanvasError::InvalidFolderId(a0) => {
                push_str(&mut out, "invalid folder id: ");
                push_str(&mut out, a0.as_str());
            },
            CanvasError::InvalidFolderName(a0) => {
                push_str(&mut out, "invalid folder name: ");
                push_str(&mut out, a0.as_str());
            },
            CanvasError::InvalidDiscussionId(a0) => {
                push_str(&mut out, "invalid discussion id: ");
                push_str(&mut out, a0.as_str());
            },
            CanvasError::InvalidGroupId(a0) => {
                push_str(&mut out, "invalid group id: ");
                push_str(&mut out, a0.as_str());
            },
            CanvasError::InvalidGroupName(a0) => {
                push_str(&mut out, "invalid group name: ");
                push_str(&mut out, a0.as_str());
            },
            CanvasError::InvalidUserRole(a0) => {
                push_str(&mut out, "invalid user role: ");
                push_str(&mut out, a0.as_str());
            },
            CanvasError::InvalidMessageSubject(a0) => {
                push_str(&mut out, "invalid message subject: ");
                push_str(&mut out, a0.as_str());
            },
            CanvasError::InvalidMessageBody(a0) => {
                push_str(&mut out, "invalid message body: ");
                push_str(&mut out, a0.as_str());
            },
            CanvasError::InvalidRecipients(a0) => {
                push_str(&mut out, "invalid recipients: ");
                push_str(&mut out, a0.as_str());
            },
            CanvasError::InvalidScore(a0) => {
                push_str(&mut out, "invalid score: ");
                push_str(&mut out, a0.as_str());
            },
            CanvasError::InvalidPointsPossible(a0) => {
                push_str(&mut out, "invalid points possible: ");
                push_str(&mut out, a0.as_str());
            },
            CanvasError::InvalidDueDate(a0) => {
                push_str(&mut out, "invalid due date: ");
                push_str(&mut out, a0.as_str());
            },
            CanvasError::InvalidEventDateTime(a0) => {
                push_str(&mut out, "invalid event timestamp: ");
                push_str(&mut out, a0.as_str());
            },
            CanvasError::InvalidAllDayDate(a0) => {
                push_str(&mut out, "invalid all-day date: ");
                push_str(&mut out, a0.as_str());
            },
            CanvasError::InvalidQuizTimeLimit(a0) => {
                push_str(&mut out, "invalid quiz time limit: ");
                push_str(&mut out, a0.as_str());
            },
            CanvasError::InvalidQuizAccessCode(a0) => {
                push_str(&mut out, "invalid quiz access code: ");
                push_str(&mut out, a0.as_str());
            },
            CanvasError::InvalidPublishState(a0) => {
                push_str(&mut out, "invalid publish state: ");
                push_str(&mut out, a0.as_str());
            },
            CanvasError::InvalidRubricSelection(a0) => {
                push_str(&mut out, "invalid rubric selection: ");
                push_str(&mut out, a0.as_str());
            },
            CanvasError::InvalidRubricAssessment(a0) => {
                push_str(&mut out, "invalid rubric assessment: ");
                push_str(&mut out, a0.as_str());
            },
            CanvasError::InvalidRubricCriteria(a0) => {
                push_str(&mut out, "invalid rubric criteria: ");
                push_str(&mut out, a0.as_str());
            },
            CanvasError::InvalidCourseVisibility(a0) => {
                push_str(&mut out, "invalid course visibility: ");
                push_str(&mut out, a0.as_str());
            },
            CanvasError::InvalidGradingSchemeId(a0) => {
                push_str(&mut out, "invalid grading scheme id: ");
                push_str(&mut out, a0.as_str());
            },
            CanvasError::InvalidContentMigrationId(a0) => {
                push_str(&mut out, "invalid content migration id: ");
                push_str(&mut out, a0.as_str());
            },
            CanvasError::InvalidContentMigrationType(a0) => {
                push_str(&mut out, "invalid content migration type: ");
                push_str(&mut out, a0.as_str());
            },
            CanvasError::InvalidContentMigrationCreate(a0) => {
                push_str(&mut out, "invalid content migration create: ");
                push_str(&mut out, a0.as_str());
            },
            CanvasError::InvalidReportType(a0) => {
                push_str(&mut out, "invalid report type: ");
                push_str(&mut out, a0.as_str());
            },
            CanvasError::InvalidCourseDates(a0) => {
                push_str(&mut out, "invalid course dates: ");
                push_str(&mut out, a0.as_str());
            },
            CanvasError::InvalidCourseUpdate(a0) => {
                push_str(&mut out, "invalid course update: ");
                push_str(&mut out, a0.as_str());
            },
            CanvasError::GradingPeriodNotFound(a0) => {
                push_str(&mut out, "grading period not found: ");
                push_decimal(&mut out, *a0);
            },
            CanvasError::InvalidAssignmentUpdate(a0) => {
                push_str(&mut out, "invalid assignment update: ");
                push_str(&mut out, a0.as_str());
            },
            CanvasError::InvalidOutcomeUpdate(a0) => {
                push_str(&mut out, "invalid outcome update: ");
                push_str(&mut out, a0.as_str());
            },
            CanvasError::InvalidQuizUpdate(a0) => {
                push_str(&mut out, "invalid quiz update: ");
                push_str(&mut out, a0.as_str());
            },
            CanvasError::InvalidPageUpdate(a0) => {
                push_str(&mut out, "invalid page update: ");
                push_str(&mut out, a0.as_str());
            },
            CanvasError::InvalidModuleUpdate(a0) => {
                push_str(&mut out, "invalid module update: ");
                push_str(&mut out, a0.as_str());
            },
            CanvasError::InvalidModuleRequirementUpdate(a0) => {
                push_str(&mut out, "invalid module requirement update: ");
                push_str(&mut out, a0.as_str());
            },
            CanvasError::InvalidModuleReorder(a0) => {
                push_str(&mut out, "invalid module reorder: ");
                push_str(&mut out, a0.as_str());
            },
            CanvasError::InvalidRubricUpdate(a0) => {
                push_str(&mut out, "invalid rubric update: ");
                push_str(&mut out, a0.as_str());
            },
            CanvasError::InvalidCalendarEventCreate(a0) => {
                push_str(&mut out, "invalid calendar event create: ");
                push_str(&mut out, a0.as_str());
            },
            CanvasError::InvalidCalendarEventUpdate(a0) => {
                push_str(&mut out, "invalid calendar event update: ");
                push_str(&mut out, a0.as_str());
            },
            CanvasError::InvalidCalendarEventContext(a0) => {
                push_str(&mut out, "invalid calendar event context: ");
                push_str(&mut out, a0.as_str());
            },
            CanvasError::InvalidConferenceUpdate(a0) => {
                push_str(&mut out, "invalid conference update: ");
                push_str(&mut out, a0.as_str());
            },
            CanvasError::InvalidRubricAssociationTarget(a0) => {
                push_str(&mut out, "invalid rubric association target: ");
                push_str(&mut out, a0.as_str());
            },
            CanvasError::MissingAssignmentPoints(a0) => {
                push_str(&mut out, "missing assignment points for assignment id ");
                push_decimal(&mut out, *a0);
            },
            CanvasError::MissingQuizPoints(a0) => {
                push_str(&mut out, "missing quiz points for quiz id ");
                push_decimal(&mut out, *a0);
            },
            CanvasError::InvalidQuizAvailability(a0) => {
                push_str(&mut out, "invalid quiz availability: ");
                push_str(&mut out, a0.as_str());
            },
            CanvasError::InvalidFileUpload(a0) => {
                push_str(&mut out, "invalid file upload: ");
                push_str(&mut out, a0.as_str());
            },
            CanvasError::ContentMigrationFailed(a0) => {
                push_str(&mut out, "content migration failed: ");
                push_str(&mut out, a0.as_str());
            },
            CanvasError::ContentMigrationTimeout(a0) => {
                push_str(&mut out, "content migration polling timed out: ");
                push_str(&mut out, a0.as_str());
            },
            CanvasError::ReportNotReady(a0) => {
                push_str(&mut out, "report not ready: ");
                push_str(&mut out, a0.as_str());
            },
            CanvasError::ReportDownloadFailed(a0) => {
                push_str(&mut out, "report download failed: ");
                push_str(&mut out, a0.as_str());
            },
            CanvasError::ReportTimeout(a0) => {
                push_str(&mut out, "report polling timed out: ");
                push_str(&mut out, a0.as_str());
            },
            CanvasError::InvalidHost(a0) => {
                push_str(&mut out, "invalid host: ");
                push_str(&mut out, a0.as_str());
            },
            CanvasError::InvalidToken => {
                push_str(&mut out, "invalid token");
            },
            CanvasError::MissingConfig(a0) => {
                push_str(&mut out, "missing configuration: ");
                push_str(&mut out, a0.as_str());
            },
            CanvasError::ConfigRead(a0, a1) => {
                push_str(&mut out, "failed to read config file at ");
                push_str(&mut out, a0.as_str());
                push_str(&mut out, ": ");
                push_str(&mut out, a1.as_str());
            },
            CanvasError::ConfigParse(a0, a1) => {
                push_str(&mut out, "failed to parse config file at ");
                push_str(&mut out, a0.as_str());
                push_str(&mut out, ": ");
                push_str(&mut out, a1.as_str());
            },
            CanvasError::ConfigWrite(a0, a1) => {
                push_str(&mut out, "failed to write config file at ");
                push_str(&mut out, a0.as_str());
                push_str(&mut out, ": ");
                push_str(&mut out, a1.as_str());
            },
            CanvasError::AuthCheckFailed(a0) => {
                push_str(&mut out, "auth check failed: ");
                push_str(&mut out, a0.as_str());
            },
            CanvasError::Http(a0) => {
                push_str(&mut out, "http error: ");
                push_str(&mut out, a0.as_str());
            },
            CanvasError::Api(e) => {
                push_str(&mut out, e.message());
            },
        }
        proof {
            assert(out@ =~= self.message_text());
        }
        out
    }
}

/// The errors of the command line: its own, and those of the library.
#[derive(Debug, Clone, PartialEq, Eq)]
pub enum CliError {
    MissingCommand,
    MissingCourseId,
    ConfirmationRequired(&'static str),
    AskExecutionUnsupported,
    FileRead(String, String),
    FileWrite(String, String),
    InvalidReportFormat(String),
    Canvas(CanvasError),
}

impl CliError {
    /// The stable machine-readable code of the error.
    pub open spec fn code_text(&self) -> Seq<char> {
        match self {
            CliError::MissingCommand => "missing_command"@,
            CliError::MissingCourseId => "missing_course_id"@,
            CliError::ConfirmationRequired(_) => "confirmation_required"@,
            CliError::AskExecutionUnsupported => "ask_execution_unsupported"@,
            CliError::FileRead(_, _) => "file_read"@,
            CliError::FileWrite(_, _) => "file_write"@,
            CliError::InvalidReportFormat(_) => "invalid_report_format"@,
            CliError::Canvas(e) => e.code_text(),
        }
    }

    /// The stable machine-readable code of the error.
    pub fn code(&self) -> (r: &'static str)
        ensures
            r@ == self.code_text(),
    {
        match self {
            CliError::MissingCommand => "missing_command",
            CliError::MissingCourseId => "missing_course_id",
            CliError::ConfirmationRequired(_) => "confirmation_required",
            CliError::AskExecutionUnsupported => "ask_execution_unsupported",
            CliError::FileRead(_, _) => "file_read",
            CliError::FileWrite(_, _) => "file_write",
            CliError::InvalidReportFormat(_) => "invalid_report_format",
            CliError::Canvas(e) => e.code(),
        }
    }

    /// The human-readable message of the error.
    pub open spec fn message_text(&self) -> Seq<char> {
        match self {
            CliError::MissingCommand => "missing command"@,
            CliError::MissingCourseId => "missing course id"@,
            CliError::ConfirmationRequired(a) => "confirmation required for "@ + a@,
            CliError::AskExecutionUnsupported => "unable to execute ask plan"@,
            CliError::FileRead(p, d) => "failed to read file at "@ + p@ + ": "@ + d@,
            CliError::FileWrite(p, d) => "failed to write file at "@ + p@ + ": "@ + d@,
            CliError::InvalidReportFormat(d) => "invalid report format: "@ + d@,
            CliError::Canvas(e) => e.message_text(),
        }
    }

    /// The human-readable message of the error.
    pub fn message(&self) -> (r: String)
        ensures
            r@ == self.message_text(),
    {
        let mut out = String::new();
        match self {
            CliError::MissingCommand => push_str(&mut out, "missing command"),
            CliError::MissingCourseId => push_str(&mut out, "missing course id"),
            CliError::ConfirmationRequired(a) => {
                push_str(&mut out, "confirmation required for ");
                push_str(&mut out, a);
            },
            CliError::AskExecutionUnsupported => push_str(&mut out, "unable to execute ask plan"),
            CliError::FileRead(p, d) => {
                push_str(&mut out, "failed to read file at ");
                push_str(&mut out, p.as_str());
                push_str(&mut out, ": ");
                push_str(&mut out, d.as_str());
            },
            CliError::FileWrite(p, d) => {
                push_str(&mut out, "failed to write file at ");
                push_str(&mut out, p.as_str());
                push_str(&mut out, ": ");
                push_str(&mut out, d.as_str());
            },
            CliError::InvalidReportFormat(d) => {
                push_str(&mut out, "invalid report format: ");
                push_str(&mut out, d.as_str());
            },
            CliError::Canvas(e) => {
                let m = e.message();
                push_str(&mut out, m.as_str());
            },
        }
        assert(out@ =~= self.message_text());
        out
    }
}

impl From<CanvasError> for CliError {
    fn from(e: CanvasError) -> Self {
        CliError::Canvas(e)
    }
}

impl vstd::std_specs::convert::FromSpecImpl<CanvasError> for CliError {
    open spec fn obeys_from_spec() -> bool {
        true
    }

    open spec fn from_spec(e: CanvasError) -> Self {
        CliError::Canvas(e)
    }
}

impl From<ApiError> for CanvasError {
    fn from(e: ApiError) -> Self {
        CanvasError::Api(e)
    }
}

impl vstd::std_specs::convert::FromSpecImpl<ApiError> for CanvasError {
    open spec fn obeys_from_spec() -> bool {
        true
    }

    open spec fn from_spec(e: ApiError) -> Self {
        CanvasError::Api(e)
    }
}

/// The stable code of each library error, as the command line reports it.
pub proof fn lemma_canvas_error_codes(e: CanvasError)
    ensures
        e is InvalidCourseId ==> e.code_text() == "invalid_course_id"@,
        e is InvalidGradingPeriodId ==> e.code_text() == "invalid_grading_period_id"@,
        e is InvalidAssignmentId ==> e.code_text() == "invalid_assignment_id"@,
        e is InvalidAssignmentName ==> e.code_text() == "invalid_assignment_name"@,
        e is InvalidGroupCategoryId ==> e.code_text() == "invalid_group_category_id"@,
        e is InvalidGroupAssignmentMode ==> e.code_text() == "invalid_group_assignment_mode"@,
        e is InvalidGroupAssignmentSettings ==> e.code_text() == "invalid_group_assignment_settings"@,
        e is InvalidPeerReviewMode ==> e.code_text() == "invalid_peer_review_mode"@,
        e is InvalidPeerReviewSettings ==> e.code_text() == "invalid_peer_review_settings"@,
        e is InvalidAssignmentOverrides ==> e.code_text() == "invalid_assignment_overrides"@,
        e is InvalidAssignmentOverrideTarget ==> e.code_text() == "invalid_assignment_override_target"@,
        e is InvalidAssignmentOverrideDates ==> e.code_text() == "invalid_assignment_override_dates"@,
        e is InvalidGradingPostingPolicy ==> e.code_text() == "invalid_grading_posting_policy"@,
        e is InvalidMutedState ==> e.code_text() == "invalid_muted_state"@,
        e is InvalidOutcomeId ==> e.code_text() == "invalid_outcome_id"@,
        e is InvalidOutcomeGroupId ==> e.code_text() == "invalid_outcome_group_id"@,
        e is InvalidOutcomeTitle ==> e.code_text() == "invalid_outcome_title"@,
        e is InvalidOutcomeDescription ==> e.code_text() == "invalid_outcome_description"@,
        e is InvalidRubricId ==> e.code_text() == "invalid_rubric_id"@,
        e is InvalidRubricAssociationId ==> e.code_text() == "invalid_rubric_association_id"@,
        e is InvalidRubricTitle ==> e.code_text() == "invalid_rubric_title"@,
        e is InvalidQuizId ==> e.code_text() == "invalid_quiz_id"@,
        e is InvalidQuizSubmissionId ==> e.code_text() == "invalid_quiz_submission_id"@,
        e is InvalidQuizTitle ==> e.code_text() == "invalid_quiz_title"@,
        e is InvalidQuestionBankId ==> e.code_text() == "invalid_question_bank_id"@,
        e is InvalidQuestionId ==> e.code_text() == "invalid_question_id"@,
        e is InvalidQuestionBankTitle ==> e.code_text() == "invalid_question_bank_title"@,
        e is InvalidQuestionName ==> e.code_text() == "invalid_question_name"@,
        e is InvalidQuestionText ==> e.code_text() == "invalid_question_text"@,
        e is InvalidQuestionType ==> e.code_text() == "invalid_question_type"@,
        e is InvalidQuestionBankUpdate ==> e.code_text() == "invalid_question_bank_update"@,
        e is InvalidQuestionUpdate ==> e.code_text() == "invalid_question_update"@,
        e is InvalidQuestionBankJson ==> e.code_text() == "invalid_question_bank_json"@,
        e is InvalidQuestionJson ==> e.code_text() == "invalid_question_json"@,
        e is InvalidCalendarEventId ==> e.code_text() == "invalid_calendar_event_id"@,
        e is InvalidConferenceId ==> e.code_text() == "invalid_conference_id"@,
        e is InvalidCollaborationId ==> e.code_text() == "invalid_collaboration_id"@,
        e is InvalidSectionId ==> e.code_text() == "invalid_section_id"@,
        e is InvalidSectionName ==> e.code_text() == "invalid_section_name"@,
        e is InvalidEnrollmentId ==> e.code_text() == "invalid_enrollment_id"@,
        e is InvalidSectionUpdate ==> e.code_text() == "invalid_section_update"@,
        e is InvalidExternalToolId ==> e.code_text() == "invalid_external_tool_id"@,
        e is InvalidExternalToolName ==> e.code_text() == "invalid_external_tool_name"@,
        e is InvalidExternalToolConfig ==> e.code_text() == "invalid_external_tool_config"@,
        e is InvalidExternalToolPlacement ==> e.code_text() == "invalid_external_tool_placement"@,
        e is InvalidExternalToolPlacements ==> e.code_text() == "invalid_external_tool_placements"@,
        e is InvalidExternalToolUpdate ==> e.code_text() == "invalid_external_tool_update"@,
        e is InvalidCalendarEventTitle ==> e.code_text() == "invalid_calendar_event_title"@,
        e is InvalidConferenceTitle ==> e.code_text() == "invalid_conference_title"@,
        e is InvalidCollaborationTitle ==> e.code_text() == "invalid_collaboration_title"@,
        e is InvalidCollaborationType ==> e.code_text() == "invalid_collaboration_type"@,
        e is InvalidCollaborators ==> e.code_text() == "invalid_collaborators"@,
        e is InvalidConferenceDescription ==> e.code_text() == "invalid_conference_description"@,
        e is InvalidConferenceDuration ==> e.code_text() == "invalid_conference_duration"@,
        e is InvalidUserId ==> e.code_text() == "invalid_user_id"@,
        e is InvalidSubmissionId ==> e.code_text() == "invalid_submission_id"@,
        e is InvalidPageId ==> e.code_text() == "invalid_page_id"@,
        e is InvalidPageTitle ==> e.code_text() == "invalid_page_title"@,
        e is InvalidPageBody ==> e.code_text() == "invalid_page_body"@,
        e is InvalidModuleId ==> e.code_text() == "invalid_module_id"@,
        e is InvalidModuleItemId ==> e.code_text() == "invalid_module_item_id"@,
        e is InvalidModuleName ==> e.code_text() == "invalid_module_name"@,
        e is InvalidModuleRequirementType ==> e.code_text() == "invalid_module_requirement_type"@,
        e is InvalidModuleRequirement ==> e.code_text() == "invalid_module_requirement"@,
        e is InvalidModulePrerequisites ==> e.code_text() == "invalid_module_prerequisites"@,
        e is InvalidFileId ==> e.code_text() == "invalid_file_id"@,
        e is InvalidFolderId ==> e.code_text() == "invalid_folder_id"@,
        e is InvalidFolderName ==> e.code_text() == "invalid_folder_name"@,
        e is InvalidDiscussionId ==> e.code_text() == "invalid_discussion_id"@,
        e is InvalidGroupId ==> e.code_text() == "invalid_group_id"@,
        e is InvalidGroupName ==> e.code_text() == "invalid_group_name"@,
        e is InvalidUserRole ==> e.code_text() == "invalid_user_role"@,
        e is InvalidMessageSubject ==> e.code_text() == "invalid_message_subject"@,
        e is InvalidMessageBody ==> e.code_text() == "invalid_message_body"@,
        e is InvalidRecipients ==> e.code_text() == "invalid_recipients"@,
        e is InvalidScore ==> e.code_text() == "invalid_score"@,
        e is InvalidPointsPossible ==> e.code_text() == "invalid_points_possible"@,
        e is InvalidDueDate ==> e.code_text() == "invalid_due_date"@,
        e is InvalidEventDateTime ==> e.code_text() == "invalid_event_date_time"@,
        e is InvalidAllDayDate ==> e.code_text() == "invalid_all_day_date"@,
        e is InvalidQuizTimeLimit ==> e.code_text() == "invalid_quiz_time_limit"@,
        e is InvalidQuizAccessCode ==> e.code_text() == "invalid_quiz_access_code"@,
        e is InvalidPublishState ==> e.code_text() == "invalid_publish_state"@,
        e is InvalidRubricSelection ==> e.code_text() == "invalid_rubric_selection"@,
        e is InvalidRubricAssessment ==> e.code_text() == "invalid_rubric_assessment"@,
        e is InvalidRubricCriteria ==> e.code_text() == "invalid_rubric_criteria"@,
        e is InvalidCourseVisibility ==> e.code_text() == "invalid_course_visibility"@,
        e is InvalidGradingSchemeId ==> e.code_text() == "invalid_grading_scheme_id"@,
        e is InvalidContentMigrationId ==> e.code_text() == "invalid_content_migration_id"@,
        e is InvalidContentMigrationType ==> e.code_text() == "invalid_content_migration_type"@,
        e is InvalidContentMigrationCreate ==> e.code_text() == "invalid_content_migration_create"@,
        e is InvalidReportType ==> e.code_text() == "invalid_report_type"@,
        e is InvalidCourseDates ==> e.code_text() == "invalid_course_dates"@,
        e is InvalidCourseUpdate ==> e.code_text() == "invalid_course_update"@,
        e is GradingPeriodNotFound ==> e.code_text() == "grading_period_not_found"@,
        e is InvalidAssignmentUpdate ==> e.code_text() == "invalid_assignment_update"@,
        e is InvalidOutcomeUpdate ==> e.code_text() == "invalid_outcome_update"@,
        e is InvalidQuizUpdate ==> e.code_text() == "invalid_quiz_update"@,
        e is InvalidPageUpdate ==> e.code_text() == "invalid_page_update"@,
        e is InvalidModuleUpdate ==> e.code_text() == "invalid_module_update"@,
        e is InvalidModuleRequirementUpdate ==> e.code_text() == "invalid_module_requirement_update"@,
        e is InvalidModuleReorder ==> e.code_text() == "invalid_module_reorder"@,
        e is InvalidRubricUpdate ==> e.code_text() == "invalid_rubric_update"@,
        e is InvalidCalendarEventCreate ==> e.code_text() == "invalid_calendar_event_create"@,
        e is InvalidCalendarEventUpdate ==> e.code_text() == "invalid_calendar_event_update"@,
        e is InvalidCalendarEventContext ==> e.code_text() == "invalid_calendar_event_context"@,
        e is InvalidConferenceUpdate ==> e.code_text() == "invalid_conference_update"@,
        e is InvalidRubricAssociationTarget ==> e.code_text() == "invalid_rubric_association_target"@,
        e is MissingAssignmentPoints ==> e.code_text() == "missing_assignment_points"@,
        e is MissingQuizPoints ==> e.code_text() == "missing_quiz_points"@,
        e is InvalidQuizAvailability ==> e.code_text() == "invalid_quiz_availability"@,
        e is InvalidFileUpload ==> e.code_text() == "invalid_file_upload"@,
        e is ContentMigrationFailed ==> e.code_text() == "content_migration_failed"@,
        e is ContentMigrationTimeout ==> e.code_text() == "content_migration_timeout"@,
        e is ReportNotReady ==> e.code_text() == "report_not_ready"@,
        e is ReportDownloadFailed ==> e.code_text() == "report_download_failed"@,
        e is ReportTimeout ==> e.code_text() == "report_timeout"@,
        e is InvalidHost ==> e.code_text() == "invalid_host"@,
        e is InvalidToken ==> e.code_text() == "invalid_token"@,
        e is MissingConfig ==> e.code_text() == "missing_config"@,
        e is ConfigRead ==> e.code_text() == "config_read"@,
        e is ConfigParse ==> e.code_text() == "config_parse"@,
        e is ConfigWrite ==> e.code_text() == "config_write"@,
        e is AuthCheckFailed ==> e.code_text() == "auth_check_failed"@,
        e is Http ==> e.code_text() == "http_error"@,
{
}

/// The stable code of each command line error; a library error keeps its
/// own code.
pub proof fn lemma_cli_error_codes(e: CliError)
    ensures
        e is MissingCommand ==> e.code_text() == "missing_command"@,
        e is MissingCourseId ==> e.code_text() == "missing_course_id"@,
        e is ConfirmationRequired ==> e.code_text() == "confirmation_required"@,
        e is AskExecutionUnsupported ==> e.code_text() == "ask_execution_unsupported"@,
        e is FileRead ==> e.code_text() == "file_read"@,
        e is FileWrite ==> e.code_text() == "file_write"@,
        e is InvalidReportFormat ==> e.code_text() == "invalid_report_format"@,
        e matches CliError::Canvas(c) ==> e.code_text() == c.code_text(),
{
}

} // verus!
