use canvas_core::dates::{AllDayDate, DueDate, EventDateTime};
use canvas_core::hosts::{CanvasHost, CanvasToken, ExternalToolConfigUrl};
use canvas_core::ids::{
    AssignmentId, CalendarEventId, CourseId, DiscussionId, ExternalToolId, FileId, FolderId,
    GradingSchemeId, GroupId, ModuleId, OutcomeGroupId, OutcomeId, QuestionBankId, QuestionId,
    RubricAssociationId, RubricId, SectionId, SubmissionId, UserId,
};
use canvas_core::kinds::{
    CollaborationType, CourseVisibility, PublishState, QuestionType, ReportType, RubricSelection, UserRole,
};
use canvas_core::names::{
    AssignmentName, CalendarEventTitle, ExternalToolName, ExternalToolPlacement, FolderName,
    GroupName, MessageBody, MessageSubject, ModuleName, OutcomeDescription, OutcomeTitle, PageBody,
    PageId, PageTitle, QuestionBankTitle, QuestionName, QuestionText, RubricTitle,
};
use canvas_core::windows::{availability_fields, CourseDates, QuizAvailability, RecipientIds};

#[test]
fn course_id_parses_positive_integers() {
    let parsed: Result<CourseId, _> = "42".parse();
    assert!(matches!(parsed, Ok(value) if value.get() == 42));
}

#[test]
fn course_id_rejects_zero() {
    let parsed: Result<CourseId, _> = "0".parse();
    assert!(parsed.is_err());
}

#[test]
fn course_id_rejects_non_numbers() {
    let parsed: Result<CourseId, _> = "abc".parse();
    assert!(parsed.is_err());
}

#[test]
fn assignment_id_rejects_zero() {
    let parsed: Result<AssignmentId, _> = "0".parse();
    assert!(parsed.is_err());
}

#[test]
fn assignment_name_rejects_empty() {
    let parsed: Result<AssignmentName, _> = "   ".parse();
    assert!(parsed.is_err());
}

#[test]
fn assignment_name_accepts_trimmed() {
    let parsed: Result<AssignmentName, _> = "  Quiz 1  ".parse();
    assert!(matches!(parsed, Ok(value) if value.as_str() == "Quiz 1"));
}

#[test]
fn outcome_id_rejects_zero() {
    let parsed: Result<OutcomeId, _> = "0".parse();
    assert!(parsed.is_err());
}

#[test]
fn outcome_group_id_rejects_zero() {
    let parsed: Result<OutcomeGroupId, _> = "0".parse();
    assert!(parsed.is_err());
}

#[test]
fn rubric_id_rejects_zero() {
    let parsed: Result<RubricId, _> = "0".parse();
    assert!(parsed.is_err());
}

#[test]
fn rubric_association_id_rejects_zero() {
    let parsed: Result<RubricAssociationId, _> = "0".parse();
    assert!(parsed.is_err());
}

#[test]
fn outcome_title_rejects_empty() {
    let parsed: Result<OutcomeTitle, _> = "   ".parse();
    assert!(parsed.is_err());
}

#[test]
fn outcome_description_rejects_empty() {
    let parsed: Result<OutcomeDescription, _> = "".parse();
    assert!(parsed.is_err());
}

#[test]
fn rubric_title_rejects_empty() {
    let parsed: Result<RubricTitle, _> = "  ".parse();
    assert!(parsed.is_err());
}

#[test]
fn calendar_event_id_rejects_zero() {
    let parsed: Result<CalendarEventId, _> = "0".parse();
    assert!(parsed.is_err());
}

#[test]
fn section_id_rejects_zero() {
    let parsed: Result<SectionId, _> = "0".parse();
    assert!(parsed.is_err());
}

#[test]
fn external_tool_id_rejects_zero() {
    let parsed: Result<ExternalToolId, _> = "0".parse();
    assert!(parsed.is_err());
}

#[test]
fn external_tool_name_rejects_empty() {
    let parsed: Result<ExternalToolName, _> = "  ".parse();
    assert!(parsed.is_err());
}

#[test]
fn external_tool_config_url_requires_http() {
    let parsed: Result<ExternalToolConfigUrl, _> = "ftp://example.com".parse();
    assert!(parsed.is_err());
}

#[test]
fn external_tool_placement_rejects_empty() {
    let parsed: Result<ExternalToolPlacement, _> = "".parse();
    assert!(parsed.is_err());
}

#[test]
fn calendar_event_title_rejects_empty() {
    let parsed: Result<CalendarEventTitle, _> = "   ".parse();
    assert!(parsed.is_err());
}

#[test]
fn question_bank_id_rejects_zero() {
    let parsed: Result<QuestionBankId, _> = "0".parse();
    assert!(parsed.is_err());
}

#[test]
fn question_id_rejects_non_numbers() {
    let parsed: Result<QuestionId, _> = "abc".parse();
    assert!(parsed.is_err());
}

#[test]
fn question_bank_title_rejects_empty() {
    let parsed: Result<QuestionBankTitle, _> = "   ".parse();
    assert!(parsed.is_err());
}

#[test]
fn question_name_rejects_empty() {
    let parsed: Result<QuestionName, _> = " ".parse();
    assert!(parsed.is_err());
}

#[test]
fn question_text_rejects_empty() {
    let parsed: Result<QuestionText, _> = "".parse();
    assert!(parsed.is_err());
}

#[test]
fn question_type_accepts_mcq_alias() {
    let parsed: Result<QuestionType, _> = "mcq".parse();
    assert!(matches!(parsed, Ok(kind) if kind == QuestionType::MultipleChoice));
}

#[test]
fn question_type_rejects_unknown() {
    let parsed: Result<QuestionType, _> = "unknown".parse();
    assert!(parsed.is_err());
}

#[test]
fn event_date_time_parses_rfc3339() {
    let parsed: Result<EventDateTime, _> = "2025-01-01T12:00:00Z".parse();
    assert!(parsed.is_ok());
}

#[test]
fn all_day_date_parses_iso8601() {
    let parsed: Result<AllDayDate, _> = "2025-01-01".parse();
    assert!(parsed.is_ok());
}

#[test]
fn user_id_rejects_non_numbers() {
    let parsed: Result<UserId, _> = "abc".parse();
    assert!(parsed.is_err());
}

#[test]
fn user_id_try_from_accepts_positive() {
    let parsed = UserId::try_from(4_u64);
    assert!(matches!(parsed, Ok(value) if value.get() == 4));
}

#[test]
fn submission_id_parses_positive_integers() {
    let parsed: Result<SubmissionId, _> = "11".parse();
    assert!(matches!(parsed, Ok(value) if value.get() == 11));
}

#[test]
fn due_date_parses_rfc3339() {
    let parsed: Result<DueDate, _> = "2025-01-01T12:00:00Z".parse();
    assert!(parsed.is_ok());
}

#[test]
fn due_date_rejects_invalid_format() {
    let parsed: Result<DueDate, _> = "01/01/2025".parse();
    assert!(parsed.is_err());
}

#[test]
fn publish_state_parses_known_values() {
    let parsed: Result<PublishState, _> = "published".parse();
    assert!(matches!(parsed, Ok(PublishState::Published)));
}

#[test]
fn rubric_selection_parses_known_values() {
    let parsed: Result<RubricSelection, _> = "rubric".parse();
    assert!(matches!(parsed, Ok(RubricSelection::Rubric)));
}

#[test]
fn course_visibility_parses_values() {
    let parsed: Result<CourseVisibility, _> = "institution".parse();
    assert!(matches!(parsed, Ok(CourseVisibility::Institution)));
}

#[test]
fn report_type_parses_gradebook() {
    let parsed: Result<ReportType, _> = "grade_export".parse();
    assert!(matches!(parsed, Ok(ReportType::GradebookExport)));
}

#[test]
fn report_type_parses_missing_submissions() {
    let parsed: Result<ReportType, _> = "missing_submissions".parse();
    assert!(matches!(parsed, Ok(ReportType::MissingSubmissions)));
}

#[test]
fn report_type_rejects_unknown() {
    let parsed: Result<ReportType, _> = "unknown_report".parse();
    assert!(parsed.is_err());
}

#[test]
fn grading_scheme_id_rejects_zero() {
    let parsed: Result<GradingSchemeId, _> = "0".parse();
    assert!(parsed.is_err());
}

#[test]
fn course_dates_rejects_reverse_order() {
    let start: DueDate = "2025-01-02T00:00:00Z".parse().expect("start");
    let end: DueDate = "2025-01-01T00:00:00Z".parse().expect("end");
    let dates = CourseDates::new(Some(start), Some(end));
    assert!(dates.is_err());
}

#[test]
fn canvas_host_accepts_http_urls() {
    let host: Result<CanvasHost, _> = "https://example.instructure.com".parse();
    assert!(matches!(host, Ok(host) if host.as_str() == "https://example.instructure.com"));
}

#[test]
fn canvas_host_rejects_missing_scheme() {
    let parsed: Result<CanvasHost, _> = "example.instructure.com".parse();
    assert!(parsed.is_err());
}

#[test]
fn canvas_token_rejects_whitespace() {
    let parsed: Result<CanvasToken, _> = "tok en".parse();
    assert!(parsed.is_err());
}

#[test]
fn canvas_token_accepts_non_empty() {
    let token: Result<CanvasToken, _> = "token123".parse();
    assert!(matches!(token, Ok(token) if token.as_str() == "token123"));
}

#[test]
fn page_id_rejects_empty() {
    let parsed: Result<PageId, _> = " ".parse();
    assert!(parsed.is_err());
}

#[test]
fn page_title_rejects_empty() {
    let parsed: Result<PageTitle, _> = "".parse();
    assert!(parsed.is_err());
}

#[test]
fn page_body_rejects_empty() {
    let parsed: Result<PageBody, _> = "   ".parse();
    assert!(parsed.is_err());
}

#[test]
fn module_id_rejects_zero() {
    let parsed: Result<ModuleId, _> = "0".parse();
    assert!(parsed.is_err());
}

#[test]
fn module_name_rejects_empty() {
    let parsed: Result<ModuleName, _> = "  ".parse();
    assert!(parsed.is_err());
}

#[test]
fn file_id_rejects_zero() {
    let parsed: Result<FileId, _> = "0".parse();
    assert!(parsed.is_err());
}

#[test]
fn folder_id_rejects_zero() {
    let parsed: Result<FolderId, _> = "0".parse();
    assert!(parsed.is_err());
}

#[test]
fn folder_name_rejects_empty() {
    let parsed: Result<FolderName, _> = " ".parse();
    assert!(parsed.is_err());
}

#[test]
fn discussion_id_rejects_zero() {
    let parsed: Result<DiscussionId, _> = "0".parse();
    assert!(parsed.is_err());
}

#[test]
fn user_role_parses_known_values() {
    let parsed: Result<UserRole, _> = "ta".parse();
    assert!(matches!(parsed, Ok(UserRole::Ta)));
}

#[test]
fn message_subject_rejects_empty() {
    let parsed: Result<MessageSubject, _> = "  ".parse();
    assert!(parsed.is_err());
}

#[test]
fn message_body_rejects_empty() {
    let parsed: Result<MessageBody, _> = "".parse();
    assert!(parsed.is_err());
}

#[test]
fn recipient_ids_require_non_empty() {
    let result = RecipientIds::new(Vec::new());
    assert!(result.is_err());
}

#[test]
fn group_id_rejects_zero() {
    let parsed: Result<GroupId, _> = "0".parse();
    assert!(parsed.is_err());
}

#[test]
fn group_name_rejects_empty() {
    let parsed: Result<GroupName, _> = " ".parse();
    assert!(parsed.is_err());
}

#[test]
fn availability_fields_give_the_sent_texts() {
    let unlock: DueDate = "2025-01-01T00:00:00Z".parse().expect("unlock");
    let lock: DueDate = "2025-01-03T10:00:00Z".parse().expect("lock");
    let window = QuizAvailability::new(Some(unlock), None, Some(lock)).expect("window");
    let (u, d, l) = availability_fields(Some(&window));
    assert_eq!(u, Some("2025-01-01T00:00:00Z".to_string()));
    assert_eq!(d, None);
    assert_eq!(l, Some("2025-01-03T10:00:00Z".to_string()));
    assert_eq!(availability_fields(None), (None, None, None));
}

#[test]
fn collaboration_type_reads_keywords() {
    assert_eq!(" Google_Docs ".parse::<CollaborationType>().ok(), Some(CollaborationType::GoogleDocs));
    assert_eq!("OFFICE365".parse::<CollaborationType>().ok(), Some(CollaborationType::Office365));
    assert_eq!(CollaborationType::Office365.as_str(), "office365");
    assert!(matches!(
        canvas_core::parse::parse_collaboration_type("etherpad"),
        Err(canvas_core::errors::CanvasError::InvalidCollaborationType(s)) if s == "etherpad"
    ));
}
