use canvas_core::cli::{
    external_tool_config_from_file, external_tool_config_source, ExternalToolConfig,
    ToolConfigSource, parse_group_assignment_settings_input, parse_peer_review_settings_input,
    content_migration_request, ContentMigrationCommand,
    ContentMigrationRequest,
    parse_calendar_timing_for_create, parse_calendar_timing_for_update, course_for, enrollment_request,
    require_confirmation, section_request, CalendarEventTiming, EnrollmentCommand,
    EnrollmentRequest, GlobalOptions, SectionCommand, SectionRequest,
};
use canvas_core::details::{error_details, ErrorDetails};
use canvas_core::errors::{ApiError, CanvasError, CliError};
use canvas_core::ids::CourseId;
use canvas_core::kinds::{PeerReviewMode, UserRole};
use canvas_core::windows::GroupAssignmentSettings;
use canvas_core::migrations::ContentMigrationCreateInput;

fn global(course: Option<u64>, confirm: bool) -> GlobalOptions {
    let course = course.map(|c| CourseId::parse(&c.to_string()).expect("course"));
    GlobalOptions { course, json: false, quiet: false, confirm, explain: false }
}

#[test]
fn global_options_parse_course() {
    let g = GlobalOptions::from_args(Some("12".to_string()), true, false, true, false)
        .expect("options");
    assert_eq!(g.course.expect("course").get(), 12);
    assert!(g.json && g.confirm && !g.quiet && !g.explain);
    let err = GlobalOptions::from_args(Some("x".to_string()), false, false, false, false);
    assert!(matches!(err, Err(CliError::Canvas(CanvasError::InvalidCourseId(s))) if s == "x"));
}

#[test]
fn confirmation_is_required_for_destructive_actions() {
    assert!(require_confirmation(&global(None, true), "course delete").is_ok());
    assert_eq!(
        require_confirmation(&global(None, false), "course delete"),
        Err(CliError::ConfirmationRequired("course delete"))
    );
}

#[test]
fn course_comes_from_the_command_then_the_default() {
    assert_eq!(course_for(Some("5".to_string()), &global(Some(9), false)).expect("c").get(), 5);
    assert_eq!(course_for(None, &global(Some(9), false)).expect("c").get(), 9);
    assert_eq!(course_for(None, &global(None, false)), Err(CliError::MissingCourseId));
    assert!(matches!(
        course_for(Some("0".to_string()), &global(Some(9), false)),
        Err(CliError::Canvas(CanvasError::InvalidCourseId(s))) if s == "0"
    ));
}

#[test]
fn section_commands_become_requests() {
    let g = global(Some(3), false);
    match section_request(SectionCommand::List { course: None }, &g) {
        Ok(SectionRequest::List { course_id }) => assert_eq!(course_id.get(), 3),
        _ => panic!("expected list"),
    }
    match section_request(
        SectionCommand::Create { course: Some("4".to_string()), name: "  A  ".to_string() },
        &g,
    ) {
        Ok(SectionRequest::Create { course_id, input }) => {
            assert_eq!(course_id.get(), 4);
            assert_eq!(input.name.as_str(), "A");
        }
        _ => panic!("expected create"),
    }
    assert!(matches!(
        section_request(SectionCommand::Update { section: "8".to_string(), name: None }, &g),
        Err(CliError::Canvas(CanvasError::InvalidSectionUpdate(s))) if s == "no_fields"
    ));
    assert!(matches!(
        section_request(SectionCommand::Delete { section: "-1".to_string() }, &g),
        Err(CliError::Canvas(CanvasError::InvalidSectionId(s))) if s == "-1"
    ));
    assert!(matches!(
        section_request(SectionCommand::List { course: None }, &global(None, false)),
        Err(CliError::MissingCourseId)
    ));
}

#[test]
fn enrollment_commands_become_requests() {
    let add = EnrollmentCommand::Add {
        section: "2".to_string(),
        user: "5".to_string(),
        role: "TA".to_string(),
        limit_to_section: true,
    };
    match enrollment_request(add) {
        Ok(EnrollmentRequest::Add { section_id, input }) => {
            assert_eq!(section_id.get(), 2);
            assert_eq!(input.user_id.get(), 5);
            assert_eq!(input.role, UserRole::Ta);
            assert!(input.limit_privileges_to_section);
        }
        _ => panic!("expected add"),
    }
    assert!(matches!(
        enrollment_request(EnrollmentCommand::List {
            section: "2".to_string(),
            role: Some("dean".to_string()),
        }),
        Err(CliError::Canvas(CanvasError::InvalidUserRole(s))) if s == "dean"
    ));
    assert!(matches!(
        enrollment_request(EnrollmentCommand::Remove {
            section: "2".to_string(),
            enrollment: "zero".to_string(),
        }),
        Err(CliError::Canvas(CanvasError::InvalidEnrollmentId(s))) if s == "zero"
    ));
}

#[test]
fn calendar_timing_rules() {
    let day = parse_calendar_timing_for_create(None, None, Some("2025-03-01".to_string()));
    assert!(matches!(day, Ok(CalendarEventTiming::AllDay(_))));
    let timed = parse_calendar_timing_for_create(
        Some("2025-03-01T09:00:00Z".to_string()),
        Some("2025-03-01T10:00:00Z".to_string()),
        None,
    );
    assert!(matches!(timed, Ok(CalendarEventTiming::Timed { end_at: Some(_), .. })));
    assert!(matches!(
        parse_calendar_timing_for_create(
            Some("2025-03-01T09:00:00Z".to_string()),
            None,
            Some("2025-03-01".to_string()),
        ),
        Err(CliError::Canvas(CanvasError::InvalidCalendarEventCreate(s))) if s == "conflicting_timing"
    ));
    assert!(matches!(
        parse_calendar_timing_for_create(None, Some("2025-03-01T10:00:00Z".to_string()), None),
        Err(CliError::Canvas(CanvasError::InvalidCalendarEventCreate(s))) if s == "missing_start"
    ));
    assert!(matches!(parse_calendar_timing_for_update(None, None, None), Ok(None)));
    assert!(matches!(
        parse_calendar_timing_for_update(None, Some("2025-03-01T10:00:00Z".to_string()), None),
        Err(CliError::Canvas(CanvasError::InvalidCalendarEventUpdate(s))) if s == "missing_start"
    ));
    assert!(matches!(
        parse_calendar_timing_for_update(Some("noon".to_string()), None, None),
        Err(CliError::Canvas(CanvasError::InvalidEventDateTime(s))) if s == "noon"
    ));
}

#[test]
fn error_details_name_what_went_wrong() {
    assert_eq!(
        error_details(&CliError::MissingCourseId),
        ErrorDetails::Field("course")
    );
    assert_eq!(
        error_details(&CliError::ConfirmationRequired("course delete")),
        ErrorDetails::Action("course delete")
    );
    assert_eq!(
        error_details(&CliError::Canvas(CanvasError::InvalidCourseId("abc".to_string()))),
        ErrorDetails::Input("abc".to_string())
    );
    assert_eq!(
        error_details(&CliError::Canvas(CanvasError::MissingQuizPoints(7))),
        ErrorDetails::QuizId(7)
    );
    assert_eq!(error_details(&CliError::MissingCommand), ErrorDetails::NoDetails);
    let api = ApiError::from_status(404, "  ".to_string(), Some("req-1".to_string()));
    assert_eq!(
        error_details(&CliError::Canvas(CanvasError::Api(api))),
        ErrorDetails::Api {
            status: Some(404),
            request_id: Some("req-1".to_string()),
            body: None,
        }
    );
}

#[test]
fn content_migration_commands_become_requests() {
    let g = global(Some(1), false);
    let create = ContentMigrationCommand::Create {
        course: None,
        migration_type: "course_copy".to_string(),
        source_course: Some("77".to_string()),
        file: None,
        wait: true,
    };
    match content_migration_request(create, &g) {
        Ok(ContentMigrationRequest::Create { course_id, input, wait }) => {
            assert_eq!(course_id.get(), 1);
            assert!(wait);
            match input {
                ContentMigrationCreateInput::CourseCopy { source_course_id } => {
                    assert_eq!(source_course_id.get(), 77)
                }
                ContentMigrationCreateInput::FileImport { .. } => panic!("expected copy"),
            }
        }
        _ => panic!("expected create"),
    }
    let missing = ContentMigrationCommand::Create {
        course: None,
        migration_type: "file_import".to_string(),
        source_course: None,
        file: None,
        wait: false,
    };
    assert!(matches!(
        content_migration_request(missing, &g),
        Err(CliError::Canvas(CanvasError::InvalidContentMigrationCreate(s))) if s == "missing_file"
    ));
    let unknown = ContentMigrationCommand::Create {
        course: None,
        migration_type: "scorm".to_string(),
        source_course: None,
        file: None,
        wait: false,
    };
    assert!(matches!(
        content_migration_request(unknown, &g),
        Err(CliError::Canvas(CanvasError::InvalidContentMigrationType(s))) if s == "scorm"
    ));
    let show = ContentMigrationCommand::Show { course: Some("3".to_string()), migration: "9".to_string(), wait: false };
    match content_migration_request(show, &g) {
        Ok(ContentMigrationRequest::Show { course_id, migration_id, wait }) => {
            assert_eq!(course_id.get(), 3);
            assert_eq!(migration_id.get(), 9);
            assert!(!wait);
        }
        _ => panic!("expected show"),
    }
}

#[test]
fn peer_review_options_need_a_mode() {
    assert!(matches!(parse_peer_review_settings_input(None, None, None), Ok(None)));
    assert!(matches!(
        parse_peer_review_settings_input(None, Some("2025-01-01T00:00:00Z".to_string()), None),
        Err(CliError::Canvas(CanvasError::InvalidPeerReviewSettings(s))) if s == "missing_mode"
    ));
    assert!(matches!(
        parse_peer_review_settings_input(Some("sometimes".to_string()), None, None),
        Err(CliError::Canvas(CanvasError::InvalidPeerReviewMode(s))) if s == "sometimes"
    ));
    let settings = parse_peer_review_settings_input(
        Some("automatic".to_string()),
        Some("2025-01-01T00:00:00Z".to_string()),
        Some("2025-01-02T00:00:00Z".to_string()),
    )
    .expect("settings")
    .expect("some");
    assert_eq!(settings.mode(), PeerReviewMode::Automatic);
    assert!(matches!(
        parse_peer_review_settings_input(Some("manual".to_string()), Some("2025-01-01T00:00:00Z".to_string()), None),
        Err(CliError::Canvas(CanvasError::InvalidPeerReviewSettings(s))) if s == "invalid"
    ));
}

#[test]
fn group_options_need_a_mode() {
    assert!(matches!(parse_group_assignment_settings_input(None, None), Ok(None)));
    assert!(matches!(
        parse_group_assignment_settings_input(None, Some("4".to_string())),
        Err(CliError::Canvas(CanvasError::InvalidGroupAssignmentSettings(s))) if s == "missing_mode"
    ));
    match parse_group_assignment_settings_input(Some("group".to_string()), Some("4".to_string())) {
        Ok(Some(GroupAssignmentSettings::Group { category_id })) => assert_eq!(category_id.get(), 4),
        _ => panic!("expected group settings"),
    }
    assert!(matches!(
        parse_group_assignment_settings_input(Some("individual".to_string()), Some("4".to_string())),
        Err(CliError::Canvas(CanvasError::InvalidGroupAssignmentSettings(s))) if s == "invalid"
    ));
}

#[test]
fn tool_configuration_comes_from_one_source() {
    assert_eq!(
        external_tool_config_source(Some("https://t.example".to_string()), None, None, None, true),
        Ok(Some(ToolConfigSource::Url("https://t.example".to_string())))
    );
    assert_eq!(external_tool_config_source(None, None, None, None, false), Ok(None));
    assert!(matches!(
        external_tool_config_source(None, None, None, None, true),
        Err(CliError::Canvas(CanvasError::InvalidExternalToolConfig(s))) if s == "missing_config"
    ));
    assert!(matches!(
        external_tool_config_source(None, Some("{}".to_string()), Some("<x/>".to_string()), None, true),
        Err(CliError::Canvas(CanvasError::InvalidExternalToolConfig(s))) if s == "multiple_sources"
    ));
}

#[test]
fn tool_configuration_files_are_read_by_extension() {
    assert!(matches!(
        external_tool_config_from_file("JSON", "{}".to_string()),
        Ok(ExternalToolConfig::Json(_))
    ));
    assert!(matches!(
        external_tool_config_from_file("xml", "{\"title\":\"T\"}".to_string()),
        Ok(ExternalToolConfig::Xml(_))
    ));
    assert!(matches!(
        external_tool_config_from_file("cfg", "<cartridge/>".to_string()),
        Ok(ExternalToolConfig::Xml(_))
    ));
    assert!(matches!(
        external_tool_config_from_file("cfg", "{}".to_string()),
        Ok(ExternalToolConfig::Json(_))
    ));
    assert!(matches!(
        external_tool_config_from_file("json", "[1]".to_string()),
        Err(CanvasError::InvalidExternalToolConfig(s)) if s == "invalid_json"
    ));
    assert!(matches!(
        external_tool_config_from_file("xml", "   ".to_string()),
        Err(CanvasError::InvalidExternalToolConfig(s)) if s == "empty"
    ));
}
