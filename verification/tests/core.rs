use canvas_core::ask::{ask_action, plan_from_prompt, runs_plan, AskAction, PlannedCommand};
use canvas_core::combine::{
    parse_course_dates, parse_recipient_ids, parse_rubric_association_target,
};
use canvas_core::config::{
    merge_file_configs, AuthConfig, CanvasConfig, DefaultsConfig, FileAuthConfig, FileConfig,
    FileDefaultsConfig,
};
use canvas_core::dates::DueDate;
use canvas_core::hosts::{CanvasHost, CanvasToken};
use canvas_core::ids::{AssignmentId, GroupCategoryId, OutcomeId};
use canvas_core::kinds::{GroupAssignmentMode, PeerReviewMode};
use canvas_core::migrations::{backoff_delay, ContentMigrationState, ContentMigrationWaitOptions};
use canvas_core::names::SectionName;
use canvas_core::net::{api_base_url, build_url, parse_next_link};
use canvas_core::parse::{
    parse_external_tool_config_url, parse_external_tool_id, parse_external_tool_name,
    parse_external_tool_placement, parse_grading_period_id, parse_host, parse_token,
};
use canvas_core::resources::SectionUpdateInput;
use canvas_core::windows::{AssignmentOverrideDates, GroupAssignmentSettings, PeerReviewSettings};

fn host() -> String {
    "https://example.instructure.com".to_string()
}

fn token() -> String {
    "token123".to_string()
}

#[test]
fn ask_plan_detects_auth_check() {
    let plan = plan_from_prompt("Please check auth status");
    assert_eq!(plan.commands.len(), 1);
    assert_eq!(plan.commands[0].command, "auth check");
}

#[test]
fn ask_plan_detects_course_list() {
    let plan = plan_from_prompt("List courses for me");
    assert_eq!(plan.commands.len(), 1);
    assert_eq!(plan.commands[0].command, "course list");
}

#[test]
fn ask_plan_returns_empty_for_unknown() {
    let plan = plan_from_prompt("Generate a grade report");
    assert!(plan.commands.is_empty());
}

#[test]
fn planned_command_params_are_stable() {
    let command = PlannedCommand {
        id: "course-list",
        command: "course list",
        params: Vec::new(),
        risk: "none",
        destructive: false,
    };
    assert!(command.params.is_empty());
}

#[test]
fn parse_next_link_finds_next() {
    let header = r#"<https://example.com/api/v1/courses?page=2>; rel="next", <https://example.com/api/v1/courses?page=1>; rel="current""#;
    let next = parse_next_link(header);
    assert_eq!(
        next.as_deref(),
        Some("https://example.com/api/v1/courses?page=2")
    );
}

#[test]
fn parse_next_link_returns_none_without_next() {
    let header = r#"<https://example.com/api/v1/courses?page=1>; rel="current""#;
    assert!(parse_next_link(header).is_none());
}

#[test]
fn build_url_joins_paths() {
    let host: CanvasHost = "https://example.com".parse().expect("host");
    let token: CanvasToken = "token123".parse().expect("token");
    let config = CanvasConfig {
        auth: AuthConfig { host, token },
        defaults: DefaultsConfig::default(),
    };
    let base = api_base_url(&config.auth.host);
    let url = build_url(&base, "/courses");
    assert_eq!(url, "https://example.com/api/v1/courses");
}

#[test]
fn env_overrides_file_values() {
    let file = FileConfig {
        auth: Some(FileAuthConfig {
            host: Some(host()),
            token: Some(token()),
        }),
        defaults: None,
    };
    let env = FileConfig {
        auth: Some(FileAuthConfig {
            host: Some("https://override.example.com".to_string()),
            token: None,
        }),
        defaults: None,
    };

    let merged = merge_file_configs(Some(file), env);
    let config = CanvasConfig::try_from(merged).expect("merged config");
    assert_eq!(config.auth.host.as_str(), "https://override.example.com");
    assert_eq!(config.auth.token.as_str(), "token123");
}

#[test]
fn missing_config_is_reported() {
    let raw = FileConfig::default();
    let result = CanvasConfig::try_from(raw);
    assert!(result.is_err());
}

#[test]
fn defaults_parse_course_id() {
    let raw = FileConfig {
        auth: Some(FileAuthConfig {
            host: Some(host()),
            token: Some(token()),
        }),
        defaults: Some(FileDefaultsConfig { course_id: Some(42) }),
    };

    let config = CanvasConfig::try_from(raw).expect("config");
    assert_eq!(config.defaults.course_id.expect("course id").get(), 42);
    let _ = parse_host("https://example.com").expect("host");
    let _ = parse_token("token123").expect("token");
}

#[test]
fn content_migration_state_maps_running() {
    let state = ContentMigrationState::from_raw(Some("running"));
    assert_eq!(state.as_str(), "running");
}

#[test]
fn backoff_delay_caps_at_max() {
    let options = ContentMigrationWaitOptions {
        max_attempts: 3,
        base_delay_ms: 5_000,
        max_delay_ms: 6_000,
    };
    let delay = backoff_delay(2, options);
    assert_eq!(delay / 1_000, 6);
}

#[test]
fn parse_recipient_ids_requires_non_empty() {
    let parsed = parse_recipient_ids(Vec::new());
    assert!(parsed.is_err());
}

#[test]
fn parse_course_dates_rejects_start_after_end() {
    let start: DueDate = "2025-01-02T00:00:00Z".parse().expect("start");
    let end: DueDate = "2025-01-01T00:00:00Z".parse().expect("end");
    let parsed = parse_course_dates(Some(start), Some(end));
    assert!(parsed.is_err());
}

#[test]
fn parse_host_rejects_missing_scheme() {
    let parsed = parse_host("example.instructure.com");
    assert!(parsed.is_err());
}

#[test]
fn parse_token_rejects_whitespace() {
    let parsed = parse_token("tok en");
    assert!(parsed.is_err());
}

#[test]
fn parse_rubric_association_target_requires_exactly_one() {
    let assignment: AssignmentId = "5".parse().expect("assignment");
    let outcome: OutcomeId = "7".parse().expect("outcome");
    let parsed = parse_rubric_association_target(Some(assignment), None);
    assert!(parsed.is_ok());
    let parsed = parse_rubric_association_target(Some(assignment), Some(outcome));
    assert!(parsed.is_err());
}

#[test]
fn parse_grading_period_id_rejects_zero() {
    let parsed = parse_grading_period_id("0");
    assert!(parsed.is_err());
}

#[test]
fn parse_external_tool_id_rejects_zero() {
    let parsed = parse_external_tool_id("0");
    assert!(parsed.is_err());
}

#[test]
fn parse_external_tool_name_rejects_empty() {
    let parsed = parse_external_tool_name(" ");
    assert!(parsed.is_err());
}

#[test]
fn parse_external_tool_config_url_requires_http() {
    let parsed = parse_external_tool_config_url("ftp://example.com");
    assert!(parsed.is_err());
}

#[test]
fn parse_external_tool_placement_rejects_empty() {
    let parsed = parse_external_tool_placement(" ");
    assert!(parsed.is_err());
}

#[test]
fn section_update_requires_fields() {
    let update = SectionUpdateInput::new(None);
    assert!(update.is_err());
}

#[test]
fn section_update_accepts_name() {
    let name = "Section A".parse::<SectionName>().expect("name");
    let update = SectionUpdateInput::new(Some(name));
    assert!(update.is_ok());
}

#[test]
fn peer_review_settings_require_assign_at_for_automatic() {
    let due_at: DueDate = "2025-01-10T00:00:00Z".parse().expect("due");
    let settings = PeerReviewSettings::new(PeerReviewMode::Automatic, None, Some(due_at));
    assert!(settings.is_err());
}

#[test]
fn peer_review_settings_reject_assign_after_due() {
    let assign_at: DueDate = "2025-01-11T00:00:00Z".parse().expect("assign");
    let due_at: DueDate = "2025-01-10T00:00:00Z".parse().expect("due");
    let settings =
        PeerReviewSettings::new(PeerReviewMode::Automatic, Some(assign_at), Some(due_at));
    assert!(settings.is_err());
}

#[test]
fn group_assignment_requires_category() {
    let settings = GroupAssignmentSettings::new(GroupAssignmentMode::Group, None);
    assert!(settings.is_err());
}

#[test]
fn group_assignment_allows_category() {
    let category: GroupCategoryId = "4".parse().expect("category");
    let settings = GroupAssignmentSettings::new(GroupAssignmentMode::Group, Some(category));
    assert!(settings.is_ok());
}

#[test]
fn override_dates_validate_order() {
    let unlock_at: DueDate = "2025-01-11T00:00:00Z".parse().expect("unlock");
    let due_at: DueDate = "2025-01-10T00:00:00Z".parse().expect("due");
    let dates = AssignmentOverrideDates::new(Some(unlock_at), Some(due_at), None);
    assert!(dates.is_err());
}

#[test]
fn planned_commands_run_by_their_action() {
    let plan = plan_from_prompt("List courses for me");
    assert!(runs_plan(&plan, false, true));
    assert!(!runs_plan(&plan, true, true));
    assert!(!runs_plan(&plan, false, false));
    assert_eq!(ask_action(&plan.commands[0]).ok(), Some(AskAction::CourseList));
    let plan = plan_from_prompt("Please check auth status");
    assert_eq!(ask_action(&plan.commands[0]).ok(), Some(AskAction::AuthCheck));
    let empty = plan_from_prompt("write me a poem");
    assert!(!runs_plan(&empty, false, true));
    let other = PlannedCommand {
        id: "course-show",
        command: "course show",
        params: Vec::new(),
        risk: "none",
        destructive: false,
    };
    assert!(matches!(ask_action(&other), Err(canvas_core::errors::CliError::AskExecutionUnsupported)));
}
