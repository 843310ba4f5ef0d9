use canvas_core::ask::plan_from_prompt;
use canvas_core::config::{
    merge_file_configs, CanvasConfig, FileAuthConfig, FileConfig, FileDefaultsConfig,
};
use canvas_core::dates::DueDate;
use canvas_core::hosts::CanvasHost;
use canvas_core::ids::CourseId;
use canvas_core::kinds::{QuestionType, ReportType, UserRole};
use canvas_core::migrations::{
    wait_step, ContentMigrationState, ContentMigrationWaitOptions, WaitStep,
};
use canvas_core::names::AssignmentName;
use canvas_core::net::{
    backoff_delay_ms, next_retry_step, AttemptOutcome, HttpMethod, RetryPolicy, RetryStep,
};
use canvas_core::windows::QuizAvailability;

#[test]
fn names_parse_back_to_themselves() {
    let name: AssignmentName = "  Essay 2 ".parse().expect("name");
    assert_eq!(name.as_str(), "Essay 2");
    let again: AssignmentName = name.as_str().parse().expect("again");
    assert_eq!(again.as_str(), name.as_str());
}

#[test]
fn ids_print_and_parse_back() {
    let id: CourseId = "00042".parse().expect("id");
    assert_eq!(id.get(), 42);
    let again: CourseId = id.get().to_string().parse().expect("again");
    assert_eq!(again, id);
}

#[test]
fn kinds_parse_their_own_spelling() {
    for role in [UserRole::Student, UserRole::Ta, UserRole::Teacher] {
        let again: UserRole = role.as_str().parse().expect("role");
        assert_eq!(again, role);
    }
    let question: QuestionType = "MCQ".parse().expect("question");
    assert_eq!(question, QuestionType::MultipleChoice);
    let again: QuestionType = question.as_str().parse().expect("again");
    assert_eq!(again, question);
    let report: ReportType = ReportType::MissingSubmissions.as_str().parse().expect("report");
    assert_eq!(report, ReportType::MissingSubmissions);
}

#[test]
fn availability_windows_are_ordered() {
    let unlock: DueDate = "2025-01-01T00:00:00Z".parse().expect("unlock");
    let due: DueDate = "2025-01-05T00:00:00Z".parse().expect("due");
    let lock: DueDate = "2025-01-03T00:00:00Z".parse().expect("lock");
    assert!(QuizAvailability::new(Some(unlock.clone()), Some(due.clone()), None).is_ok());
    assert!(QuizAvailability::new(Some(unlock), Some(due), Some(lock)).is_err());
}

#[test]
fn environment_overrides_file_field_by_field() {
    let file = FileConfig {
        auth: Some(FileAuthConfig {
            host: Some("https://file.example.com".to_string()),
            token: Some("filetoken".to_string()),
        }),
        defaults: Some(FileDefaultsConfig { course_id: Some(7) }),
    };
    let env = FileConfig {
        auth: Some(FileAuthConfig { host: None, token: Some("envtoken".to_string()) }),
        defaults: None,
    };
    let merged = merge_file_configs(Some(file), env);
    let config = CanvasConfig::try_from(merged).expect("config");
    assert_eq!(config.auth.host.as_str(), "https://file.example.com");
    assert_eq!(config.auth.token.as_str(), "envtoken");
    assert_eq!(config.defaults.course_id.expect("course").get(), 7);
}

#[test]
fn backoff_doubles_and_stops_at_the_cap() {
    assert_eq!(backoff_delay_ms(0, 500, 10_000), 500);
    assert_eq!(backoff_delay_ms(1, 500, 10_000), 1_000);
    assert_eq!(backoff_delay_ms(3, 500, 10_000), 4_000);
    assert_eq!(backoff_delay_ms(5, 500, 10_000), 10_000);
    assert_eq!(backoff_delay_ms(63, u64::MAX, 10_000), 10_000);
}

#[test]
fn retries_stop_after_the_policy_allows() {
    let policy = RetryPolicy::default_policy();
    let busy = AttemptOutcome::Response { status: 503 };
    assert_eq!(
        next_retry_step(HttpMethod::Get, busy, 0, None, &policy),
        RetryStep::Wait { delay_ms: 500 }
    );
    assert_eq!(
        next_retry_step(HttpMethod::Get, busy, 1, Some(2), &policy),
        RetryStep::Wait { delay_ms: 2_000 }
    );
    assert_eq!(next_retry_step(HttpMethod::Get, busy, 3, None, &policy), RetryStep::GiveUp);
    assert_eq!(next_retry_step(HttpMethod::Post, busy, 0, None, &policy), RetryStep::GiveUp);
    assert_eq!(
        next_retry_step(HttpMethod::Get, AttemptOutcome::Response { status: 200 }, 3, None, &policy),
        RetryStep::Deliver
    );
}

#[test]
fn migration_polling_is_bounded() {
    let options = ContentMigrationWaitOptions { max_attempts: 3, base_delay_ms: 100, max_delay_ms: 150 };
    let running = ContentMigrationState::from_raw(Some("running"));
    assert_eq!(wait_step(&running, 0, options), WaitStep::Sleep { delay_ms: 100 });
    assert_eq!(wait_step(&running, 1, options), WaitStep::Sleep { delay_ms: 150 });
    assert!(matches!(wait_step(&running, 2, options), WaitStep::Stop(_)));
    let done = ContentMigrationState::from_raw(Some("completed"));
    assert_eq!(wait_step(&done, 2, options), WaitStep::Finished);
}

#[test]
fn planned_commands_are_never_destructive() {
    for prompt in ["check auth", "list courses", "show my courses please", "anything"] {
        let plan = plan_from_prompt(prompt);
        assert!(plan.commands.iter().all(|c| !c.destructive && c.params.is_empty()));
    }
}

#[test]
fn hosts_lose_trailing_slashes() {
    let host: CanvasHost = "https://school.example.com///".parse().expect("host");
    assert_eq!(host.as_str(), "https://school.example.com");
}
