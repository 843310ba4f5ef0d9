use canvas_core::cli::GlobalOptions;
use canvas_core::errors::{CanvasError, CliError};
use canvas_core::ids::CourseId;
use canvas_core::kinds::PublishState;
use canvas_core::dates::DueDate;
use canvas_core::ids::QuizTimeLimit;
use canvas_core::names::{QuizAccessCode, QuizTitle};
use canvas_core::quizzes::{
    quiz_request, QuizCommand, QuizCreateForm, QuizCreateInput, QuizRequest, QuizUpdateInput,
};
use canvas_core::windows::QuizAvailability;
use canvas_core::requests::{QuizSubmissionCommand, QuizSubmissionRequest};
use canvas_core::windows::availability_fields;

fn global(course: Option<u64>) -> GlobalOptions {
    let course = course.map(|c| CourseId::parse(&c.to_string()).expect("course"));
    GlobalOptions { course, json: false, quiet: false, confirm: false, explain: false }
}

fn create(points: Option<Result<f64, String>>, access_code: Option<&str>) -> QuizCommand<f64> {
    QuizCommand::Create {
        course: None,
        title: " Midterm ".to_string(),
        points,
        time_limit: Some("45".to_string()),
        access_code: access_code.map(|c| c.to_string()),
        unlock_at: Some("2025-03-01T09:00:00Z".to_string()),
        due_at: None,
        lock_at: Some("2025-03-02T09:00:00Z".to_string()),
        publish_state: Some("published".to_string()),
    }
}

#[test]
fn quiz_create_reads_every_field() {
    match quiz_request(create(Some(Ok(20.0)), Some(" open ")), &global(Some(6))) {
        Ok(QuizRequest::Create { course_id, input }) => {
            assert_eq!(course_id.get(), 6);
            assert_eq!(input.title.as_str(), "Midterm");
            assert_eq!(input.points_possible, Some(20.0));
            assert_eq!(input.time_limit.map(|t| t.minutes()), Some(45));
            assert_eq!(input.access_code.as_ref().map(|c| c.as_str().to_string()), Some("open".to_string()));
            assert_eq!(input.publish_state, Some(PublishState::Published));
            let (u, d, l) = availability_fields(input.availability.as_ref());
            assert_eq!(u, Some("2025-03-01T09:00:00Z".to_string()));
            assert_eq!(d, None);
            assert_eq!(l, Some("2025-03-02T09:00:00Z".to_string()));
        }
        _ => panic!("expected create"),
    }
}

#[test]
fn quiz_points_are_reported_in_their_place() {
    let refused = create(Some(Err("ten".to_string())), Some("   "));
    assert!(matches!(
        quiz_request(refused, &global(Some(6))),
        Err(CliError::Canvas(CanvasError::InvalidPointsPossible(s))) if s == "ten"
    ));
    let blank_code = create(Some(Ok(5.0)), Some("   "));
    assert!(matches!(
        quiz_request(blank_code, &global(Some(6))),
        Err(CliError::Canvas(CanvasError::InvalidQuizAccessCode(s))) if s == "   "
    ));
}

#[test]
fn quiz_window_must_be_in_order() {
    let backwards: QuizCommand<f64> = QuizCommand::Create {
        course: None,
        title: "Quiz".to_string(),
        points: None,
        time_limit: None,
        access_code: None,
        unlock_at: Some("2025-03-05T00:00:00Z".to_string()),
        due_at: Some("2025-03-01T00:00:00Z".to_string()),
        lock_at: None,
        publish_state: None,
    };
    assert!(matches!(
        quiz_request(backwards, &global(Some(6))),
        Err(CliError::Canvas(CanvasError::InvalidQuizAvailability(s))) if s == "invalid_window"
    ));
}

#[test]
fn quiz_update_needs_a_change() {
    let nothing: QuizCommand<f64> = QuizCommand::Update {
        course: None,
        quiz: "3".to_string(),
        title: None,
        points: None,
        time_limit: None,
        access_code: None,
        unlock_at: None,
        due_at: None,
        lock_at: None,
        publish_state: None,
    };
    assert!(matches!(
        quiz_request(nothing, &global(Some(6))),
        Err(CliError::Canvas(CanvasError::InvalidQuizUpdate(s))) if s == "no_fields"
    ));
    let limit: QuizCommand<f64> = QuizCommand::Update {
        course: None,
        quiz: "3".to_string(),
        title: None,
        points: None,
        time_limit: Some("0".to_string()),
        access_code: None,
        unlock_at: None,
        due_at: None,
        lock_at: None,
        publish_state: None,
    };
    assert!(matches!(
        quiz_request(limit, &global(Some(6))),
        Err(CliError::Canvas(CanvasError::InvalidQuizTimeLimit(s))) if s == "0"
    ));
}

#[test]
fn quiz_submission_commands_pass_through() {
    let list: QuizCommand<f64> = QuizCommand::Submission {
        command: QuizSubmissionCommand::List { course: None, quiz: "9".to_string() },
    };
    match quiz_request(list, &global(Some(6))) {
        Ok(QuizRequest::Submission(QuizSubmissionRequest::List { quiz_id, .. })) => {
            assert_eq!(quiz_id.get(), 9)
        }
        _ => panic!("expected submission list"),
    }
}

#[test]
fn quiz_update_requires_fields() {
    let update = QuizUpdateInput::<f64>::new(None, None, None, None, None, None);
    assert!(update.is_err());
}

#[test]
fn quiz_create_form_maps_fields() {
    let title: QuizTitle = "Midterm".parse().expect("title");
    let points: f64 = "20".parse().expect("points");
    let time_limit: QuizTimeLimit = "30".parse().expect("time limit");
    let access_code: QuizAccessCode = "secret".parse().expect("access");
    let unlock_at: DueDate = "2025-01-01T00:00:00Z".parse().expect("unlock");
    let due_at: DueDate = "2025-01-02T00:00:00Z".parse().expect("due");
    let lock_at: DueDate = "2025-01-03T00:00:00Z".parse().expect("lock");
    let availability = QuizAvailability::new(Some(unlock_at), Some(due_at), Some(lock_at))
        .expect("availability");
    let input = QuizCreateInput::new(
        title,
        Some(points),
        Some(PublishState::Published),
        Some(time_limit),
        Some(access_code),
        Some(availability),
    );
    let form = QuizCreateForm::from_input(&input);
    assert_eq!(form.title, "Midterm");
    assert_eq!(form.points_possible, Some(20.0));
    assert_eq!(form.published, Some(true));
    assert_eq!(form.time_limit, Some(30));
    assert_eq!(form.access_code.as_deref(), Some("secret"));
    assert_eq!(form.unlock_at.as_deref(), Some("2025-01-01T00:00:00Z"));
    assert_eq!(form.due_at.as_deref(), Some("2025-01-02T00:00:00Z"));
    assert_eq!(form.lock_at.as_deref(), Some("2025-01-03T00:00:00Z"));
}
