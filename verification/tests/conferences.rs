use canvas_core::cli::GlobalOptions;
use canvas_core::conferences::{conference_request, ConferenceCommand, ConferenceRequest};
use canvas_core::errors::{CanvasError, CliError};
use canvas_core::ids::CourseId;

fn global(course: Option<u64>) -> GlobalOptions {
    let course = course.map(|c| CourseId::parse(&c.to_string()).expect("course"));
    GlobalOptions { course, json: false, quiet: false, confirm: false, explain: false }
}

#[test]
fn conference_create_builds_a_schedule_only_when_timed() {
    let create = ConferenceCommand::Create {
        course: None,
        title: " Office hours ".to_string(),
        description: None,
        start_at: None,
        duration: Some("45".to_string()),
        recording: Some(true),
    };
    match conference_request(create, &global(Some(2))) {
        Ok(ConferenceRequest::Create { course_id, input }) => {
            assert_eq!(course_id.get(), 2);
            assert_eq!(input.title.as_str(), "Office hours");
            let schedule = input.schedule.expect("schedule");
            assert!(schedule.start_at.is_none());
            assert_eq!(schedule.duration.expect("duration").minutes(), 45);
            assert_eq!(input.recording_enabled, Some(true));
        }
        _ => panic!("expected create"),
    }
    let plain = ConferenceCommand::Create {
        course: None,
        title: "Talk".to_string(),
        description: Some("Intro".to_string()),
        start_at: None,
        duration: None,
        recording: None,
    };
    match conference_request(plain, &global(Some(2))) {
        Ok(ConferenceRequest::Create { input, .. }) => assert!(input.schedule.is_none()),
        _ => panic!("expected create"),
    }
}

#[test]
fn conference_update_needs_a_change() {
    let update = ConferenceCommand::Update {
        course: None,
        conference: "3".to_string(),
        title: None,
        description: None,
        start_at: None,
        duration: None,
        recording: None,
    };
    assert!(matches!(
        conference_request(update, &global(Some(2))),
        Err(CliError::Canvas(CanvasError::InvalidConferenceUpdate(s))) if s == "no_fields"
    ));
    let bad_duration = ConferenceCommand::Update {
        course: None,
        conference: "3".to_string(),
        title: None,
        description: None,
        start_at: None,
        duration: Some("0".to_string()),
        recording: None,
    };
    assert!(matches!(
        conference_request(bad_duration, &global(Some(2))),
        Err(CliError::Canvas(CanvasError::InvalidConferenceDuration(s))) if s == "0"
    ));
}
