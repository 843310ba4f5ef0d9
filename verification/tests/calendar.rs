use canvas_core::calendar::{
    calendar_context, calendar_event_request, CalendarCommand, CalendarEventRequest,
};
use canvas_core::cli::{CalendarEventTiming, GlobalOptions};
use canvas_core::contexts::CalendarEventContext;
use canvas_core::errors::{CanvasError, CliError};
use canvas_core::ids::CourseId;

fn global(course: Option<u64>) -> GlobalOptions {
    let course = course.map(|c| CourseId::parse(&c.to_string()).expect("course"));
    GlobalOptions { course, json: false, quiet: false, confirm: false, explain: false }
}

#[test]
fn calendar_context_prefers_section_and_refuses_both() {
    assert!(matches!(
        calendar_context(None, Some("3".to_string()), &global(Some(1))),
        Ok(CalendarEventContext::Section(s)) if s.get() == 3
    ));
    assert!(matches!(
        calendar_context(None, None, &global(Some(1))),
        Ok(CalendarEventContext::Course(c)) if c.get() == 1
    ));
    assert!(matches!(
        calendar_context(Some("2".to_string()), Some("3".to_string()), &global(None)),
        Err(CliError::Canvas(CanvasError::InvalidCalendarEventContext(s))) if s == "conflicting_context"
    ));
    assert!(matches!(
        calendar_context(None, None, &global(None)),
        Err(CliError::Canvas(CanvasError::InvalidCalendarEventContext(s))) if s == "missing_context"
    ));
}

#[test]
fn calendar_commands_become_requests() {
    let create = CalendarCommand::Create {
        course: None,
        section: None,
        title: " Exam ".to_string(),
        start_at: None,
        end_at: None,
        all_day_date: Some("2025-05-01".to_string()),
    };
    match calendar_event_request(create, &global(Some(7))) {
        Ok(CalendarEventRequest::Create { input }) => {
            assert_eq!(input.title.as_str(), "Exam");
            assert!(matches!(input.context, CalendarEventContext::Course(c) if c.get() == 7));
            assert!(matches!(input.timing, CalendarEventTiming::AllDay(_)));
        }
        _ => panic!("expected create"),
    }
    let update = CalendarCommand::Update {
        event_id: "4".to_string(),
        title: None,
        start_at: None,
        end_at: None,
        all_day_date: None,
    };
    assert!(matches!(
        calendar_event_request(update, &global(None)),
        Err(CliError::Canvas(CanvasError::InvalidCalendarEventUpdate(s))) if s == "no_fields"
    ));
    assert!(matches!(
        calendar_event_request(CalendarCommand::Delete { event_id: "0".to_string() }, &global(None)),
        Err(CliError::Canvas(CanvasError::InvalidCalendarEventId(s))) if s == "0"
    ));
}
