use canvas_core::ask::plan_from_prompt;
use canvas_core::dates::{AllDayDate, DueDate, EventDateTime};
use canvas_core::errors::CanvasError;
use canvas_core::hosts::{CanvasHost, ExternalToolConfigUrl};
use canvas_core::text::{to_ascii_lower, u64_to_string};

#[test]
fn timestamps_are_normalized_by_the_time_reader() {
    let due: DueDate = "2025-01-01T12:00:00+00:00".parse().expect("due");
    assert_eq!(due.as_rfc3339(), "2025-01-01T12:00:00Z");
    assert_eq!(due.instant_nanos(), 1_735_732_800_000_000_000);
    assert_eq!(due.offset_seconds(), 0);
    let shifted: EventDateTime = " 2025-01-01T13:00:00+01:00 ".parse().expect("event");
    assert_eq!(shifted.instant_nanos(), 1_735_732_800_000_000_000);
    assert!("2025-13-01T00:00:00Z".parse::<DueDate>().is_err());
}

#[test]
fn calendar_dates_are_read_by_the_time_reader() {
    let day: AllDayDate = "2025-01-01".parse().expect("day");
    assert_eq!(day.julian_day(), 2_460_677);
    assert_eq!(day.as_iso8601(), "2025-01-01");
    assert!("2025-02-30".parse::<AllDayDate>().is_err());
}

#[test]
fn urls_are_read_by_the_url_reader() {
    let tool: ExternalToolConfigUrl = "HTTPS://Example.COM".parse().expect("tool url");
    assert_eq!(tool.as_str(), "https://example.com/");
    assert!("https://".parse::<CanvasHost>().is_err());
    assert!("mailto:someone@example.com".parse::<CanvasHost>().is_err());
}

#[test]
fn requests_are_lower_cased_before_matching() {
    let plan = plan_from_prompt("CHECK my AUTH");
    assert_eq!(plan.commands.len(), 1);
    assert_eq!(plan.commands[0].command, "auth check");
}

#[test]
fn numbers_and_letters_are_written_out() {
    assert_eq!(u64_to_string(40_213), "40213");
    assert_eq!(u64_to_string(0), "0");
    assert_eq!(to_ascii_lower("MiXeD 1"), "mixed 1");
    assert_eq!(
        CanvasError::MissingQuizPoints(7).message(),
        "missing quiz points for quiz id 7"
    );
}
