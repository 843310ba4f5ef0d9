//! Calendar events: the inputs that create or change them, and the typed
//! requests that calendar commands stand for.

use crate::cli::{
    create_timing_spec, parse_calendar_timing_for_create, parse_calendar_timing_for_update,
    reports_refusal, update_timing_spec, CalendarEventTiming, GlobalOptions, TimingRefusal,
    TimingView,
};
use crate::combine::parse_calendar_event_context;
use crate::contexts::CalendarEventContext;
use crate::errors::{CanvasError, CliError};
use crate::ids::{CalendarEventId, CourseId, SectionId};
use crate::names::CalendarEventTitle;
use crate::parse::{parse_calendar_event_id, parse_calendar_event_title, parse_course_id, parse_section_id};
use crate::text::{dec, positive_id_spec, push_decimal, push_str, to_owned_string, trim};
use vstd::prelude::*;

verus! {

/// What creates a calendar event: where, what and when.
#[derive(Debug)]
pub struct CalendarEventCreateInput {
    pub context: CalendarEventContext,
    pub title: CalendarEventTitle,
    pub timing: CalendarEventTiming,
}

impl CalendarEventCreateInput {
    /// An event titled `title` in `context` at `timing`.
    pub fn new(context: CalendarEventContext, title: CalendarEventTitle, timing: CalendarEventTiming) -> (r:
        Self)
        ensures
            r.context == context,
            r.title@ == title@,
            r.timing@ == timing@,
    {
        CalendarEventCreateInput { context, title, timing }
    }
}

/// What changes a calendar event: its title, its timing, or both.
#[derive(Debug)]
pub struct CalendarEventUpdateInput {
    pub title: Option<CalendarEventTitle>,
    pub timing: Option<CalendarEventTiming>,
}

impl CalendarEventUpdateInput {
    /// A change of the given fields; at least one must be given.
    pub fn new(title: Option<CalendarEventTitle>, timing: Option<CalendarEventTiming>) -> (r: Result<
        Self,
        CanvasError,
    >)
        ensures
            match r {
                Ok(u) => !(title is None && timing is None) && u.title == title && u.timing == timing,
                Err(e) => title is None && timing is None && (e matches CanvasError::InvalidCalendarEventUpdate(
                    s,
                ) && s@ == "no_fields"@),
            },
    {
        if title.is_none() && timing.is_none() {
            return Err(CanvasError::InvalidCalendarEventUpdate(to_owned_string("no_fields")));
        }
        Ok(CalendarEventUpdateInput { title, timing })
    }
}

/// A calendar command as given on the command line, unvalidated.
#[derive(Debug, Clone, PartialEq, Eq)]
pub enum CalendarCommand {
    List { course: Option<String>, section: Option<String> },
    Create {
        course: Option<String>,
        section: Option<String>,
        title: String,
        start_at: Option<String>,
        end_at: Option<String>,
        all_day_date: Option<String>,
    },
    Update {
        event_id: String,
        title: Option<String>,
        start_at: Option<String>,
        end_at: Option<String>,
        all_day_date: Option<String>,
    },
    Delete { event_id: String },
}

/// A validated calendar command.
#[derive(Debug)]
pub enum CalendarEventRequest {
    List { context: CalendarEventContext },
    Create { input: CalendarEventCreateInput },
    Update { event_id: CalendarEventId, input: CalendarEventUpdateInput },
    Delete { event_id: CalendarEventId },
}

/// The model of a calendar event context.
pub ghost enum ContextModel {
    Course(u64),
    Section(u64),
}

/// The model of a calendar event context.
pub open spec fn context_model(c: CalendarEventContext) -> ContextModel {
    match c {
        CalendarEventContext::Course(id) => ContextModel::Course(id@),
        CalendarEventContext::Section(id) => ContextModel::Section(id@),
    }
}

/// Why the context options of a calendar command were refused.
pub ghost enum ContextRefusal {
    /// The section text is not a section id.
    BadSection(Seq<char>),
    /// A section and a course were both given.
    Conflicting,
    /// The course text is not a course id.
    BadCourse(Seq<char>),
    /// Neither a section nor a course, given or default.
    Missing,
}

/// Whether `e` is the error for `f`.
pub open spec fn reports_context(f: ContextRefusal, e: CliError) -> bool {
    match f {
        ContextRefusal::BadSection(t) => e matches CliError::Canvas(CanvasError::InvalidSectionId(s))
            && s@ == t,
        ContextRefusal::Conflicting => e matches CliError::Canvas(
            CanvasError::InvalidCalendarEventContext(s),
        ) && s@ == "conflicting_context"@,
        ContextRefusal::BadCourse(t) => e matches CliError::Canvas(CanvasError::InvalidCourseId(s))
            && s@ == t,
        ContextRefusal::Missing => e matches CliError::Canvas(
            CanvasError::InvalidCalendarEventContext(s),
        ) && s@ == "missing_context"@,
    }
}

/// The context of a calendar command: the section, read first, excludes a
/// course; without a section, the course given or else the default.
pub open spec fn context_spec(
    course: Option<String>,
    section: Option<String>,
    default: Option<CourseId>,
) -> Result<ContextModel, ContextRefusal> {
    match section {
        Some(t) => match positive_id_spec(t@) {
            None => Err(ContextRefusal::BadSection(t@)),
            Some(s) => if course is Some {
                Err(ContextRefusal::Conflicting)
            } else {
                Ok(ContextModel::Section(s))
            },
        },
        None => match course {
            Some(c) => match positive_id_spec(c@) {
                None => Err(ContextRefusal::BadCourse(c@)),
                Some(v) => Ok(ContextModel::Course(v)),
            },
            None => match default {
                Some(d) => Ok(ContextModel::Course(d@)),
                None => Err(ContextRefusal::Missing),
            },
        },
    }
}

/// The context of a calendar command's course and section options.
pub fn calendar_context(course: Option<String>, section: Option<String>, global: &GlobalOptions) -> (r:
    Result<CalendarEventContext, CliError>)
    ensures
        match r {
            Ok(c) => context_spec(course, section, global.course) == Ok::<
                ContextModel,
                ContextRefusal,
            >(context_model(c)),
            Err(e) => context_spec(course, section, global.course) matches Err(f)
                && reports_context(f, e),
        },
{
    let section_id: Option<SectionId> = match section {
        Some(raw) => match parse_section_id(raw.as_str()) {
            Ok(id) => Some(id),
            Err(e) => return Err(CliError::Canvas(e)),
        },
        None => None,
    };
    if section_id.is_some() && course.is_some() {
        return Err(
            CliError::Canvas(
                CanvasError::InvalidCalendarEventContext(to_owned_string("conflicting_context")),
            ),
        );
    }
    let course_id = if section_id.is_some() {
        None
    } else {
        match course {
            Some(raw) => match parse_course_id(raw.as_str()) {
                Ok(id) => Some(id),
                Err(e) => return Err(CliError::Canvas(e)),
            },
            None => global.course,
        }
    };
    match parse_calendar_event_context(course_id, section_id) {
        Ok(c) => Ok(c),
        Err(e) => Err(CliError::Canvas(e)),
    }
}

/// Whether `e` is the error for the event id text `t`.
pub open spec fn bad_event(t: String, e: CliError) -> bool {
    positive_id_spec(t@) is None && (e matches CliError::Canvas(CanvasError::InvalidCalendarEventId(s))
        && s@ == t@)
}

/// Whether `e` is the error for the blank title text `t`.
pub open spec fn bad_title(t: String, e: CliError) -> bool {
    trim(t@).len() == 0 && (e matches CliError::Canvas(CanvasError::InvalidCalendarEventTitle(s))
        && s@ == t@)
}

/// Whether a title is given and blank.
pub open spec fn blank_title(title: Option<String>) -> bool {
    match title {
        Some(t) => trim(t@).len() == 0,
        None => false,
    }
}

/// Whether `r` is what the calendar command `command` stands for: the
/// context, then the title, then the timing, in that order.
pub open spec fn calendar_outcome(
    command: CalendarCommand,
    default: Option<CourseId>,
    r: Result<CalendarEventRequest, CliError>,
) -> bool {
    match command {
        CalendarCommand::List { course, section } => match r {
            Ok(req) => req matches CalendarEventRequest::List { context } && context_spec(
                course,
                section,
                default,
            ) == Ok::<ContextModel, ContextRefusal>(context_model(context)),
            Err(e) => context_spec(course, section, default) matches Err(f) && reports_context(f, e),
        },
        CalendarCommand::Create { course, section, title, start_at, end_at, all_day_date } => match r {
            Ok(req) => req matches CalendarEventRequest::Create { input } && context_spec(
                course,
                section,
                default,
            ) == Ok::<ContextModel, ContextRefusal>(context_model(input.context)) && trim(title@).len()
                > 0 && input.title@ == trim(title@) && create_timing_spec(start_at, end_at, all_day_date)
                == Ok::<TimingView, TimingRefusal>(input.timing@),
            Err(e) => match context_spec(course, section, default) {
                Err(f) => reports_context(f, e),
                Ok(_) => if trim(title@).len() == 0 {
                    bad_title(title, e)
                } else {
                    create_timing_spec(start_at, end_at, all_day_date) matches Err(f)
                        && reports_refusal(f, true, e)
                },
            },
        },
        CalendarCommand::Update { event_id, title, start_at, end_at, all_day_date } => match r {
            Ok(req) => req matches CalendarEventRequest::Update { event_id: id, input }
                && positive_id_spec(event_id@) == Some(id@) && match title {
                Some(t) => trim(t@).len() > 0 && (input.title matches Some(n) && n@ == trim(t@)),
                None => input.title is None,
            } && update_timing_spec(start_at, end_at, all_day_date) == Ok::<
                Option<TimingView>,
                TimingRefusal,
            >(
                match input.timing {
                    Some(t) => Some(t@),
                    None => None,
                },
            ) && !(title is None && input.timing is None),
            Err(e) => if positive_id_spec(event_id@) is None {
                bad_event(event_id, e)
            } else if blank_title(title) {
                title matches Some(t) && bad_title(t, e)
            } else {
                match update_timing_spec(start_at, end_at, all_day_date) {
                    Err(f) => reports_refusal(f, false, e),
                    Ok(t) => title is None && t is None && (e matches CliError::Canvas(
                        CanvasError::InvalidCalendarEventUpdate(s),
                    ) && s@ == "no_fields"@),
                }
            },
        },
        CalendarCommand::Delete { event_id } => match r {
            Ok(req) => req matches CalendarEventRequest::Delete { event_id: id } && positive_id_spec(
                event_id@,
            ) == Some(id@),
            Err(e) => bad_event(event_id, e),
        },
    }
}

/// The validated request that a calendar command stands for.
pub fn calendar_event_request(command: CalendarCommand, global: &GlobalOptions) -> (r: Result<
    CalendarEventRequest,
    CliError,
>)
    ensures
        calendar_outcome(command, global.course, r),
{
    match command {
        CalendarCommand::List { course, section } => {
            let context = calendar_context(course, section, global)?;
            Ok(CalendarEventRequest::List { context })
        },
        CalendarCommand::Create { course, section, title, start_at, end_at, all_day_date } => {
            let context = calendar_context(course, section, global)?;
            let title = match parse_calendar_event_title(title.as_str()) {
                Ok(t) => t,
                Err(e) => return Err(CliError::Canvas(e)),
            };
            let timing = parse_calendar_timing_for_create(start_at, end_at, all_day_date)?;
            let input = CalendarEventCreateInput::new(context, title, timing);
            Ok(CalendarEventRequest::Create { input })
        },
        CalendarCommand::Update { event_id, title, start_at, end_at, all_day_date } => {
            let event_id = match parse_calendar_event_id(event_id.as_str()) {
                Ok(id) => id,
                Err(e) => return Err(CliError::Canvas(e)),
            };
            let title = match title {
                Some(raw) => match parse_calendar_event_title(raw.as_str()) {
                    Ok(t) => Some(t),
                    Err(e) => return Err(CliError::Canvas(e)),
                },
                None => None,
            };
            let timing = parse_calendar_timing_for_update(start_at, end_at, all_day_date)?;
            match CalendarEventUpdateInput::new(title, timing) {
                Ok(input) => Ok(CalendarEventRequest::Update { event_id, input }),
                Err(e) => Err(CliError::Canvas(e)),
            }
        },
        CalendarCommand::Delete { event_id } => match parse_calendar_event_id(event_id.as_str()) {
            Ok(event_id) => Ok(CalendarEventRequest::Delete { event_id }),
            Err(e) => Err(CliError::Canvas(e)),
        },
    }
}

/// The path that lists the events of a context.
pub fn calendar_events_list_path(context: CalendarEventContext) -> (r: String)
    ensures
        r@ == "/calendar_events?context_codes[]="@ + context.code_text() + "&per_page=100"@,
{
    let mut out = String::new();
    push_str(&mut out, "/calendar_events?context_codes[]=");
    let code = context.context_code();
    push_str(&mut out, code.as_str());
    push_str(&mut out, "&per_page=100");
    assert(out@ =~= "/calendar_events?context_codes[]="@ + context.code_text() + "&per_page=100"@);
    out
}

/// The path of a calendar event.
pub fn calendar_event_path(event_id: CalendarEventId) -> (r: String)
    ensures
        r@ == "/calendar_events/"@ + dec(event_id@ as nat),
{
    let mut out = String::new();
    push_str(&mut out, "/calendar_events/");
    push_decimal(&mut out, event_id.get());
    assert(out@ =~= "/calendar_events/"@ + dec(event_id@ as nat));
    out
}

} // verus!
