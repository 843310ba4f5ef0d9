//! Web conferences: the inputs that create or change them, and the typed
//! requests that conference commands stand for.

use crate::cli::{course_choice, course_for, course_refusal, GlobalOptions};
use crate::dates::{timestamp_spec, EventDateTime, Timestamp};
use crate::errors::{CanvasError, CliError};
use crate::ids::{ConferenceDuration, ConferenceId, CourseId};
use crate::names::{ConferenceDescription, ConferenceTitle};
use crate::parse::{
    parse_conference_description, parse_conference_duration, parse_conference_id,
    parse_conference_title, parse_event_date_time,
};
use crate::text::{positive_id_spec, positive_u32_spec, to_owned_string, trim};
use vstd::prelude::*;

verus! {

/// When a conference starts and how long it lasts, each where given.
#[derive(Debug)]
pub struct ConferenceSchedule {
    pub start_at: Option<EventDateTime>,
    pub duration: Option<ConferenceDuration>,
}

impl ConferenceSchedule {
    /// A schedule from an optional start and an optional duration.
    pub fn new(start_at: Option<EventDateTime>, duration: Option<ConferenceDuration>) -> (r: Self)
        ensures
            r == (ConferenceSchedule { start_at, duration }),
    {
        ConferenceSchedule { start_at, duration }
    }
}

/// What creates a conference.
#[derive(Debug)]
pub struct ConferenceCreateInput {
    pub title: ConferenceTitle,
    pub description: Option<ConferenceDescription>,
    pub schedule: Option<ConferenceSchedule>,
    pub recording_enabled: Option<bool>,
}

impl ConferenceCreateInput {
    /// A conference titled `title` with the given optional fields.
    pub fn new(
        title: ConferenceTitle,
        description: Option<ConferenceDescription>,
        schedule: Option<ConferenceSchedule>,
        recording_enabled: Option<bool>,
    ) -> (r: Self)
        ensures
            r == (ConferenceCreateInput { title, description, schedule, recording_enabled }),
    {
        ConferenceCreateInput { title, description, schedule, recording_enabled }
    }
}

/// What changes a conference: at least one field.
#[derive(Debug)]
pub struct ConferenceUpdateInput {
    pub title: Option<ConferenceTitle>,
    pub description: Option<ConferenceDescription>,
    pub schedule: Option<ConferenceSchedule>,
    pub recording_enabled: Option<bool>,
}

impl ConferenceUpdateInput {
    /// A change of the given fields; at least one must be given.
    pub fn new(
        title: Option<ConferenceTitle>,
        description: Option<ConferenceDescription>,
        schedule: Option<ConferenceSchedule>,
        recording_enabled: Option<bool>,
    ) -> (r: Result<Self, CanvasError>)
        ensures
            match r {
                Ok(u) => !(title is None && description is None && schedule is None
                    && recording_enabled is None) && u == (ConferenceUpdateInput {
                    title,
                    description,
                    schedule,
                    recording_enabled,
                }),
                Err(e) => title is None && description is None && schedule is None
                    && recording_enabled is None && (e matches CanvasError::InvalidConferenceUpdate(s)
                    && s@ == "no_fields"@),
            },
    {
        if title.is_none() && description.is_none() && schedule.is_none()
            && recording_enabled.is_none() {
            return Err(CanvasError::InvalidConferenceUpdate(to_owned_string("no_fields")));
        }
        Ok(ConferenceUpdateInput { title, description, schedule, recording_enabled })
    }
}

/// A conference command as given on the command line, unvalidated; the
/// recording option is already a yes or no.
#[derive(Debug, Clone, PartialEq, Eq)]
pub enum ConferenceCommand {
    List { course: Option<String> },
    Create {
        course: Option<String>,
        title: String,
        description: Option<String>,
        start_at: Option<String>,
        duration: Option<String>,
        recording: Option<bool>,
    },
    Update {
        course: Option<String>,
        conference: String,
        title: Option<String>,
        description: Option<String>,
        start_at: Option<String>,
        duration: Option<String>,
        recording: Option<bool>,
    },
    Delete { course: Option<String>, conference: String },
}

/// A validated conference command.
#[derive(Debug)]
pub enum ConferenceRequest {
    List { course_id: CourseId },
    Create { course_id: CourseId, input: ConferenceCreateInput },
    Update { course_id: CourseId, conference_id: ConferenceId, input: ConferenceUpdateInput },
    Delete { course_id: CourseId, conference_id: ConferenceId },
}

/// The model of a conference's fields.
pub ghost struct ConferenceFields {
    pub title: Option<Seq<char>>,
    pub description: Option<Seq<char>>,
    pub start_at: Option<Timestamp>,
    pub duration: Option<u32>,
    pub recording: Option<bool>,
}

/// Why a conference's fields were refused, with the text refused.
pub ghost enum FieldRefusal {
    Title(Seq<char>),
    Description(Seq<char>),
    StartAt(Seq<char>),
    Duration(Seq<char>),
}

/// Whether `e` is the error for `f`.
pub open spec fn reports_field(f: FieldRefusal, e: CliError) -> bool {
    match f {
        FieldRefusal::Title(t) => e matches CliError::Canvas(CanvasError::InvalidConferenceTitle(s))
            && s@ == t,
        FieldRefusal::Description(t) => e matches CliError::Canvas(
            CanvasError::InvalidConferenceDescription(s),
        ) && s@ == t,
        FieldRefusal::StartAt(t) => e matches CliError::Canvas(CanvasError::InvalidEventDateTime(s))
            && s@ == t,
        FieldRefusal::Duration(t) => e matches CliError::Canvas(
            CanvasError::InvalidConferenceDuration(s),
        ) && s@ == t,
    }
}

/// The fields of a conference command, read in order: title, description,
/// start, duration.
pub open spec fn fields_spec(
    title: Option<String>,
    description: Option<String>,
    start_at: Option<String>,
    duration: Option<String>,
    recording: Option<bool>,
) -> Result<ConferenceFields, FieldRefusal> {
    let t: Result<Option<Seq<char>>, FieldRefusal> = match title {
        Some(x) => if trim(x@).len() > 0 {
            Ok(Some(trim(x@)))
        } else {
            Err(FieldRefusal::Title(x@))
        },
        None => Ok(None),
    };
    let d: Result<Option<Seq<char>>, FieldRefusal> = match description {
        Some(x) => if trim(x@).len() > 0 {
            Ok(Some(trim(x@)))
        } else {
            Err(FieldRefusal::Description(x@))
        },
        None => Ok(None),
    };
    let s: Result<Option<Timestamp>, FieldRefusal> = match start_at {
        Some(x) => match timestamp_spec(x@) {
            Some(ts) => Ok(Some(ts)),
            None => Err(FieldRefusal::StartAt(x@)),
        },
        None => Ok(None),
    };
    let n: Result<Option<u32>, FieldRefusal> = match duration {
        Some(x) => match positive_u32_spec(x@) {
            Some(v) => Ok(Some(v)),
            None => Err(FieldRefusal::Duration(x@)),
        },
        None => Ok(None),
    };
    match (t, d, s, n) {
        (Err(f), _, _, _) => Err(f),
        (Ok(_), Err(f), _, _) => Err(f),
        (Ok(_), Ok(_), Err(f), _) => Err(f),
        (Ok(_), Ok(_), Ok(_), Err(f)) => Err(f),
        (Ok(t), Ok(d), Ok(s), Ok(n)) => Ok(
            ConferenceFields { title: t, description: d, start_at: s, duration: n, recording },
        ),
    }
}

/// The model of a schedule.
pub open spec fn schedule_fields(s: Option<ConferenceSchedule>) -> (Option<Timestamp>, Option<u32>) {
    match s {
        Some(s) => (
            match s.start_at {
                Some(t) => Some(t@),
                None => None,
            },
            match s.duration {
                Some(d) => Some(d@),
                None => None,
            },
        ),
        None => (None, None),
    }
}

/// Whether an input's fields are those of the model: a schedule exactly
/// where a start or a duration is given.
pub open spec fn has_fields(
    title: Option<Seq<char>>,
    description: Option<ConferenceDescription>,
    schedule: Option<ConferenceSchedule>,
    recording_enabled: Option<bool>,
    f: ConferenceFields,
) -> bool {
    &&& title == f.title
    &&& match description {
        Some(d) => f.description == Some(d@),
        None => f.description is None,
    }
    &&& (schedule is Some <==> (f.start_at is Some || f.duration is Some))
    &&& schedule_fields(schedule) == (f.start_at, f.duration)
    &&& recording_enabled == f.recording
}

struct Fields {
    title: Option<ConferenceTitle>,
    description: Option<ConferenceDescription>,
    schedule: Option<ConferenceSchedule>,
}

fn read_fields(
    title: Option<String>,
    description: Option<String>,
    start_at: Option<String>,
    duration: Option<String>,
) -> (r: Result<Fields, CliError>)
    ensures
        match r {
            Ok(v) => fields_spec(title, description, start_at, duration, None) matches Ok(f)
                && has_fields(
                match v.title {
                    Some(t) => Some(t@),
                    None => None,
                },
                v.description,
                v.schedule,
                None,
                f,
            ),
            Err(e) => fields_spec(title, description, start_at, duration, None) matches Err(f)
                && reports_field(f, e),
        },
{
    let title = match title {
        Some(raw) => match parse_conference_title(raw.as_str()) {
            Ok(t) => Some(t),
            Err(e) => return Err(CliError::Canvas(e)),
        },
        None => None,
    };
    let description = match description {
        Some(raw) => match parse_conference_description(raw.as_str()) {
            Ok(d) => Some(d),
            Err(e) => return Err(CliError::Canvas(e)),
        },
        None => None,
    };
    let start_at = match start_at {
        Some(raw) => match parse_event_date_time(raw.as_str()) {
            Ok(t) => Some(t),
            Err(e) => return Err(CliError::Canvas(e)),
        },
        None => None,
    };
    let duration = match duration {
        Some(raw) => match parse_conference_duration(raw.as_str()) {
            Ok(d) => Some(d),
            Err(e) => return Err(CliError::Canvas(e)),
        },
        None => None,
    };
    let schedule = if start_at.is_some() || duration.is_some() {
        Some(ConferenceSchedule::new(start_at, duration))
    } else {
        None
    };
    Ok(Fields { title, description, schedule })
}

/// Whether `r` is what the conference command `command` stands for: the
/// course, then the conference id, then the fields.
pub open spec fn conference_outcome(
    command: ConferenceCommand,
    default: Option<CourseId>,
    r: Result<ConferenceRequest, CliError>,
) -> bool {
    match command {
        ConferenceCommand::List { course } => match r {
            Ok(req) => req matches ConferenceRequest::List { course_id }
                && course_choice(course, default) == Some(course_id@),
            Err(e) => course_choice(course, default) is None && course_refusal(course, e),
        },
        ConferenceCommand::Create { course, title, description, start_at, duration, recording } => {
            let spec = fields_spec(Some(title), description, start_at, duration, recording);
            match r {
                Ok(req) => req matches ConferenceRequest::Create { course_id, input }
                    && course_choice(course, default) == Some(course_id@) && (spec matches Ok(f)
                    && has_fields(
                    Some(input.title@),
                    input.description,
                    input.schedule,
                    input.recording_enabled,
                    f,
                )),
                Err(e) => if course_choice(course, default) is None {
                    course_refusal(course, e)
                } else {
                    spec matches Err(f) && reports_field(f, e)
                },
            }
        },
        ConferenceCommand::Update {
            course,
            conference,
            title,
            description,
            start_at,
            duration,
            recording,
        } => {
            let spec = fields_spec(title, description, start_at, duration, recording);
            match r {
                Ok(req) => req matches ConferenceRequest::Update { course_id, conference_id, input }
                    && course_choice(course, default) == Some(course_id@) && positive_id_spec(
                    conference@,
                ) == Some(conference_id@) && (spec matches Ok(f) && has_fields(
                    match input.title {
                        Some(t) => Some(t@),
                        None => None,
                    },
                    input.description,
                    input.schedule,
                    input.recording_enabled,
                    f,
                ) && !(f.title is None && f.description is None && f.start_at is None
                    && f.duration is None && f.recording is None)),
                Err(e) => if course_choice(course, default) is None {
                    course_refusal(course, e)
                } else if positive_id_spec(conference@) is None {
                    e matches CliError::Canvas(CanvasError::InvalidConferenceId(s)) && s@
                        == conference@
                } else {
                    match spec {
                        Err(f) => reports_field(f, e),
                        Ok(f) => f.title is None && f.description is None && f.start_at is None
                            && f.duration is None && f.recording is None && (e matches CliError::Canvas(
                            CanvasError::InvalidConferenceUpdate(s),
                        ) && s@ == "no_fields"@),
                    }
                },
            }
        },
        ConferenceCommand::Delete { course, conference } => match r {
            Ok(req) => req matches ConferenceRequest::Delete { course_id, conference_id }
                && course_choice(course, default) == Some(course_id@) && positive_id_spec(
                conference@,
            ) == Some(conference_id@),
            Err(e) => if course_choice(course, default) is None {
                course_refusal(course, e)
            } else {
                positive_id_spec(conference@) is None && (e matches CliError::Canvas(
                    CanvasError::InvalidConferenceId(s),
                ) && s@ == conference@)
            },
        },
    }
}

/// The validated request that a conference command stands for.
pub fn conference_request(command: ConferenceCommand, global: &GlobalOptions) -> (r: Result<
    ConferenceRequest,
    CliError,
>)
    ensures
        conference_outcome(command, global.course, r),
{
    match command {
        ConferenceCommand::List { course } => {
            let course_id = course_for(course, global)?;
            Ok(ConferenceRequest::List { course_id })
        },
        ConferenceCommand::Create { course, title, description, start_at, duration, recording } => {
            let course_id = course_for(course, global)?;
            let title = match parse_conference_title(title.as_str()) {
                Ok(t) => t,
                Err(e) => return Err(CliError::Canvas(e)),
            };
            let fields = read_fields(None, description, start_at, duration)?;
            let input = ConferenceCreateInput::new(
                title,
                fields.description,
                fields.schedule,
                recording,
            );
            Ok(ConferenceRequest::Create { course_id, input })
        },
        ConferenceCommand::Update {
            course,
            conference,
            title,
            description,
            start_at,
            duration,
            recording,
        } => {
            let course_id = course_for(course, global)?;
            let conference_id = match parse_conference_id(conference.as_str()) {
                Ok(id) => id,
                Err(e) => return Err(CliError::Canvas(e)),
            };
            let fields = read_fields(title, description, start_at, duration)?;
            match ConferenceUpdateInput::new(
                fields.title,
                fields.description,
                fields.schedule,
                recording,
            ) {
                Ok(input) => Ok(ConferenceRequest::Update { course_id, conference_id, input }),
                Err(e) => Err(CliError::Canvas(e)),
            }
        },
        ConferenceCommand::Delete { course, conference } => {
            let course_id = course_for(course, global)?;
            match parse_conference_id(conference.as_str()) {
                Ok(conference_id) => Ok(ConferenceRequest::Delete { course_id, conference_id }),
                Err(e) => Err(CliError::Canvas(e)),
            }
        },
    }
}

} // verus!
