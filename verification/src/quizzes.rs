//! Quizzes: the inputs that create or change them, and the typed requests
//! that quiz commands stand for.
//!
//! A quiz's points are a decimal number, read by the caller before the
//! command is validated: the command holds, for each points text, either
//! the value read (of the caller's type `P`) or the text refused. The
//! fields are then checked in the order the command line gives them, so a
//! refused points text is reported in its place among the other fields.

use crate::cli::{course_choice, course_for, course_refusal, date_input, date_option, GlobalOptions};
use crate::combine::parse_quiz_availability;
use crate::dates::{DueDate, Timestamp};
use crate::errors::{CanvasError, CliError};
use crate::ids::{CourseId, QuizId, QuizTimeLimit};
use crate::kinds::{publish_state_named, PublishState};
use crate::names::{QuizAccessCode, QuizTitle};
use crate::parse::{
    parse_publish_state, parse_quiz_access_code, parse_quiz_id, parse_quiz_time_limit,
    parse_quiz_title,
};
use crate::requests::{
    bad_quiz, quiz_submission_outcome, quiz_submission_request, QuizSubmissionCommand,
    QuizSubmissionRequest,
};
use crate::text::{lower, positive_id_spec, positive_u32_spec, to_owned_string, trim};
use crate::windows::{
    availability_fields, quiz_window_error, stamp_text, text_of, view_of, DateWindow,
    QuizAvailability,
};
use vstd::prelude::*;

verus! {

/// What creates a quiz; `P` is the type of its points.
#[derive(Debug, Clone)]
pub struct QuizCreateInput<P> {
    pub title: QuizTitle,
    pub points_possible: Option<P>,
    pub publish_state: Option<PublishState>,
    pub time_limit: Option<QuizTimeLimit>,
    pub access_code: Option<QuizAccessCode>,
    pub availability: Option<QuizAvailability>,
}

impl<P> QuizCreateInput<P> {
    /// A quiz titled `title` with the given settings.
    pub fn new(
        title: QuizTitle,
        points_possible: Option<P>,
        publish_state: Option<PublishState>,
        time_limit: Option<QuizTimeLimit>,
        access_code: Option<QuizAccessCode>,
        availability: Option<QuizAvailability>,
    ) -> (r: Self)
        ensures
            r == (QuizCreateInput {
                title,
                points_possible,
                publish_state,
                time_limit,
                access_code,
                availability,
            }),
    {
        QuizCreateInput { title, points_possible, publish_state, time_limit, access_code, availability }
    }
}

/// What changes a quiz: at least one field.
#[derive(Debug, Clone)]
pub struct QuizUpdateInput<P> {
    pub title: Option<QuizTitle>,
    pub points_possible: Option<P>,
    pub publish_state: Option<PublishState>,
    pub time_limit: Option<QuizTimeLimit>,
    pub access_code: Option<QuizAccessCode>,
    pub availability: Option<QuizAvailability>,
}

/// Whether none of a quiz change's fields is given.
pub open spec fn no_quiz_change<P>(
    title: Option<QuizTitle>,
    points_possible: Option<P>,
    publish_state: Option<PublishState>,
    time_limit: Option<QuizTimeLimit>,
    access_code: Option<QuizAccessCode>,
    availability: Option<QuizAvailability>,
) -> bool {
    &&& title is None
    &&& points_possible is None
    &&& publish_state is None
    &&& time_limit is None
    &&& access_code is None
    &&& availability is None
}

impl<P> QuizUpdateInput<P> {
    /// A change of the given fields; at least one must be given.
    pub fn new(
        title: Option<QuizTitle>,
        points_possible: Option<P>,
        publish_state: Option<PublishState>,
        time_limit: Option<QuizTimeLimit>,
        access_code: Option<QuizAccessCode>,
        availability: Option<QuizAvailability>,
    ) -> (r: Result<Self, CanvasError>)
        ensures
            match r {
                Ok(u) => !no_quiz_change(
                    title,
                    points_possible,
                    publish_state,
                    time_limit,
                    access_code,
                    availability,
                ) && u == (QuizUpdateInput {
                    title,
                    points_possible,
                    publish_state,
                    time_limit,
                    access_code,
                    availability,
                }),
                Err(e) => no_quiz_change(
                    title,
                    points_possible,
                    publish_state,
                    time_limit,
                    access_code,
                    availability,
                ) && (e matches CanvasError::InvalidQuizUpdate(s) && s@ == "no_fields"@),
            },
    {
        if title.is_none() && points_possible.is_none() && publish_state.is_none()
            && time_limit.is_none() && access_code.is_none() && availability.is_none() {
            return Err(CanvasError::InvalidQuizUpdate(to_owned_string("no_fields")));
        }
        Ok(QuizUpdateInput { title, points_possible, publish_state, time_limit, access_code, availability })
    }
}

/// A quiz command as given on the command line, unvalidated, with each
/// points text already read: `Ok` holds the value, `Err` the refused text.
#[derive(Debug, Clone)]
pub enum QuizCommand<P> {
    List { course: Option<String> },
    Create {
        course: Option<String>,
        title: String,
        points: Option<Result<P, String>>,
        time_limit: Option<String>,
        access_code: Option<String>,
        unlock_at: Option<String>,
        due_at: Option<String>,
        lock_at: Option<String>,
        publish_state: Option<String>,
    },
    Update {
        course: Option<String>,
        quiz: String,
        title: Option<String>,
        points: Option<Result<P, String>>,
        time_limit: Option<String>,
        access_code: Option<String>,
        unlock_at: Option<String>,
        due_at: Option<String>,
        lock_at: Option<String>,
        publish_state: Option<String>,
    },
    Delete { course: Option<String>, quiz: String },
    Publish { course: Option<String>, quiz: String, publish_state: String },
    Submission { command: QuizSubmissionCommand },
}

/// A validated quiz command.
#[derive(Debug, Clone)]
pub enum QuizRequest<P> {
    List { course_id: CourseId },
    Create { course_id: CourseId, input: QuizCreateInput<P> },
    Update { course_id: CourseId, quiz_id: QuizId, input: QuizUpdateInput<P> },
    Delete { course_id: CourseId, quiz_id: QuizId },
    Publish { course_id: CourseId, quiz_id: QuizId, publish_state: PublishState },
    Submission(QuizSubmissionRequest),
}

/// The model of a quiz's fields.
pub ghost struct QuizFields<P> {
    pub title: Option<Seq<char>>,
    pub points: Option<P>,
    pub time_limit: Option<u32>,
    pub access_code: Option<Seq<char>>,
    pub window: Option<DateWindow>,
    pub publish_state: Option<PublishState>,
}

/// Why a quiz's fields were refused, with the text refused.
pub ghost enum QuizRefusal {
    Title(Seq<char>),
    Points(Seq<char>),
    TimeLimit(Seq<char>),
    AccessCode(Seq<char>),
    Date(Seq<char>),
    Window,
    PublishState(Seq<char>),
}

/// Whether `e` is the error for `f`.
pub open spec fn reports_quiz(f: QuizRefusal, e: CliError) -> bool {
    match f {
        QuizRefusal::Title(t) => e matches CliError::Canvas(CanvasError::InvalidQuizTitle(s)) && s@
            == t,
        QuizRefusal::Points(t) => e matches CliError::Canvas(CanvasError::InvalidPointsPossible(s))
            && s@ == t,
        QuizRefusal::TimeLimit(t) => e matches CliError::Canvas(CanvasError::InvalidQuizTimeLimit(s))
            && s@ == t,
        QuizRefusal::AccessCode(t) => e matches CliError::Canvas(
            CanvasError::InvalidQuizAccessCode(s),
        ) && s@ == t,
        QuizRefusal::Date(t) => e matches CliError::Canvas(CanvasError::InvalidDueDate(s)) && s@
            == t,
        QuizRefusal::Window => e matches CliError::Canvas(CanvasError::InvalidQuizAvailability(s))
            && s@ == "invalid_window"@,
        QuizRefusal::PublishState(t) => e matches CliError::Canvas(
            CanvasError::InvalidPublishState(s),
        ) && s@ == t,
    }
}

/// Whether both dates are present and the first is strictly later.
pub open spec fn stamp_after(a: Option<Timestamp>, b: Option<Timestamp>) -> bool {
    &&& a is Some
    &&& b is Some
    &&& a->0.instant > b->0.instant
}

/// The window of a quiz's dates: none where no date is given; refused where
/// a date is later than one after it.
pub open spec fn quiz_window_spec(
    unlock: Option<Timestamp>,
    due: Option<Timestamp>,
    lock: Option<Timestamp>,
) -> Result<Option<DateWindow>, QuizRefusal> {
    if unlock is None && due is None && lock is None {
        Ok(None)
    } else if stamp_after(unlock, due) || stamp_after(unlock, lock) || stamp_after(due, lock) {
        Err(QuizRefusal::Window)
    } else {
        Ok(Some(DateWindow { unlock, due, lock }))
    }
}

/// A quiz's title where given; `Err` carries the refused text.
pub open spec fn quiz_title_spec(title: Option<String>) -> Result<Option<Seq<char>>, QuizRefusal> {
    match title {
        Some(x) => if trim(x@).len() > 0 {
            Ok(Some(trim(x@)))
        } else {
            Err(QuizRefusal::Title(x@))
        },
        None => Ok(None),
    }
}

/// A quiz's points where given; `Err` carries the refused text.
pub open spec fn quiz_points_spec<P>(points: Option<Result<P, String>>) -> Result<
    Option<P>,
    QuizRefusal,
> {
    match points {
        Some(Ok(p)) => Ok(Some(p)),
        Some(Err(t)) => Err(QuizRefusal::Points(t@)),
        None => Ok(None),
    }
}

/// A quiz's time limit where given; `Err` carries the refused text.
pub open spec fn quiz_limit_spec(time_limit: Option<String>) -> Result<Option<u32>, QuizRefusal> {
    match time_limit {
        Some(x) => match positive_u32_spec(x@) {
            Some(v) => Ok(Some(v)),
            None => Err(QuizRefusal::TimeLimit(x@)),
        },
        None => Ok(None),
    }
}

/// A quiz's access code where given; `Err` carries the refused text.
pub open spec fn quiz_code_spec(access_code: Option<String>) -> Result<
    Option<Seq<char>>,
    QuizRefusal,
> {
    match access_code {
        Some(x) => if trim(x@).len() > 0 {
            Ok(Some(trim(x@)))
        } else {
            Err(QuizRefusal::AccessCode(x@))
        },
        None => Ok(None),
    }
}

/// A quiz's publish state where given; `Err` carries the refused text.
pub open spec fn quiz_state_spec(publish_state: Option<String>) -> Result<
    Option<PublishState>,
    QuizRefusal,
> {
    match publish_state {
        Some(x) => match publish_state_named(lower(trim(x@))) {
            Some(v) => Ok(Some(v)),
            None => Err(QuizRefusal::PublishState(x@)),
        },
        None => Ok(None),
    }
}

/// A quiz's dates and window: the unlock, due and lock dates in that order,
/// then the window they form.
pub open spec fn quiz_dates_spec(
    unlock_at: Option<String>,
    due_at: Option<String>,
    lock_at: Option<String>,
) -> Result<Option<DateWindow>, QuizRefusal> {
    match (date_option(unlock_at), date_option(due_at), date_option(lock_at)) {
        (Err(t), _, _) => Err(QuizRefusal::Date(t)),
        (Ok(_), Err(t), _) => Err(QuizRefusal::Date(t)),
        (Ok(_), Ok(_), Err(t)) => Err(QuizRefusal::Date(t)),
        (Ok(u), Ok(d), Ok(l)) => quiz_window_spec(u, d, l),
    }
}

/// The fields of a quiz command, read in order: title, points, time limit,
/// access code, the dates and their window, and the publish state.
pub open spec fn quiz_fields_spec<P>(
    title: Option<String>,
    points: Option<Result<P, String>>,
    time_limit: Option<String>,
    access_code: Option<String>,
    unlock_at: Option<String>,
    due_at: Option<String>,
    lock_at: Option<String>,
    publish_state: Option<String>,
) -> Result<QuizFields<P>, QuizRefusal> {
    match quiz_title_spec(title) {
        Err(f) => Err(f),
        Ok(t) => match quiz_points_spec(points) {
            Err(f) => Err(f),
            Ok(p) => match quiz_limit_spec(time_limit) {
                Err(f) => Err(f),
                Ok(l) => match quiz_code_spec(access_code) {
                    Err(f) => Err(f),
                    Ok(c) => match quiz_dates_spec(unlock_at, due_at, lock_at) {
                        Err(f) => Err(f),
                        Ok(w) => match quiz_state_spec(publish_state) {
                            Err(f) => Err(f),
                            Ok(s) => Ok(
                                QuizFields {
                                    title: t,
                                    points: p,
                                    time_limit: l,
                                    access_code: c,
                                    window: w,
                                    publish_state: s,
                                },
                            ),
                        },
                    },
                },
            },
        },
    }
}

/// The text of an optional title.
pub open spec fn quiz_title_text(t: Option<QuizTitle>) -> Option<Seq<char>> {
    match t {
        Some(t) => Some(t@),
        None => None,
    }
}

/// The minutes of an optional time limit.
pub open spec fn limit_minutes(l: Option<QuizTimeLimit>) -> Option<u32> {
    match l {
        Some(l) => Some(l@),
        None => None,
    }
}

/// The text of an optional access code.
pub open spec fn code_text(c: Option<QuizAccessCode>) -> Option<Seq<char>> {
    match c {
        Some(c) => Some(c@),
        None => None,
    }
}

/// The window of an optional availability.
pub open spec fn window_view(a: Option<QuizAvailability>) -> Option<DateWindow> {
    match a {
        Some(a) => Some(a@),
        None => None,
    }
}

/// The fields of a quiz as validated values.
pub struct QuizFieldValues<P> {
    pub title: Option<QuizTitle>,
    pub points: Option<P>,
    pub time_limit: Option<QuizTimeLimit>,
    pub access_code: Option<QuizAccessCode>,
    pub availability: Option<QuizAvailability>,
    pub publish_state: Option<PublishState>,
}

/// The model of validated quiz fields.
pub open spec fn fields_view<P>(v: QuizFieldValues<P>) -> QuizFields<P> {
    QuizFields {
        title: quiz_title_text(v.title),
        points: v.points,
        time_limit: limit_minutes(v.time_limit),
        access_code: code_text(v.access_code),
        window: window_view(v.availability),
        publish_state: v.publish_state,
    }
}

fn read_title(title: Option<String>) -> (r: Result<Option<QuizTitle>, CliError>)
    ensures
        match r {
            Ok(t) => quiz_title_spec(title) == Ok::<Option<Seq<char>>, QuizRefusal>(
                quiz_title_text(t),
            ),
            Err(e) => quiz_title_spec(title) matches Err(f) && reports_quiz(f, e),
        },
{
    match title {
        Some(raw) => match parse_quiz_title(raw.as_str()) {
            Ok(t) => Ok(Some(t)),
            Err(e) => Err(CliError::Canvas(e)),
        },
        None => Ok(None),
    }
}

fn read_points<P>(points: Option<Result<P, String>>) -> (r: Result<Option<P>, CliError>)
    ensures
        match r {
            Ok(p) => quiz_points_spec(points) == Ok::<Option<P>, QuizRefusal>(p),
            Err(e) => quiz_points_spec(points) matches Err(f) && reports_quiz(f, e),
        },
{
    match points {
        Some(Ok(p)) => Ok(Some(p)),
        Some(Err(raw)) => Err(CliError::Canvas(CanvasError::InvalidPointsPossible(raw))),
        None => Ok(None),
    }
}

fn read_limit(time_limit: Option<String>) -> (r: Result<Option<QuizTimeLimit>, CliError>)
    ensures
        match r {
            Ok(l) => quiz_limit_spec(time_limit) == Ok::<Option<u32>, QuizRefusal>(
                limit_minutes(l),
            ),
            Err(e) => quiz_limit_spec(time_limit) matches Err(f) && reports_quiz(f, e),
        },
{
    match time_limit {
        Some(raw) => match parse_quiz_time_limit(raw.as_str()) {
            Ok(l) => Ok(Some(l)),
            Err(e) => Err(CliError::Canvas(e)),
        },
        None => Ok(None),
    }
}

fn read_code(access_code: Option<String>) -> (r: Result<Option<QuizAccessCode>, CliError>)
    ensures
        match r {
            Ok(c) => quiz_code_spec(access_code) == Ok::<Option<Seq<char>>, QuizRefusal>(
                code_text(c),
            ),
            Err(e) => quiz_code_spec(access_code) matches Err(f) && reports_quiz(f, e),
        },
{
    match access_code {
        Some(raw) => match parse_quiz_access_code(raw.as_str()) {
            Ok(c) => Ok(Some(c)),
            Err(e) => Err(CliError::Canvas(e)),
        },
        None => Ok(None),
    }
}

fn read_dates(unlock_at: Option<String>, due_at: Option<String>, lock_at: Option<String>) -> (r:
    Result<Option<QuizAvailability>, CliError>)
    ensures
        match r {
            Ok(a) => quiz_dates_spec(unlock_at, due_at, lock_at) == Ok::<
                Option<DateWindow>,
                QuizRefusal,
            >(window_view(a)),
            Err(e) => quiz_dates_spec(unlock_at, due_at, lock_at) matches Err(f) && reports_quiz(
                f,
                e,
            ),
        },
{
    let unlock: Option<DueDate> = date_input(unlock_at)?;
    let due: Option<DueDate> = date_input(due_at)?;
    let lock: Option<DueDate> = date_input(lock_at)?;
    let ghost u = view_of(unlock);
    let ghost d = view_of(due);
    let ghost l = view_of(lock);
    assert(quiz_window_error(unlock, due, lock) is Some <==> (stamp_after(u, d) || stamp_after(u, l)
        || stamp_after(d, l)));
    match parse_quiz_availability(unlock, due, lock) {
        Ok(a) => Ok(a),
        Err(e) => Err(CliError::Canvas(e)),
    }
}

fn read_state(publish_state: Option<String>) -> (r: Result<Option<PublishState>, CliError>)
    ensures
        match r {
            Ok(p) => quiz_state_spec(publish_state) == Ok::<Option<PublishState>, QuizRefusal>(p),
            Err(e) => quiz_state_spec(publish_state) matches Err(f) && reports_quiz(f, e),
        },
{
    match publish_state {
        Some(raw) => match parse_publish_state(raw.as_str()) {
            Ok(p) => Ok(Some(p)),
            Err(e) => Err(CliError::Canvas(e)),
        },
        None => Ok(None),
    }
}

/// The fields of a quiz command, validated in the order the command line
/// gives them.
pub fn read_quiz_fields<P>(
    title: Option<String>,
    points: Option<Result<P, String>>,
    time_limit: Option<String>,
    access_code: Option<String>,
    unlock_at: Option<String>,
    due_at: Option<String>,
    lock_at: Option<String>,
    publish_state: Option<String>,
) -> (r: Result<QuizFieldValues<P>, CliError>)
    ensures
        match r {
            Ok(v) => quiz_fields_spec(
                title,
                points,
                time_limit,
                access_code,
                unlock_at,
                due_at,
                lock_at,
                publish_state,
            ) == Ok::<QuizFields<P>, QuizRefusal>(fields_view(v)),
            Err(e) => quiz_fields_spec(
                title,
                points,
                time_limit,
                access_code,
                unlock_at,
                due_at,
                lock_at,
                publish_state,
            ) matches Err(f) && reports_quiz(f, e),
        },
{
    let title = read_title(title)?;
    let points = read_points(points)?;
    let time_limit = read_limit(time_limit)?;
    let access_code = read_code(access_code)?;
    let availability = read_dates(unlock_at, due_at, lock_at)?;
    let publish_state = read_state(publish_state)?;
    Ok(QuizFieldValues { title, points, time_limit, access_code, availability, publish_state })
}

/// Whether the model of a quiz change has no field.
pub open spec fn fields_empty<P>(f: QuizFields<P>) -> bool {
    &&& f.title is None
    &&& f.points is None
    &&& f.time_limit is None
    &&& f.access_code is None
    &&& f.window is None
    &&& f.publish_state is None
}

/// Whether `r` is what the quiz command `command` stands for: the course
/// first, then the quiz, then the fields in order.
pub open spec fn quiz_outcome<P>(
    command: QuizCommand<P>,
    default: Option<CourseId>,
    r: Result<QuizRequest<P>, CliError>,
) -> bool {
    match command {
        QuizCommand::List { course } => match r {
            Ok(req) => req matches QuizRequest::List { course_id }
                && course_choice(course, default) == Some(course_id@),
            Err(e) => course_choice(course, default) is None && course_refusal(course, e),
        },
        QuizCommand::Create {
            course,
            title,
            points,
            time_limit,
            access_code,
            unlock_at,
            due_at,
            lock_at,
            publish_state,
        } => {
            let spec = quiz_fields_spec(
                Some(title),
                points,
                time_limit,
                access_code,
                unlock_at,
                due_at,
                lock_at,
                publish_state,
            );
            match r {
                Ok(req) => req matches QuizRequest::Create { course_id, input }
                    && course_choice(course, default) == Some(course_id@) && spec == Ok::<
                    QuizFields<P>,
                    QuizRefusal,
                >(
                    QuizFields {
                        title: Some(input.title@),
                        points: input.points_possible,
                        time_limit: limit_minutes(input.time_limit),
                        access_code: code_text(input.access_code),
                        window: window_view(input.availability),
                        publish_state: input.publish_state,
                    },
                ),
                Err(e) => if course_choice(course, default) is None {
                    course_refusal(course, e)
                } else {
                    spec matches Err(f) && reports_quiz(f, e)
                },
            }
        },
        QuizCommand::Update {
            course,
            quiz,
            title,
            points,
            time_limit,
            access_code,
            unlock_at,
            due_at,
            lock_at,
            publish_state,
        } => {
            let spec = quiz_fields_spec(
                title,
                points,
                time_limit,
                access_code,
                unlock_at,
                due_at,
                lock_at,
                publish_state,
            );
            match r {
                Ok(req) => req matches QuizRequest::Update { course_id, quiz_id, input }
                    && course_choice(course, default) == Some(course_id@) && positive_id_spec(
                    quiz@,
                ) == Some(quiz_id@) && spec == Ok::<QuizFields<P>, QuizRefusal>(
                    QuizFields {
                        title: quiz_title_text(input.title),
                        points: input.points_possible,
                        time_limit: limit_minutes(input.time_limit),
                        access_code: code_text(input.access_code),
                        window: window_view(input.availability),
                        publish_state: input.publish_state,
                    },
                ) && !fields_empty(spec->Ok_0),
                Err(e) => if course_choice(course, default) is None {
                    course_refusal(course, e)
                } else if positive_id_spec(quiz@) is None {
                    bad_quiz(quiz, e)
                } else {
                    match spec {
                        Err(f) => reports_quiz(f, e),
                        Ok(f) => fields_empty(f) && (e matches CliError::Canvas(
                            CanvasError::InvalidQuizUpdate(s),
                        ) && s@ == "no_fields"@),
                    }
                },
            }
        },
        QuizCommand::Delete { course, quiz } => match r {
            Ok(req) => req matches QuizRequest::Delete { course_id, quiz_id }
                && course_choice(course, default) == Some(course_id@) && positive_id_spec(quiz@)
                == Some(quiz_id@),
            Err(e) => if course_choice(course, default) is None {
                course_refusal(course, e)
            } else {
                bad_quiz(quiz, e)
            },
        },
        QuizCommand::Publish { course, quiz, publish_state } => match r {
            Ok(req) => req matches QuizRequest::Publish { course_id, quiz_id, publish_state: p }
                && course_choice(course, default) == Some(course_id@) && positive_id_spec(quiz@)
                == Some(quiz_id@) && publish_state_named(lower(trim(publish_state@))) == Some(p),
            Err(e) => if course_choice(course, default) is None {
                course_refusal(course, e)
            } else if positive_id_spec(quiz@) is None {
                bad_quiz(quiz, e)
            } else {
                publish_state_named(lower(trim(publish_state@))) is None && (e matches CliError::Canvas(
                    CanvasError::InvalidPublishState(s),
                ) && s@ == publish_state@)
            },
        },
        QuizCommand::Submission { command } => match r {
            Ok(QuizRequest::Submission(s)) => quiz_submission_outcome(
                command,
                default,
                Ok::<QuizSubmissionRequest, CliError>(s),
            ),
            Ok(_) => false,
            Err(e) => quiz_submission_outcome(command, default, Err::<QuizSubmissionRequest, CliError>(e)),
        },
    }
}

fn read_quiz_id(quiz: String) -> (r: Result<QuizId, CliError>)
    ensures
        match r {
            Ok(q) => positive_id_spec(quiz@) == Some(q@),
            Err(e) => bad_quiz(quiz, e),
        },
{
    match parse_quiz_id(quiz.as_str()) {
        Ok(q) => Ok(q),
        Err(e) => Err(CliError::Canvas(e)),
    }
}

/// The validated request that a quiz command stands for.
pub fn quiz_request<P>(command: QuizCommand<P>, global: &GlobalOptions) -> (r: Result<
    QuizRequest<P>,
    CliError,
>)
    ensures
        quiz_outcome(command, global.course, r),
{
    match command {
        QuizCommand::List { course } => {
            let course_id = course_for(course, global)?;
            Ok(QuizRequest::List { course_id })
        },
        QuizCommand::Create {
            course,
            title,
            points,
            time_limit,
            access_code,
            unlock_at,
            due_at,
            lock_at,
            publish_state,
        } => {
            let course_id = course_for(course, global)?;
            let title = match parse_quiz_title(title.as_str()) {
                Ok(t) => t,
                Err(e) => return Err(CliError::Canvas(e)),
            };
            let fields = read_quiz_fields(
                None,
                points,
                time_limit,
                access_code,
                unlock_at,
                due_at,
                lock_at,
                publish_state,
            )?;
            let input = QuizCreateInput::new(
                title,
                fields.points,
                fields.publish_state,
                fields.time_limit,
                fields.access_code,
                fields.availability,
            );
            Ok(QuizRequest::Create { course_id, input })
        },
        QuizCommand::Update {
            course,
            quiz,
            title,
            points,
            time_limit,
            access_code,
            unlock_at,
            due_at,
            lock_at,
            publish_state,
        } => {
            let course_id = course_for(course, global)?;
            let quiz_id = read_quiz_id(quiz)?;
            let fields = read_quiz_fields(
                title,
                points,
                time_limit,
                access_code,
                unlock_at,
                due_at,
                lock_at,
                publish_state,
            )?;
            match QuizUpdateInput::new(
                fields.title,
                fields.points,
                fields.publish_state,
                fields.time_limit,
                fields.access_code,
                fields.availability,
            ) {
                Ok(input) => Ok(QuizRequest::Update { course_id, quiz_id, input }),
                Err(e) => Err(CliError::Canvas(e)),
            }
        },
        QuizCommand::Delete { course, quiz } => {
            let course_id = course_for(course, global)?;
            let quiz_id = read_quiz_id(quiz)?;
            Ok(QuizRequest::Delete { course_id, quiz_id })
        },
        QuizCommand::Publish { course, quiz, publish_state } => {
            let course_id = course_for(course, global)?;
            let quiz_id = read_quiz_id(quiz)?;
            match parse_publish_state(publish_state.as_str()) {
                Ok(p) => Ok(QuizRequest::Publish { course_id, quiz_id, publish_state: p }),
                Err(e) => Err(CliError::Canvas(e)),
            }
        },
        QuizCommand::Submission { command } => {
            let request = quiz_submission_request(command, global)?;
            Ok(QuizRequest::Submission(request))
        },
    }
}

/// Whether a quiz or an assignment is published, where a publish state is
/// given.
pub open spec fn published_of(p: Option<PublishState>) -> Option<bool> {
    match p {
        Some(PublishState::Published) => Some(true),
        Some(PublishState::Unpublished) => Some(false),
        None => None,
    }
}

/// The unlock, due and lock date texts of an optional quiz window.
pub open spec fn window_texts(a: Option<QuizAvailability>) -> (
    Option<Seq<char>>,
    Option<Seq<char>>,
    Option<Seq<char>>,
) {
    match a {
        Some(a) => (stamp_text(a@.unlock), stamp_text(a@.due), stamp_text(a@.lock)),
        None => (None, None, None),
    }
}

/// Whether a quiz or an assignment is published, where a publish state is
/// given.
pub fn published_flag(p: Option<PublishState>) -> (r: Option<bool>)
    ensures
        r == published_of(p),
{
    match p {
        Some(PublishState::Published) => Some(true),
        Some(PublishState::Unpublished) => Some(false),
        None => None,
    }
}

fn code_string(c: &Option<QuizAccessCode>) -> (r: Option<String>)
    ensures
        text_of(r) == code_text(*c),
{
    match c {
        Some(c) => Some(to_owned_string(c.as_str())),
        None => None,
    }
}

fn minutes_of(l: Option<QuizTimeLimit>) -> (r: Option<u32>)
    ensures
        r == limit_minutes(l),
{
    match l {
        Some(l) => Some(l.minutes()),
        None => None,
    }
}

/// The form fields that create a quiz: the values as they are sent.
#[derive(Debug, Clone)]
pub struct QuizCreateForm<P> {
    pub title: String,
    pub points_possible: Option<P>,
    pub published: Option<bool>,
    pub time_limit: Option<u32>,
    pub access_code: Option<String>,
    pub unlock_at: Option<String>,
    pub due_at: Option<String>,
    pub lock_at: Option<String>,
}

impl<P: Copy> QuizCreateForm<P> {
    /// The form of a quiz's creation: each field as sent, the window's dates
    /// as their texts.
    pub fn from_input(input: &QuizCreateInput<P>) -> (r: Self)
        ensures
            r.title@ == input.title@,
            r.points_possible == input.points_possible,
            r.published == published_of(input.publish_state),
            r.time_limit == limit_minutes(input.time_limit),
            text_of(r.access_code) == code_text(input.access_code),
            (text_of(r.unlock_at), text_of(r.due_at), text_of(r.lock_at)) == window_texts(
                input.availability,
            ),
    {
        let (unlock_at, due_at, lock_at) = availability_fields(input.availability.as_ref());
        QuizCreateForm {
            title: to_owned_string(input.title.as_str()),
            points_possible: input.points_possible,
            published: published_flag(input.publish_state),
            time_limit: minutes_of(input.time_limit),
            access_code: code_string(&input.access_code),
            unlock_at,
            due_at,
            lock_at,
        }
    }
}

/// The form fields that change a quiz: the values given, as they are sent.
#[derive(Debug, Clone)]
pub struct QuizUpdateForm<P> {
    pub title: Option<String>,
    pub points_possible: Option<P>,
    pub published: Option<bool>,
    pub time_limit: Option<u32>,
    pub access_code: Option<String>,
    pub unlock_at: Option<String>,
    pub due_at: Option<String>,
    pub lock_at: Option<String>,
}

impl<P: Copy> QuizUpdateForm<P> {
    /// The form of a quiz's change: each field given as sent, the window's
    /// dates as their texts.
    pub fn from_input(input: &QuizUpdateInput<P>) -> (r: Self)
        ensures
            text_of(r.title) == quiz_title_text(input.title),
            r.points_possible == input.points_possible,
            r.published == published_of(input.publish_state),
            r.time_limit == limit_minutes(input.time_limit),
            text_of(r.access_code) == code_text(input.access_code),
            (text_of(r.unlock_at), text_of(r.due_at), text_of(r.lock_at)) == window_texts(
                input.availability,
            ),
    {
        let (unlock_at, due_at, lock_at) = availability_fields(input.availability.as_ref());
        let title = match &input.title {
            Some(t) => Some(to_owned_string(t.as_str())),
            None => None,
        };
        QuizUpdateForm {
            title,
            points_possible: input.points_possible,
            published: published_flag(input.publish_state),
            time_limit: minutes_of(input.time_limit),
            access_code: code_string(&input.access_code),
            unlock_at,
            due_at,
            lock_at,
        }
    }
}

} // verus!
