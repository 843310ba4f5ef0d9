//! Assignments: the inputs that create or change them, their peer review,
//! group and override settings, and the typed requests that assignment
//! commands stand for.
//!
//! As for quizzes, an assignment's points are a decimal number read by the
//! caller: the command holds the value read (of the caller's type `P`) or
//! the text refused, and the fields are checked in the order the command
//! line gives them. The overrides document is read by the caller too, and
//! handed over as a [`DocumentSource`].

use crate::cli::{
    course_choice, course_for, course_refusal, date_input, date_option, group_input_spec,
    group_model, parse_group_assignment_settings_input, parse_peer_review_settings_input,
    reports_group, reports_review, review_input_spec, GlobalOptions, GroupModel, GroupRefusal,
    ReviewRefusal,
};
use crate::dates::{DueDate, Timestamp};
use crate::errors::{CanvasError, CliError};
use crate::ids::{AssignmentId, CourseId};
use crate::json::{
    json_document, override_model, overrides_spec, parse_assignment_overrides, reports, DocumentRefusal,
    DocumentSource, OverrideModel,
};
use crate::kinds::{publish_state_named, PublishState};
use crate::names::AssignmentName;
use crate::parse::{parse_assignment_id, parse_assignment_name, parse_publish_state};
use crate::text::{lower, positive_id_spec, to_owned_string, trim};
use crate::windows::{
    view_of, AssignmentOverride, AssignmentOverrides, GroupAssignmentSettings, PeerReviewSettings,
    PeerReviewView, stamp_text, text_of,
};
use crate::quizzes::{published_flag, published_of};
use vstd::prelude::*;

verus! {

/// What creates an assignment; `P` is the type of its points.
#[derive(Debug, Clone)]
pub struct AssignmentCreateInput<P> {
    pub name: AssignmentName,
    pub points_possible: Option<P>,
    pub due_at: Option<DueDate>,
    pub publish_state: Option<PublishState>,
}

impl<P> AssignmentCreateInput<P> {
    /// An assignment named `name` with the given settings.
    pub fn new(
        name: AssignmentName,
        points_possible: Option<P>,
        due_at: Option<DueDate>,
        publish_state: Option<PublishState>,
    ) -> (r: Self)
        ensures
            r == (AssignmentCreateInput { name, points_possible, due_at, publish_state }),
    {
        AssignmentCreateInput { name, points_possible, due_at, publish_state }
    }
}

/// What changes an assignment's own fields.
#[derive(Debug, Clone)]
pub struct AssignmentUpdateInput<P> {
    pub name: Option<AssignmentName>,
    pub points_possible: Option<P>,
    pub due_at: Option<DueDate>,
    pub publish_state: Option<PublishState>,
}

impl<P> AssignmentUpdateInput<P> {
    /// A change of the given fields; at least one must be given.
    pub fn new(
        name: Option<AssignmentName>,
        points_possible: Option<P>,
        due_at: Option<DueDate>,
        publish_state: Option<PublishState>,
    ) -> (r: Result<Self, CanvasError>)
        ensures
            match r {
                Ok(u) => !(name is None && points_possible is None && due_at is None
                    && publish_state is None) && u == (AssignmentUpdateInput {
                    name,
                    points_possible,
                    due_at,
                    publish_state,
                }),
                Err(e) => name is None && points_possible is None && due_at is None
                    && publish_state is None && (e matches CanvasError::InvalidAssignmentUpdate(s)
                    && s@ == "no_fields"@),
            },
    {
        if name.is_none() && points_possible.is_none() && due_at.is_none() && publish_state.is_none() {
            return Err(CanvasError::InvalidAssignmentUpdate(to_owned_string("no_fields")));
        }
        Ok(AssignmentUpdateInput { name, points_possible, due_at, publish_state })
    }
}

/// The settings an assignment command may give beside the assignment's own
/// fields.
#[derive(Debug, Clone)]
pub struct AssignmentSettings {
    pub peer_reviews: Option<PeerReviewSettings>,
    pub group_assignment: Option<GroupAssignmentSettings>,
    pub overrides: Option<AssignmentOverrides>,
}

/// An assignment command as given on the command line, unvalidated, with
/// each points text already read and the overrides document as the caller
/// found it.
#[derive(Debug)]
pub enum AssignmentCommand<P> {
    List { course: Option<String> },
    Create {
        course: Option<String>,
        name: String,
        points: Option<Result<P, String>>,
        due_at: Option<String>,
        publish_state: Option<String>,
        peer_review_mode: Option<String>,
        peer_review_assign_at: Option<String>,
        peer_review_due_at: Option<String>,
        group_assignment_mode: Option<String>,
        group_category_id: Option<String>,
        overrides: DocumentSource,
    },
    Update {
        course: Option<String>,
        assignment: String,
        name: Option<String>,
        points: Option<Result<P, String>>,
        due_at: Option<String>,
        publish_state: Option<String>,
        peer_review_mode: Option<String>,
        peer_review_assign_at: Option<String>,
        peer_review_due_at: Option<String>,
        group_assignment_mode: Option<String>,
        group_category_id: Option<String>,
        overrides: DocumentSource,
    },
    Delete { course: Option<String>, assignment: String },
}

/// A validated assignment command.
#[derive(Debug, Clone)]
pub enum AssignmentRequest<P> {
    List { course_id: CourseId },
    Create { course_id: CourseId, input: AssignmentCreateInput<P>, settings: AssignmentSettings },
    Update {
        course_id: CourseId,
        assignment_id: AssignmentId,
        input: AssignmentUpdateInput<P>,
        settings: AssignmentSettings,
    },
    Delete { course_id: CourseId, assignment_id: AssignmentId },
}

/// The model of an assignment command's fields and settings.
pub ghost struct AssignmentFields<P> {
    pub name: Option<Seq<char>>,
    pub points: Option<P>,
    pub due_at: Option<Timestamp>,
    pub publish_state: Option<PublishState>,
    pub peer_reviews: Option<PeerReviewView>,
    pub group: Option<GroupModel>,
    pub overrides: Option<Seq<OverrideModel>>,
}

/// Why an assignment command's fields were refused.
pub ghost enum AssignmentRefusal {
    Name(Seq<char>),
    Points(Seq<char>),
    Date(Seq<char>),
    PublishState(Seq<char>),
    Review(ReviewRefusal),
    Group(GroupRefusal),
    /// Both the overrides text and a file were given.
    OverrideSources,
    /// The overrides file could not be read: its path and the reason.
    Unreadable(Seq<char>, Seq<char>),
    Overrides(DocumentRefusal),
}

/// Whether `e` is the error for `f`.
pub open spec fn reports_assignment(f: AssignmentRefusal, e: CliError) -> bool {
    match f {
        AssignmentRefusal::Name(t) => e matches CliError::Canvas(
            CanvasError::InvalidAssignmentName(s),
        ) && s@ == t,
        AssignmentRefusal::Points(t) => e matches CliError::Canvas(
            CanvasError::InvalidPointsPossible(s),
        ) && s@ == t,
        AssignmentRefusal::Date(t) => e matches CliError::Canvas(CanvasError::InvalidDueDate(s))
            && s@ == t,
        AssignmentRefusal::PublishState(t) => e matches CliError::Canvas(
            CanvasError::InvalidPublishState(s),
        ) && s@ == t,
        AssignmentRefusal::Review(r) => reports_review(r, e),
        AssignmentRefusal::Group(g) => reports_group(g, e),
        AssignmentRefusal::OverrideSources => e matches CliError::Canvas(
            CanvasError::InvalidAssignmentOverrides(s),
        ) && s@ == "multiple_sources"@,
        AssignmentRefusal::Unreadable(p, m) => e matches CliError::FileRead(a, b) && a@ == p && b@
            == m,
        AssignmentRefusal::Overrides(d) => e matches CliError::Canvas(c) && reports(d, c),
    }
}

/// The overrides of a command, where a document is given.
pub open spec fn overrides_input_spec(source: DocumentSource) -> Result<
    Option<Seq<OverrideModel>>,
    AssignmentRefusal,
> {
    match source {
        DocumentSource::Absent => Ok(None),
        DocumentSource::Conflicting => Err(AssignmentRefusal::OverrideSources),
        DocumentSource::Unreadable(p, m) => Err(AssignmentRefusal::Unreadable(p@, m@)),
        DocumentSource::Read(raw) => match overrides_spec(json_document(raw@)) {
            Ok(o) => Ok(Some(o)),
            Err(d) => Err(AssignmentRefusal::Overrides(d)),
        },
    }
}

/// The fields and settings of an assignment command, read in order: name,
/// points, due date, publish state, peer reviews, group settings, overrides.
pub open spec fn assignment_fields_spec<P>(
    name: Option<String>,
    points: Option<Result<P, String>>,
    due_at: Option<String>,
    publish_state: Option<String>,
    review_mode: Option<String>,
    review_assign_at: Option<String>,
    review_due_at: Option<String>,
    group_mode: Option<String>,
    group_category: Option<String>,
    overrides: DocumentSource,
) -> Result<AssignmentFields<P>, AssignmentRefusal> {
    let n: Result<Option<Seq<char>>, AssignmentRefusal> = match name {
        Some(x) => if trim(x@).len() > 0 {
            Ok(Some(trim(x@)))
        } else {
            Err(AssignmentRefusal::Name(x@))
        },
        None => Ok(None),
    };
    let p: Result<Option<P>, AssignmentRefusal> = match points {
        Some(Ok(v)) => Ok(Some(v)),
        Some(Err(t)) => Err(AssignmentRefusal::Points(t@)),
        None => Ok(None),
    };
    let d: Result<Option<Timestamp>, AssignmentRefusal> = match date_option(due_at) {
        Ok(v) => Ok(v),
        Err(t) => Err(AssignmentRefusal::Date(t)),
    };
    let s: Result<Option<PublishState>, AssignmentRefusal> = match publish_state {
        Some(x) => match publish_state_named(lower(trim(x@))) {
            Some(v) => Ok(Some(v)),
            None => Err(AssignmentRefusal::PublishState(x@)),
        },
        None => Ok(None),
    };
    let r: Result<Option<PeerReviewView>, AssignmentRefusal> = match review_input_spec(
        review_mode,
        review_assign_at,
        review_due_at,
    ) {
        Ok(v) => Ok(v),
        Err(f) => Err(AssignmentRefusal::Review(f)),
    };
    let g: Result<Option<GroupModel>, AssignmentRefusal> = match group_input_spec(
        group_mode,
        group_category,
    ) {
        Ok(v) => Ok(v),
        Err(f) => Err(AssignmentRefusal::Group(f)),
    };
    let o = overrides_input_spec(overrides);
    match (n, p, d, s, r, g, o) {
        (Err(f), _, _, _, _, _, _) => Err(f),
        (Ok(_), Err(f), _, _, _, _, _) => Err(f),
        (Ok(_), Ok(_), Err(f), _, _, _, _) => Err(f),
        (Ok(_), Ok(_), Ok(_), Err(f), _, _, _) => Err(f),
        (Ok(_), Ok(_), Ok(_), Ok(_), Err(f), _, _) => Err(f),
        (Ok(_), Ok(_), Ok(_), Ok(_), Ok(_), Err(f), _) => Err(f),
        (Ok(_), Ok(_), Ok(_), Ok(_), Ok(_), Ok(_), Err(f)) => Err(f),
        (Ok(n), Ok(p), Ok(d), Ok(s), Ok(r), Ok(g), Ok(o)) => Ok(
            AssignmentFields {
                name: n,
                points: p,
                due_at: d,
                publish_state: s,
                peer_reviews: r,
                group: g,
                overrides: o,
            },
        ),
    }
}

/// The text of an optional name.
pub open spec fn name_text(n: Option<AssignmentName>) -> Option<Seq<char>> {
    match n {
        Some(n) => Some(n@),
        None => None,
    }
}

/// The model of optional peer review settings.
pub open spec fn review_view(s: Option<PeerReviewSettings>) -> Option<PeerReviewView> {
    match s {
        Some(s) => Some(s@),
        None => None,
    }
}

/// The model of optional group settings.
pub open spec fn group_view(s: Option<GroupAssignmentSettings>) -> Option<GroupModel> {
    match s {
        Some(s) => Some(group_model(s)),
        None => None,
    }
}

/// The model of optional overrides.
pub open spec fn overrides_view(o: Option<AssignmentOverrides>) -> Option<Seq<OverrideModel>> {
    match o {
        Some(o) => Some(o@.map_values(|x: AssignmentOverride| override_model(x))),
        None => None,
    }
}

/// The validated fields and settings of an assignment command.
pub struct AssignmentFieldValues<P> {
    pub name: Option<AssignmentName>,
    pub points: Option<P>,
    pub due_at: Option<DueDate>,
    pub publish_state: Option<PublishState>,
    pub settings: AssignmentSettings,
}

/// The model of validated assignment fields.
pub open spec fn assignment_fields_view<P>(v: AssignmentFieldValues<P>) -> AssignmentFields<P> {
    AssignmentFields {
        name: name_text(v.name),
        points: v.points,
        due_at: view_of(v.due_at),
        publish_state: v.publish_state,
        peer_reviews: review_view(v.settings.peer_reviews),
        group: group_view(v.settings.group_assignment),
        overrides: overrides_view(v.settings.overrides),
    }
}

fn read_overrides(source: DocumentSource) -> (r: Result<Option<AssignmentOverrides>, CliError>)
    ensures
        match r {
            Ok(o) => overrides_input_spec(source) == Ok::<
                Option<Seq<OverrideModel>>,
                AssignmentRefusal,
            >(overrides_view(o)),
            Err(e) => overrides_input_spec(source) matches Err(f) && reports_assignment(f, e),
        },
{
    match source {
        DocumentSource::Absent => Ok(None),
        DocumentSource::Conflicting => Err(
            CliError::Canvas(
                CanvasError::InvalidAssignmentOverrides(to_owned_string("multiple_sources")),
            ),
        ),
        DocumentSource::Unreadable(p, m) => Err(CliError::FileRead(p, m)),
        DocumentSource::Read(raw) => match parse_assignment_overrides(raw.as_str()) {
            Ok(o) => Ok(Some(o)),
            Err(e) => Err(CliError::Canvas(e)),
        },
    }
}

/// The fields and settings of an assignment command, validated in the order
/// the command line gives them.
pub fn read_assignment_fields<P>(
    name: Option<String>,
    points: Option<Result<P, String>>,
    due_at: Option<String>,
    publish_state: Option<String>,
    review_mode: Option<String>,
    review_assign_at: Option<String>,
    review_due_at: Option<String>,
    group_mode: Option<String>,
    group_category: Option<String>,
    overrides: DocumentSource,
) -> (r: Result<AssignmentFieldValues<P>, CliError>)
    ensures
        match r {
            Ok(v) => assignment_fields_spec(
                name,
                points,
                due_at,
                publish_state,
                review_mode,
                review_assign_at,
                review_due_at,
                group_mode,
                group_category,
                overrides,
            ) == Ok::<AssignmentFields<P>, AssignmentRefusal>(assignment_fields_view(v)),
            Err(e) => assignment_fields_spec(
                name,
                points,
                due_at,
                publish_state,
                review_mode,
                review_assign_at,
                review_due_at,
                group_mode,
                group_category,
                overrides,
            ) matches Err(f) && reports_assignment(f, e),
        },
{
    let name = match name {
        Some(raw) => match parse_assignment_name(raw.as_str()) {
            Ok(n) => Some(n),
            Err(e) => return Err(CliError::Canvas(e)),
        },
        None => None,
    };
    let points = match points {
        Some(Ok(p)) => Some(p),
        Some(Err(raw)) => return Err(CliError::Canvas(CanvasError::InvalidPointsPossible(raw))),
        None => None,
    };
    let due_at = date_input(due_at)?;
    let publish_state = match publish_state {
        Some(raw) => match parse_publish_state(raw.as_str()) {
            Ok(p) => Some(p),
            Err(e) => return Err(CliError::Canvas(e)),
        },
        None => None,
    };
    let peer_reviews = parse_peer_review_settings_input(review_mode, review_assign_at, review_due_at)?;
    let group_assignment = parse_group_assignment_settings_input(group_mode, group_category)?;
    let overrides = read_overrides(overrides)?;
    Ok(
        AssignmentFieldValues {
            name,
            points,
            due_at,
            publish_state,
            settings: AssignmentSettings { peer_reviews, group_assignment, overrides },
        },
    )
}

/// Whether the model of an assignment change gives nothing to change.
pub open spec fn assignment_fields_empty<P>(f: AssignmentFields<P>) -> bool {
    &&& f.name is None
    &&& f.points is None
    &&& f.due_at is None
    &&& f.publish_state is None
    &&& f.peer_reviews is None
    &&& f.group is None
    &&& f.overrides is None
}

/// Whether `e` is the error for the assignment id text `t`.
pub open spec fn bad_assignment(t: String, e: CliError) -> bool {
    positive_id_spec(t@) is None && (e matches CliError::Canvas(CanvasError::InvalidAssignmentId(s))
        && s@ == t@)
}

/// Whether `r` is what the assignment command `command` stands for: the
/// course first, then the assignment, then the fields and settings in order;
/// a change must give at least one of them.
pub open spec fn assignment_outcome<P>(
    command: AssignmentCommand<P>,
    default: Option<CourseId>,
    r: Result<AssignmentRequest<P>, CliError>,
) -> bool {
    match command {
        AssignmentCommand::List { course } => match r {
            Ok(req) => req matches AssignmentRequest::List { course_id }
                && course_choice(course, default) == Some(course_id@),
            Err(e) => course_choice(course, default) is None && course_refusal(course, e),
        },
        AssignmentCommand::Create {
            course,
            name,
            points,
            due_at,
            publish_state,
            peer_review_mode,
            peer_review_assign_at,
            peer_review_due_at,
            group_assignment_mode,
            group_category_id,
            overrides,
        } => {
            let spec = assignment_fields_spec(
                Some(name),
                points,
                due_at,
                publish_state,
                peer_review_mode,
                peer_review_assign_at,
                peer_review_due_at,
                group_assignment_mode,
                group_category_id,
                overrides,
            );
            match r {
                Ok(req) => req matches AssignmentRequest::Create { course_id, input, settings }
                    && course_choice(course, default) == Some(course_id@) && spec == Ok::<
                    AssignmentFields<P>,
                    AssignmentRefusal,
                >(
                    AssignmentFields {
                        name: Some(input.name@),
                        points: input.points_possible,
                        due_at: view_of(input.due_at),
                        publish_state: input.publish_state,
                        peer_reviews: review_view(settings.peer_reviews),
                        group: group_view(settings.group_assignment),
                        overrides: overrides_view(settings.overrides),
                    },
                ),
                Err(e) => if course_choice(course, default) is None {
                    course_refusal(course, e)
                } else {
                    spec matches Err(f) && reports_assignment(f, e)
                },
            }
        },
        AssignmentCommand::Update {
            course,
            assignment,
            name,
            points,
            due_at,
            publish_state,
            peer_review_mode,
            peer_review_assign_at,
            peer_review_due_at,
            group_assignment_mode,
            group_category_id,
            overrides,
        } => {
            let spec = assignment_fields_spec(
                name,
                points,
                due_at,
                publish_state,
                peer_review_mode,
                peer_review_assign_at,
                peer_review_due_at,
                group_assignment_mode,
                group_category_id,
                overrides,
            );
            match r {
                Ok(req) => req matches AssignmentRequest::Update {
                    course_id,
                    assignment_id,
                    input,
                    settings,
                } && course_choice(course, default) == Some(course_id@) && positive_id_spec(
                    assignment@,
                ) == Some(assignment_id@) && spec == Ok::<AssignmentFields<P>, AssignmentRefusal>(
                    AssignmentFields {
                        name: name_text(input.name),
                        points: input.points_possible,
                        due_at: view_of(input.due_at),
                        publish_state: input.publish_state,
                        peer_reviews: review_view(settings.peer_reviews),
                        group: group_view(settings.group_assignment),
                        overrides: overrides_view(settings.overrides),
                    },
                ) && !assignment_fields_empty(spec->Ok_0),
                Err(e) => if course_choice(course, default) is None {
                    course_refusal(course, e)
                } else if positive_id_spec(assignment@) is None {
                    bad_assignment(assignment, e)
                } else {
                    match spec {
                        Err(f) => reports_assignment(f, e),
                        Ok(f) => assignment_fields_empty(f) && (e matches CliError::Canvas(
                            CanvasError::InvalidAssignmentUpdate(s),
                        ) && s@ == "no_fields"@),
                    }
                },
            }
        },
        AssignmentCommand::Delete { course, assignment } => match r {
            Ok(req) => req matches AssignmentRequest::Delete { course_id, assignment_id }
                && course_choice(course, default) == Some(course_id@) && positive_id_spec(
                assignment@,
            ) == Some(assignment_id@),
            Err(e) => if course_choice(course, default) is None {
                course_refusal(course, e)
            } else {
                bad_assignment(assignment, e)
            },
        },
    }
}

fn read_assignment_id(assignment: String) -> (r: Result<AssignmentId, CliError>)
    ensures
        match r {
            Ok(a) => positive_id_spec(assignment@) == Some(a@),
            Err(e) => bad_assignment(assignment, e),
        },
{
    match parse_assignment_id(assignment.as_str()) {
        Ok(a) => Ok(a),
        Err(e) => Err(CliError::Canvas(e)),
    }
}

/// The validated request that an assignment command stands for.
pub fn assignment_request<P>(command: AssignmentCommand<P>, global: &GlobalOptions) -> (r: Result<
    AssignmentRequest<P>,
    CliError,
>)
    ensures
        assignment_outcome(command, global.course, r),
{
    match command {
        AssignmentCommand::List { course } => {
            let course_id = course_for(course, global)?;
            Ok(AssignmentRequest::List { course_id })
        },
        AssignmentCommand::Create {
            course,
            name,
            points,
            due_at,
            publish_state,
            peer_review_mode,
            peer_review_assign_at,
            peer_review_due_at,
            group_assignment_mode,
            group_category_id,
            overrides,
        } => {
            let course_id = course_for(course, global)?;
            let name = match parse_assignment_name(name.as_str()) {
                Ok(n) => n,
                Err(e) => return Err(CliError::Canvas(e)),
            };
            let fields = read_assignment_fields(
                None,
                points,
                due_at,
                publish_state,
                peer_review_mode,
                peer_review_assign_at,
                peer_review_due_at,
                group_assignment_mode,
                group_category_id,
                overrides,
            )?;
            let input = AssignmentCreateInput::new(
                name,
                fields.points,
                fields.due_at,
                fields.publish_state,
            );
            Ok(AssignmentRequest::Create { course_id, input, settings: fields.settings })
        },
        AssignmentCommand::Update {
            course,
            assignment,
            name,
            points,
            due_at,
            publish_state,
            peer_review_mode,
            peer_review_assign_at,
            peer_review_due_at,
            group_assignment_mode,
            group_category_id,
            overrides,
        } => {
            let course_id = course_for(course, global)?;
            let assignment_id = read_assignment_id(assignment)?;
            let fields = read_assignment_fields(
                name,
                points,
                due_at,
                publish_state,
                peer_review_mode,
                peer_review_assign_at,
                peer_review_due_at,
                group_assignment_mode,
                group_category_id,
                overrides,
            )?;
            if fields.name.is_none() && fields.points.is_none() && fields.due_at.is_none()
                && fields.publish_state.is_none() && fields.settings.peer_reviews.is_none()
                && fields.settings.group_assignment.is_none() && fields.settings.overrides.is_none() {
                return Err(
                    CliError::Canvas(CanvasError::InvalidAssignmentUpdate(to_owned_string("no_fields"))),
                );
            }
            let input = AssignmentUpdateInput {
                name: fields.name,
                points_possible: fields.points,
                due_at: fields.due_at,
                publish_state: fields.publish_state,
            };
            Ok(AssignmentRequest::Update { course_id, assignment_id, input, settings: fields.settings })
        },
        AssignmentCommand::Delete { course, assignment } => {
            let course_id = course_for(course, global)?;
            let assignment_id = read_assignment_id(assignment)?;
            Ok(AssignmentRequest::Delete { course_id, assignment_id })
        },
    }
}

fn date_string(d: &Option<DueDate>) -> (r: Option<String>)
    ensures
        text_of(r) == stamp_text(view_of(*d)),
{
    match d {
        Some(d) => Some(d.as_rfc3339()),
        None => None,
    }
}

/// The form fields that create an assignment: the values as they are sent.
#[derive(Debug, Clone)]
pub struct AssignmentCreateForm<P> {
    pub name: String,
    pub points_possible: Option<P>,
    pub due_at: Option<String>,
    pub published: Option<bool>,
}

impl<P: Copy> AssignmentCreateForm<P> {
    /// The form of an assignment's creation: each field as sent, the due
    /// date as its text.
    pub fn from_input(input: &AssignmentCreateInput<P>) -> (r: Self)
        ensures
            r.name@ == input.name@,
            r.points_possible == input.points_possible,
            text_of(r.due_at) == stamp_text(view_of(input.due_at)),
            r.published == published_of(input.publish_state),
    {
        AssignmentCreateForm {
            name: to_owned_string(input.name.as_str()),
            points_possible: input.points_possible,
            due_at: date_string(&input.due_at),
            published: published_flag(input.publish_state),
        }
    }
}

/// The form fields that change an assignment: the values given, as they are
/// sent.
#[derive(Debug, Clone)]
pub struct AssignmentUpdateForm<P> {
    pub name: Option<String>,
    pub points_possible: Option<P>,
    pub due_at: Option<String>,
    pub published: Option<bool>,
}

impl<P: Copy> AssignmentUpdateForm<P> {
    /// The form of an assignment's change: each field given as sent, the due
    /// date as its text.
    pub fn from_input(input: &AssignmentUpdateInput<P>) -> (r: Self)
        ensures
            text_of(r.name) == name_text(input.name),
            r.points_possible == input.points_possible,
            text_of(r.due_at) == stamp_text(view_of(input.due_at)),
            r.published == published_of(input.publish_state),
    {
        let name = match &input.name {
            Some(n) => Some(to_owned_string(n.as_str())),
            None => None,
        };
        AssignmentUpdateForm {
            name,
            points_possible: input.points_possible,
            due_at: date_string(&input.due_at),
            published: published_flag(input.publish_state),
        }
    }
}

} // verus!
