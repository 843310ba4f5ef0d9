//! Parsing of values that combine several inputs: settings, date windows,
//! contexts and lists, with the errors the command line reports.

use crate::contexts::{
    CalendarEventContext, ExternalToolConfigXml, ExternalToolPlacementList, RubricAssociationTarget,
};
use crate::dates::{is_after, DueDate};
use crate::errors::CanvasError;
use crate::ids::{AssignmentId, CourseId, GroupCategoryId, OutcomeId, SectionId, UserId};
use crate::kinds::{GroupAssignmentMode, PeerReviewMode};
use crate::names::ExternalToolPlacement;
use crate::text::{to_owned_string, trim};
use crate::windows::{
    override_window_error, peer_review_error, quiz_window_error, view_of, window_of, CourseDatesView, PeerReviewView,
    AssignmentOverrideDates, CourseDates, GroupAssignmentSettings, PeerReviewSettings,
    QuizAvailability, RecipientIds,
};
use vstd::prelude::*;

verus! {

/// Whether `e` is the error `variant` carrying `detail`, for contracts.
pub open spec fn carries(e: CanvasError, detail: Seq<char>) -> bool {
    match e {
        CanvasError::InvalidRecipients(s) => s@ == detail,
        CanvasError::InvalidGroupAssignmentSettings(s) => s@ == detail,
        CanvasError::InvalidPeerReviewSettings(s) => s@ == detail,
        CanvasError::InvalidAssignmentOverrideDates(s) => s@ == detail,
        CanvasError::InvalidCalendarEventContext(s) => s@ == detail,
        CanvasError::InvalidQuizAvailability(s) => s@ == detail,
        CanvasError::InvalidRubricAssociationTarget(s) => s@ == detail,
        CanvasError::InvalidCourseDates(s) => s@ == detail,
        CanvasError::InvalidExternalToolConfig(s) => s@ == detail,
        CanvasError::InvalidExternalToolPlacements(s) => s@ == detail,
        _ => false,
    }
}

/// The recipients of a message; the list must not be empty.
pub fn parse_recipient_ids(ids: Vec<UserId>) -> (r: Result<RecipientIds, CanvasError>)
    ensures
        match r {
            Ok(v) => ids@.len() > 0 && v@ == ids@,
            Err(e) => ids@.len() == 0 && e is InvalidRecipients && carries(e, "empty"@),
        },
{
    match RecipientIds::new(ids) {
        Ok(v) => Ok(v),
        Err(_) => Err(CanvasError::InvalidRecipients(to_owned_string("empty"))),
    }
}

/// Group assignment settings from a mode and an optional category.
pub fn parse_group_assignment_settings(
    mode: GroupAssignmentMode,
    category_id: Option<GroupCategoryId>,
) -> (r: Result<GroupAssignmentSettings, CanvasError>)
    ensures
        match r {
            Ok(v) => (mode == GroupAssignmentMode::Group && category_id is Some && v
                == GroupAssignmentSettings::Group { category_id: category_id->0 }) || (mode
                == GroupAssignmentMode::Individual && category_id is None && v
                == GroupAssignmentSettings::Individual),
            Err(e) => ((mode == GroupAssignmentMode::Group && category_id is None) || (mode
                == GroupAssignmentMode::Individual && category_id is Some))
                && e is InvalidGroupAssignmentSettings && carries(e, "invalid"@),
        },
{
    match GroupAssignmentSettings::new(mode, category_id) {
        Ok(v) => Ok(v),
        Err(_) => Err(CanvasError::InvalidGroupAssignmentSettings(to_owned_string("invalid"))),
    }
}

/// Peer review settings from a mode and optional dates.
pub fn parse_peer_review_settings(
    mode: PeerReviewMode,
    assign_at: Option<DueDate>,
    due_at: Option<DueDate>,
) -> (r: Result<PeerReviewSettings, CanvasError>)
    ensures
        match r {
            Ok(v) => peer_review_error(mode, assign_at, due_at) is None && v@ == (PeerReviewView {
                mode,
                assign_at: view_of(assign_at),
                due_at: view_of(due_at),
            }),
            Err(e) => peer_review_error(mode, assign_at, due_at) is Some
                && e is InvalidPeerReviewSettings && carries(e, "invalid"@),
        },
{
    match PeerReviewSettings::new(mode, assign_at, due_at) {
        Ok(v) => Ok(v),
        Err(_) => Err(CanvasError::InvalidPeerReviewSettings(to_owned_string("invalid"))),
    }
}

/// Override dates from three optional dates.
pub fn parse_assignment_override_dates(
    unlock_at: Option<DueDate>,
    due_at: Option<DueDate>,
    lock_at: Option<DueDate>,
) -> (r: Result<AssignmentOverrideDates, CanvasError>)
    ensures
        match r {
            Ok(v) => override_window_error(unlock_at, due_at, lock_at) is None && v@ == window_of(
                unlock_at,
                due_at,
                lock_at,
            ),
            Err(e) => override_window_error(unlock_at, due_at, lock_at) is Some
                && e is InvalidAssignmentOverrideDates && carries(e, "invalid"@),
        },
{
    match AssignmentOverrideDates::new(unlock_at, due_at, lock_at) {
        Ok(v) => Ok(v),
        Err(_) => Err(CanvasError::InvalidAssignmentOverrideDates(to_owned_string("invalid"))),
    }
}

/// The context of a calendar event: exactly one of a course and a section.
pub fn parse_calendar_event_context(
    course_id: Option<CourseId>,
    section_id: Option<SectionId>,
) -> (r: Result<CalendarEventContext, CanvasError>)
    ensures
        match (course_id, section_id) {
            (Some(c), None) => r == Ok::<CalendarEventContext, CanvasError>(
                CalendarEventContext::Course(c),
            ),
            (None, Some(s)) => r == Ok::<CalendarEventContext, CanvasError>(
                CalendarEventContext::Section(s),
            ),
            (None, None) => r matches Err(e) && e is InvalidCalendarEventContext && carries(
                e,
                "missing_context"@,
            ),
            (Some(_), Some(_)) => r matches Err(e) && e is InvalidCalendarEventContext && carries(
                e,
                "conflicting_context"@,
            ),
        },
{
    match (course_id, section_id) {
        (Some(course_id), None) => Ok(CalendarEventContext::Course(course_id)),
        (None, Some(section_id)) => Ok(CalendarEventContext::Section(section_id)),
        (None, None) => Err(
            CanvasError::InvalidCalendarEventContext(to_owned_string("missing_context")),
        ),
        _ => Err(CanvasError::InvalidCalendarEventContext(to_owned_string("conflicting_context"))),
    }
}

/// A quiz window, or none where no date is given.
pub fn parse_quiz_availability(
    unlock_at: Option<DueDate>,
    due_at: Option<DueDate>,
    lock_at: Option<DueDate>,
) -> (r: Result<Option<QuizAvailability>, CanvasError>)
    ensures
        match r {
            Ok(None) => unlock_at is None && due_at is None && lock_at is None,
            Ok(Some(w)) => !(unlock_at is None && due_at is None && lock_at is None)
                && quiz_window_error(unlock_at, due_at, lock_at) is None && w@ == window_of(
                unlock_at,
                due_at,
                lock_at,
            ),
            Err(e) => quiz_window_error(unlock_at, due_at, lock_at) is Some
                && e is InvalidQuizAvailability && carries(e, "invalid_window"@),
        },
{
    if unlock_at.is_none() && due_at.is_none() && lock_at.is_none() {
        return Ok(None);
    }
    match QuizAvailability::new(unlock_at, due_at, lock_at) {
        Ok(v) => Ok(Some(v)),
        Err(_) => Err(CanvasError::InvalidQuizAvailability(to_owned_string("invalid_window"))),
    }
}

/// What a rubric is associated with: exactly one of an assignment and an outcome.
pub fn parse_rubric_association_target(
    assignment_id: Option<AssignmentId>,
    outcome_id: Option<OutcomeId>,
) -> (r: Result<RubricAssociationTarget, CanvasError>)
    ensures
        match (assignment_id, outcome_id) {
            (Some(a), None) => r == Ok::<RubricAssociationTarget, CanvasError>(
                RubricAssociationTarget::Assignment(a),
            ),
            (None, Some(o)) => r == Ok::<RubricAssociationTarget, CanvasError>(
                RubricAssociationTarget::Outcome(o),
            ),
            (None, None) => r matches Err(e) && e is InvalidRubricAssociationTarget && carries(
                e,
                "missing_target"@,
            ),
            (Some(_), Some(_)) => r matches Err(e) && e is InvalidRubricAssociationTarget
                && carries(e, "conflicting_target"@),
        },
{
    match (assignment_id, outcome_id) {
        (Some(assignment_id), None) => Ok(RubricAssociationTarget::Assignment(assignment_id)),
        (None, Some(outcome_id)) => Ok(RubricAssociationTarget::Outcome(outcome_id)),
        (None, None) => Err(
            CanvasError::InvalidRubricAssociationTarget(to_owned_string("missing_target")),
        ),
        _ => Err(
            CanvasError::InvalidRubricAssociationTarget(to_owned_string("conflicting_target")),
        ),
    }
}

/// Course dates; the start must not be later than the end.
pub fn parse_course_dates(start: Option<DueDate>, end: Option<DueDate>) -> (r: Result<
    CourseDates,
    CanvasError,
>)
    ensures
        match r {
            Ok(v) => !is_after(start, end) && v@ == (CourseDatesView {
                start: view_of(start),
                end: view_of(end),
            }),
            Err(e) => is_after(start, end) && e is InvalidCourseDates && carries(
                e,
                "start_after_end"@,
            ),
        },
{
    match CourseDates::new(start, end) {
        Ok(v) => Ok(v),
        Err(_) => Err(CanvasError::InvalidCourseDates(to_owned_string("start_after_end"))),
    }
}

/// An XML tool configuration; it must not be blank.
pub fn parse_external_tool_config_xml(raw: String) -> (r: Result<ExternalToolConfigXml, CanvasError>)
    ensures
        match r {
            Ok(x) => trim(raw@).len() > 0 && x@ == raw@,
            Err(e) => trim(raw@).len() == 0 && e is InvalidExternalToolConfig && carries(
                e,
                "empty"@,
            ),
        },
{
    match ExternalToolConfigXml::new(raw) {
        Ok(v) => Ok(v),
        Err(_) => Err(CanvasError::InvalidExternalToolConfig(to_owned_string("empty"))),
    }
}

/// The placements of a tool; the list must not be empty.
pub fn parse_external_tool_placement_list(placements: Vec<ExternalToolPlacement>) -> (r: Result<
    ExternalToolPlacementList,
    CanvasError,
>)
    ensures
        match r {
            Ok(l) => placements@.len() > 0 && l@ == placements@,
            Err(e) => placements@.len() == 0 && e is InvalidExternalToolPlacements && carries(
                e,
                "empty"@,
            ),
        },
{
    match ExternalToolPlacementList::new(placements) {
        Ok(v) => Ok(v),
        Err(_) => Err(CanvasError::InvalidExternalToolPlacements(to_owned_string("empty"))),
    }
}

} // verus!
