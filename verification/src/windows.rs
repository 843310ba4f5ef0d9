//! Settings that combine several validated values: date windows whose dates
//! must come in order, peer review and group assignment settings, assignment
//! overrides and recipient lists.

use crate::dates::{after, copy_date, is_after, DueDate, Timestamp};
use crate::ids::{GroupCategoryId, SectionId, UserId};
use crate::kinds::{GroupAssignmentMode, PeerReviewMode};
use vstd::prelude::*;

verus! {

/// The timestamp of an optional date.
pub open spec fn view_of(d: Option<DueDate>) -> Option<Timestamp> {
    match d {
        Some(d) => Some(d@),
        None => None,
    }
}

/// Whether `a` is not later than `b` where both are present.
pub open spec fn in_order(a: Option<Timestamp>, b: Option<Timestamp>) -> bool {
    (a is Some && b is Some) ==> a->0.instant <= b->0.instant
}

/// The model of an unlock / due / lock window.
pub ghost struct DateWindow {
    pub unlock: Option<Timestamp>,
    pub due: Option<Timestamp>,
    pub lock: Option<Timestamp>,
}

/// Whether the dates of a window come in order: unlock, due, lock.
pub open spec fn window_ordered(w: DateWindow) -> bool {
    &&& in_order(w.unlock, w.due)
    &&& in_order(w.due, w.lock)
    &&& in_order(w.unlock, w.lock)
}

/// The window of three optional dates.
pub open spec fn window_of(
    unlock: Option<DueDate>,
    due: Option<DueDate>,
    lock: Option<DueDate>,
) -> DateWindow {
    DateWindow { unlock: view_of(unlock), due: view_of(due), lock: view_of(lock) }
}

/// When a quiz opens, is due and closes.
#[derive(Debug, Clone, PartialEq)]
pub struct QuizAvailability {
    unlock_at: Option<DueDate>,
    due_at: Option<DueDate>,
    lock_at: Option<DueDate>,
}

/// Why quiz dates do not form a window.
#[derive(Debug, Clone, Copy, PartialEq, Eq, Structural)]
pub enum QuizAvailabilityError {
    UnlockAfterDue,
    UnlockAfterLock,
    DueAfterLock,
}

impl QuizAvailabilityError {
    /// The error's message.
    pub fn message(&self) -> (r: &'static str)
        ensures
            r@ == match self {
                QuizAvailabilityError::UnlockAfterDue => "quiz unlock date must be on or before the due date"@,
                QuizAvailabilityError::UnlockAfterLock => "quiz unlock date must be on or before the lock date"@,
                QuizAvailabilityError::DueAfterLock => "quiz due date must be on or before the lock date"@,
            },
    {
        match self {
            QuizAvailabilityError::UnlockAfterDue => "quiz unlock date must be on or before the due date",
            QuizAvailabilityError::UnlockAfterLock => "quiz unlock date must be on or before the lock date",
            QuizAvailabilityError::DueAfterLock => "quiz due date must be on or before the lock date",
        }
    }
}

/// The first order violation of quiz dates, checked in the order unlock/due,
/// unlock/lock, due/lock.
pub open spec fn quiz_window_error(
    unlock: Option<DueDate>,
    due: Option<DueDate>,
    lock: Option<DueDate>,
) -> Option<QuizAvailabilityError> {
    if is_after(unlock, due) {
        Some(QuizAvailabilityError::UnlockAfterDue)
    } else if is_after(unlock, lock) {
        Some(QuizAvailabilityError::UnlockAfterLock)
    } else if is_after(due, lock) {
        Some(QuizAvailabilityError::DueAfterLock)
    } else {
        None
    }
}

impl View for QuizAvailability {
    type V = DateWindow;

    closed spec fn view(&self) -> DateWindow {
        window_of(self.unlock_at, self.due_at, self.lock_at)
    }
}

impl QuizAvailability {
    /// A quiz window; each date present must not be later than the ones after it.
    pub fn new(
        unlock_at: Option<DueDate>,
        due_at: Option<DueDate>,
        lock_at: Option<DueDate>,
    ) -> (r: Result<Self, QuizAvailabilityError>)
        ensures
            match r {
                Ok(w) => quiz_window_error(unlock_at, due_at, lock_at) is None && w@ == window_of(
                    unlock_at,
                    due_at,
                    lock_at,
                ) && window_ordered(w@),
                Err(e) => quiz_window_error(unlock_at, due_at, lock_at) == Some(e),
            },
    {
        if after(&unlock_at, &due_at) {
            return Err(QuizAvailabilityError::UnlockAfterDue);
        }
        if after(&unlock_at, &lock_at) {
            return Err(QuizAvailabilityError::UnlockAfterLock);
        }
        if after(&due_at, &lock_at) {
            return Err(QuizAvailabilityError::DueAfterLock);
        }
        Ok(QuizAvailability { unlock_at, due_at, lock_at })
    }

    /// The unlock date.
    pub fn unlock_at(&self) -> (r: Option<DueDate>)
        ensures
            view_of(r) == self@.unlock,
    {
        copy_date(&self.unlock_at)
    }

    /// The due date.
    pub fn due_at(&self) -> (r: Option<DueDate>)
        ensures
            view_of(r) == self@.due,
    {
        copy_date(&self.due_at)
    }

    /// The lock date.
    pub fn lock_at(&self) -> (r: Option<DueDate>)
        ensures
            view_of(r) == self@.lock,
    {
        copy_date(&self.lock_at)
    }
}

/// The dates of an assignment override.
#[derive(Debug, Clone, PartialEq)]
pub struct AssignmentOverrideDates {
    unlock_at: Option<DueDate>,
    due_at: Option<DueDate>,
    lock_at: Option<DueDate>,
}

/// Why override dates do not form a window.
#[derive(Debug, Clone, Copy, PartialEq, Eq, Structural)]
pub enum AssignmentOverrideDatesError {
    UnlockAfterDue,
    DueAfterLock,
    UnlockAfterLock,
}

impl AssignmentOverrideDatesError {
    /// The error's message.
    pub fn message(&self) -> (r: &'static str)
        ensures
            r@ == match self {
                AssignmentOverrideDatesError::UnlockAfterDue => "override unlock date must be on or before the due date"@,
                AssignmentOverrideDatesError::DueAfterLock => "override due date must be on or before the lock date"@,
                AssignmentOverrideDatesError::UnlockAfterLock => "override unlock date must be on or before the lock date"@,
            },
    {
        match self {
            AssignmentOverrideDatesError::UnlockAfterDue => "override unlock date must be on or before the due date",
            AssignmentOverrideDatesError::DueAfterLock => "override due date must be on or before the lock date",
            AssignmentOverrideDatesError::UnlockAfterLock => "override unlock date must be on or before the lock date",
        }
    }
}

/// The first order violation of override dates, checked in the order
/// unlock/due, due/lock, unlock/lock.
pub open spec fn override_window_error(
    unlock: Option<DueDate>,
    due: Option<DueDate>,
    lock: Option<DueDate>,
) -> Option<AssignmentOverrideDatesError> {
    if is_after(unlock, due) {
        Some(AssignmentOverrideDatesError::UnlockAfterDue)
    } else if is_after(due, lock) {
        Some(AssignmentOverrideDatesError::DueAfterLock)
    } else if is_after(unlock, lock) {
        Some(AssignmentOverrideDatesError::UnlockAfterLock)
    } else {
        None
    }
}

impl View for AssignmentOverrideDates {
    type V = DateWindow;

    closed spec fn view(&self) -> DateWindow {
        window_of(self.unlock_at, self.due_at, self.lock_at)
    }
}

impl AssignmentOverrideDates {
    /// Override dates; each date present must not be later than the ones after it.
    pub fn new(
        unlock_at: Option<DueDate>,
        due_at: Option<DueDate>,
        lock_at: Option<DueDate>,
    ) -> (r: Result<Self, AssignmentOverrideDatesError>)
        ensures
            match r {
                Ok(w) => override_window_error(unlock_at, due_at, lock_at) is None && w@
                    == window_of(unlock_at, due_at, lock_at) && window_ordered(w@),
                Err(e) => override_window_error(unlock_at, due_at, lock_at) == Some(e),
            },
    {
        if after(&unlock_at, &due_at) {
            return Err(AssignmentOverrideDatesError::UnlockAfterDue);
        }
        if after(&due_at, &lock_at) {
            return Err(AssignmentOverrideDatesError::DueAfterLock);
        }
        if after(&unlock_at, &lock_at) {
            return Err(AssignmentOverrideDatesError::UnlockAfterLock);
        }
        Ok(AssignmentOverrideDates { unlock_at, due_at, lock_at })
    }

    /// The unlock date.
    pub fn unlock_at(&self) -> (r: Option<DueDate>)
        ensures
            view_of(r) == self@.unlock,
    {
        copy_date(&self.unlock_at)
    }

    /// The due date.
    pub fn due_at(&self) -> (r: Option<DueDate>)
        ensures
            view_of(r) == self@.due,
    {
        copy_date(&self.due_at)
    }

    /// The lock date.
    pub fn lock_at(&self) -> (r: Option<DueDate>)
        ensures
            view_of(r) == self@.lock,
    {
        copy_date(&self.lock_at)
    }
}

/// The start and end dates of a course.
#[derive(Debug, Clone, PartialEq)]
pub struct CourseDates {
    start: Option<DueDate>,
    end: Option<DueDate>,
}

/// Why course dates are out of order.
#[derive(Debug, Clone, Copy, PartialEq, Eq, Structural)]
pub enum CourseDatesError {
    StartAfterEnd,
}

impl CourseDatesError {
    /// The error's message.
    pub fn message(&self) -> (r: &'static str)
        ensures
            r@ == "course start date must be on or before the end date"@,
    {
        "course start date must be on or before the end date"
    }
}

/// The model of course dates.
pub ghost struct CourseDatesView {
    pub start: Option<Timestamp>,
    pub end: Option<Timestamp>,
}

impl View for CourseDates {
    type V = CourseDatesView;

    closed spec fn view(&self) -> CourseDatesView {
        CourseDatesView { start: view_of(self.start), end: view_of(self.end) }
    }
}

impl CourseDates {
    /// Course dates; the start must not be later than the end where both are given.
    pub fn new(start: Option<DueDate>, end: Option<DueDate>) -> (r: Result<Self, CourseDatesError>)
        ensures
            match r {
                Ok(d) => !is_after(start, end) && d@ == (CourseDatesView {
                    start: view_of(start),
                    end: view_of(end),
                }) && in_order(d@.start, d@.end),
                Err(_) => is_after(start, end),
            },
    {
        if after(&start, &end) {
            return Err(CourseDatesError::StartAfterEnd);
        }
        Ok(CourseDates { start, end })
    }

    /// The start date.
    pub fn start(&self) -> (r: Option<DueDate>)
        ensures
            view_of(r) == self@.start,
    {
        copy_date(&self.start)
    }

    /// The end date.
    pub fn end(&self) -> (r: Option<DueDate>)
        ensures
            view_of(r) == self@.end,
    {
        copy_date(&self.end)
    }
}

/// How and when peer reviews are assigned.
#[derive(Debug, Clone, PartialEq)]
pub struct PeerReviewSettings {
    mode: PeerReviewMode,
    assign_at: Option<DueDate>,
    due_at: Option<DueDate>,
}

/// Why peer review settings are inconsistent.
#[derive(Debug, Clone, Copy, PartialEq, Eq, Structural)]
pub enum PeerReviewSettingsError {
    MissingAssignAt,
    ManualAssignAt,
    AssignAfterDue,
}

impl PeerReviewSettingsError {
    /// The error's message.
    pub fn message(&self) -> (r: &'static str)
        ensures
            r@ == match self {
                PeerReviewSettingsError::MissingAssignAt => "automatic peer reviews require an assign date"@,
                PeerReviewSettingsError::ManualAssignAt => "manual peer reviews cannot specify an assign date"@,
                PeerReviewSettingsError::AssignAfterDue => "peer review assign date must be on or before the due date"@,
            },
    {
        match self {
            PeerReviewSettingsError::MissingAssignAt => "automatic peer reviews require an assign date",
            PeerReviewSettingsError::ManualAssignAt => "manual peer reviews cannot specify an assign date",
            PeerReviewSettingsError::AssignAfterDue => "peer review assign date must be on or before the due date",
        }
    }
}

/// The first inconsistency of peer review settings.
pub open spec fn peer_review_error(
    mode: PeerReviewMode,
    assign_at: Option<DueDate>,
    due_at: Option<DueDate>,
) -> Option<PeerReviewSettingsError> {
    if mode == PeerReviewMode::Automatic && assign_at is None {
        Some(PeerReviewSettingsError::MissingAssignAt)
    } else if mode == PeerReviewMode::Manual && assign_at is Some {
        Some(PeerReviewSettingsError::ManualAssignAt)
    } else if is_after(assign_at, due_at) {
        Some(PeerReviewSettingsError::AssignAfterDue)
    } else {
        None
    }
}

/// The model of peer review settings.
pub ghost struct PeerReviewView {
    pub mode: PeerReviewMode,
    pub assign_at: Option<Timestamp>,
    pub due_at: Option<Timestamp>,
}

impl View for PeerReviewSettings {
    type V = PeerReviewView;

    closed spec fn view(&self) -> PeerReviewView {
        PeerReviewView {
            mode: self.mode,
            assign_at: view_of(self.assign_at),
            due_at: view_of(self.due_at),
        }
    }
}

impl PeerReviewSettings {
    /// Peer review settings: automatic reviews need an assign date, manual ones
    /// take none, and the assign date must not be later than the due date.
    pub fn new(
        mode: PeerReviewMode,
        assign_at: Option<DueDate>,
        due_at: Option<DueDate>,
    ) -> (r: Result<Self, PeerReviewSettingsError>)
        ensures
            match r {
                Ok(s) => peer_review_error(mode, assign_at, due_at) is None && s@ == (
                PeerReviewView { mode, assign_at: view_of(assign_at), due_at: view_of(due_at) }),
                Err(e) => peer_review_error(mode, assign_at, due_at) == Some(e),
            },
    {
        match mode {
            PeerReviewMode::Automatic => {
                if assign_at.is_none() {
                    return Err(PeerReviewSettingsError::MissingAssignAt);
                }
            },
            PeerReviewMode::Manual => {
                if assign_at.is_some() {
                    return Err(PeerReviewSettingsError::ManualAssignAt);
                }
            },
        }
        if after(&assign_at, &due_at) {
            return Err(PeerReviewSettingsError::AssignAfterDue);
        }
        Ok(PeerReviewSettings { mode, assign_at, due_at })
    }

    /// The review mode.
    pub fn mode(&self) -> (r: PeerReviewMode)
        ensures
            r == self@.mode,
    {
        self.mode
    }

    /// The date reviews are assigned.
    pub fn assign_at(&self) -> (r: Option<DueDate>)
        ensures
            view_of(r) == self@.assign_at,
    {
        copy_date(&self.assign_at)
    }

    /// The date reviews are due.
    pub fn due_at(&self) -> (r: Option<DueDate>)
        ensures
            view_of(r) == self@.due_at,
    {
        copy_date(&self.due_at)
    }
}

/// Whether an assignment is done individually or by groups of a category.
#[derive(Debug, Clone, Copy, PartialEq, Eq, Structural)]
pub enum GroupAssignmentSettings {
    Individual,
    Group { category_id: GroupCategoryId },
}

/// Why group assignment settings are inconsistent.
#[derive(Debug, Clone, Copy, PartialEq, Eq, Structural)]
pub enum GroupAssignmentSettingsError {
    MissingCategory,
    CategoryNotAllowed,
}

impl GroupAssignmentSettingsError {
    /// The error's message.
    pub fn message(&self) -> (r: &'static str)
        ensures
            r@ == match self {
                GroupAssignmentSettingsError::MissingCategory => "group assignments require a group category id"@,
                GroupAssignmentSettingsError::CategoryNotAllowed => "individual assignments cannot specify a group category id"@,
            },
    {
        match self {
            GroupAssignmentSettingsError::MissingCategory => "group assignments require a group category id",
            GroupAssignmentSettingsError::CategoryNotAllowed => "individual assignments cannot specify a group category id",
        }
    }
}

impl GroupAssignmentSettings {
    /// Group settings: group work needs a category, individual work takes none.
    pub fn new(mode: GroupAssignmentMode, category_id: Option<GroupCategoryId>) -> (r: Result<
        Self,
        GroupAssignmentSettingsError,
    >)
        ensures
            match mode {
                GroupAssignmentMode::Group => match category_id {
                    Some(c) => r == Ok::<Self, GroupAssignmentSettingsError>(
                        GroupAssignmentSettings::Group { category_id: c },
                    ),
                    None => r == Err::<Self, GroupAssignmentSettingsError>(
                        GroupAssignmentSettingsError::MissingCategory,
                    ),
                },
                GroupAssignmentMode::Individual => match category_id {
                    Some(_) => r == Err::<Self, GroupAssignmentSettingsError>(
                        GroupAssignmentSettingsError::CategoryNotAllowed,
                    ),
                    None => r == Ok::<Self, GroupAssignmentSettingsError>(
                        GroupAssignmentSettings::Individual,
                    ),
                },
            },
    {
        match mode {
            GroupAssignmentMode::Group => match category_id {
                Some(category_id) => Ok(GroupAssignmentSettings::Group { category_id }),
                None => Err(GroupAssignmentSettingsError::MissingCategory),
            },
            GroupAssignmentMode::Individual => {
                if category_id.is_some() {
                    return Err(GroupAssignmentSettingsError::CategoryNotAllowed);
                }
                Ok(GroupAssignmentSettings::Individual)
            },
        }
    }

    /// Whether the work is individual or by groups.
    pub fn mode(self) -> (r: GroupAssignmentMode)
        ensures
            r == (match self {
                GroupAssignmentSettings::Individual => GroupAssignmentMode::Individual,
                GroupAssignmentSettings::Group { .. } => GroupAssignmentMode::Group,
            }),
    {
        match self {
            GroupAssignmentSettings::Individual => GroupAssignmentMode::Individual,
            GroupAssignmentSettings::Group { .. } => GroupAssignmentMode::Group,
        }
    }

    /// The group category, for group work.
    pub fn category_id(self) -> (r: Option<GroupCategoryId>)
        ensures
            r == (match self {
                GroupAssignmentSettings::Individual => None,
                GroupAssignmentSettings::Group { category_id } => Some(category_id),
            }),
    {
        match self {
            GroupAssignmentSettings::Individual => None,
            GroupAssignmentSettings::Group { category_id } => Some(category_id),
        }
    }
}

/// The students an override applies to: at least one.
#[derive(Debug, Clone, PartialEq, Eq)]
pub struct OverrideStudentIds(Vec<UserId>);

/// Why an override names no students.
#[derive(Debug, Clone, Copy, PartialEq, Eq, Structural)]
pub enum OverrideStudentIdsError {
    Empty,
}

impl OverrideStudentIdsError {
    /// The error's message.
    pub fn message(&self) -> (r: &'static str)
        ensures
            r@ == "override must include at least one student id"@,
    {
        "override must include at least one student id"
    }
}

impl View for OverrideStudentIds {
    type V = Seq<UserId>;

    closed spec fn view(&self) -> Seq<UserId> {
        self.0@
    }
}

impl OverrideStudentIds {
    /// The students of an override; the list must not be empty.
    pub fn new(ids: Vec<UserId>) -> (r: Result<Self, OverrideStudentIdsError>)
        ensures
            match r {
                Ok(s) => ids@.len() > 0 && s@ == ids@,
                Err(_) => ids@.len() == 0,
            },
    {
        if ids.len() == 0 {
            return Err(OverrideStudentIdsError::Empty);
        }
        Ok(OverrideStudentIds(ids))
    }

    /// The students, in order.
    pub fn ids(&self) -> (r: &[UserId])
        ensures
            r@ == self@,
    {
        self.0.as_slice()
    }
}

/// Whom an assignment override applies to.
#[derive(Debug, Clone, PartialEq, Eq)]
pub enum AssignmentOverrideTarget {
    Section(SectionId),
    Students(OverrideStudentIds),
}

/// Different dates for a section or for some students.
#[derive(Debug, Clone, PartialEq)]
pub struct AssignmentOverride {
    pub target: AssignmentOverrideTarget,
    pub dates: AssignmentOverrideDates,
}

impl AssignmentOverride {
    /// An override of `dates` for `target`.
    pub fn new(target: AssignmentOverrideTarget, dates: AssignmentOverrideDates) -> (r: Self)
        ensures
            r.target == target,
            r.dates == dates,
    {
        AssignmentOverride { target, dates }
    }

    /// Whom the override applies to.
    pub fn target(&self) -> (r: &AssignmentOverrideTarget)
        ensures
            *r == self.target,
    {
        &self.target
    }

    /// The override's dates.
    pub fn dates(&self) -> (r: &AssignmentOverrideDates)
        ensures
            *r == self.dates,
    {
        &self.dates
    }
}

/// A non-empty list of assignment overrides.
#[derive(Debug, Clone, PartialEq)]
pub struct AssignmentOverrides(Vec<AssignmentOverride>);

/// Why an override list is refused.
#[derive(Debug, Clone, Copy, PartialEq, Eq, Structural)]
pub enum AssignmentOverridesError {
    Empty,
}

impl AssignmentOverridesError {
    /// The error's message.
    pub fn message(&self) -> (r: &'static str)
        ensures
            r@ == "assignment overrides must be a non-empty list"@,
    {
        "assignment overrides must be a non-empty list"
    }
}

impl View for AssignmentOverrides {
    type V = Seq<AssignmentOverride>;

    closed spec fn view(&self) -> Seq<AssignmentOverride> {
        self.0@
    }
}

impl AssignmentOverrides {
    /// An override list; it must not be empty.
    pub fn new(overrides: Vec<AssignmentOverride>) -> (r: Result<Self, AssignmentOverridesError>)
        ensures
            match r {
                Ok(s) => overrides@.len() > 0 && s@ == overrides@,
                Err(_) => overrides@.len() == 0,
            },
    {
        if overrides.len() == 0 {
            return Err(AssignmentOverridesError::Empty);
        }
        Ok(AssignmentOverrides(overrides))
    }

    /// The overrides, in order.
    pub fn overrides(&self) -> (r: &[AssignmentOverride])
        ensures
            r@ == self@,
    {
        self.0.as_slice()
    }
}

/// The recipients of a message: at least one user.
#[derive(Debug, Clone, PartialEq, Eq)]
pub struct RecipientIds(Vec<UserId>);

/// Why a recipient list is refused.
#[derive(Debug, Clone, Copy, PartialEq, Eq, Structural)]
pub enum RecipientIdsError {
    Empty,
}

impl RecipientIdsError {
    /// The error's message.
    pub fn message(&self) -> (r: &'static str)
        ensures
            r@ == "recipients must not be empty"@,
    {
        "recipients must not be empty"
    }
}

impl View for RecipientIds {
    type V = Seq<UserId>;

    closed spec fn view(&self) -> Seq<UserId> {
        self.0@
    }
}

impl RecipientIds {
    /// A recipient list; it must not be empty.
    pub fn new(ids: Vec<UserId>) -> (r: Result<Self, RecipientIdsError>)
        ensures
            match r {
                Ok(s) => ids@.len() > 0 && s@ == ids@,
                Err(_) => ids@.len() == 0,
            },
    {
        if ids.len() == 0 {
            return Err(RecipientIdsError::Empty);
        }
        Ok(RecipientIds(ids))
    }

    /// The recipients, in order.
    pub fn ids(&self) -> (r: &[UserId])
        ensures
            r@ == self@,
    {
        self.0.as_slice()
    }
}

/// The text of an optional date.
pub open spec fn stamp_text(d: Option<Timestamp>) -> Option<Seq<char>> {
    match d {
        Some(t) => Some(t.text),
        None => None,
    }
}

/// The text of an optional string.
pub open spec fn text_of(t: Option<String>) -> Option<Seq<char>> {
    match t {
        Some(t) => Some(t@),
        None => None,
    }
}

fn date_text(d: Option<DueDate>) -> (r: Option<String>)
    ensures
        text_of(r) == stamp_text(view_of(d)),
{
    match d {
        Some(d) => Some(d.as_rfc3339()),
        None => None,
    }
}

/// The unlock, due and lock dates of a quiz window as the texts sent for
/// them; all absent where there is no window.
pub fn availability_fields(availability: Option<&QuizAvailability>) -> (r: (
    Option<String>,
    Option<String>,
    Option<String>,
))
    ensures
        match availability {
            Some(a) => stamp_text(a@.unlock) == text_of(r.0) && stamp_text(a@.due) == text_of(r.1)
                && stamp_text(a@.lock) == text_of(r.2),
            None => r.0 is None && r.1 is None && r.2 is None,
        },
{
    match availability {
        Some(a) => (date_text(a.unlock_at()), date_text(a.due_at()), date_text(a.lock_at())),
        None => (None, None, None),
    }
}

} // verus!
