//! The decisions of the command line that come before any request: the global
//! options, confirmation of destructive actions, which course a command is
//! about, and the typed requests that section, enrollment and calendar
//! commands stand for.

use crate::dates::{calendar_day_spec, timestamp_spec, AllDayDate, CalendarDay, DueDate, EventDateTime, Timestamp};
use crate::windows::view_of;
use crate::errors::{CanvasError, CliError};
use crate::ids::{ContentMigrationId, CourseId, EnrollmentId, GroupCategoryId, SectionId, UserId};
use crate::kinds::{
    content_migration_type_named, group_assignment_mode_named, peer_review_mode_named,
    user_role_named, ContentMigrationType, GroupAssignmentMode, PeerReviewMode, UserRole,
};
use crate::migrations::ContentMigrationCreateInput;
use crate::combine::{
    parse_external_tool_config_xml, parse_group_assignment_settings, parse_peer_review_settings,
};
use crate::contexts::ExternalToolConfigXml;
use crate::hosts::ExternalToolConfigUrl;
use crate::json::{
    external_tool_config_json_of, json_document, parse_json_document, ExternalToolConfigJson,
    JsonValue,
};
use crate::windows::{GroupAssignmentSettings, PeerReviewSettings, PeerReviewView};
use crate::parse::{
    parse_due_date, parse_group_assignment_mode, parse_group_category_id, parse_peer_review_mode,
    parse_all_day_date, parse_content_migration_id, parse_content_migration_type, parse_course_id, parse_enrollment_id, parse_event_date_time,
    parse_section_id, parse_section_name, parse_user_id, parse_user_role,
};
use crate::resources::{EnrollmentCreateInput, SectionCreateInput, SectionUpdateInput};
use crate::text::{lower, positive_id_spec, str_eq, to_ascii_lower, to_owned_string, trim};
use vstd::prelude::*;

verus! {

/// The options that hold for every command.
#[derive(Debug, Clone, Copy, PartialEq, Eq, Structural)]
pub struct GlobalOptions {
    /// The course a command is about where it names none.
    pub course: Option<CourseId>,
    /// Machine-readable output.
    pub json: bool,
    /// No human-readable output.
    pub quiet: bool,
    /// Destructive actions are confirmed.
    pub confirm: bool,
    /// Describe, do not execute.
    pub explain: bool,
}

/// The course a command is about: the one it names, else the default; `None`
/// where it names an invalid one or neither is there.
pub open spec fn course_choice(raw: Option<String>, default: Option<CourseId>) -> Option<u64> {
    match raw {
        Some(t) => positive_id_spec(t@),
        None => match default {
            Some(d) => Some(d@),
            None => None,
        },
    }
}

/// Whether `e` is the error for a course that cannot be chosen: the invalid
/// text named, or a missing course.
pub open spec fn course_refusal(raw: Option<String>, e: CliError) -> bool {
    match raw {
        Some(t) => (e matches CliError::Canvas(CanvasError::InvalidCourseId(s)) && s@ == t@),
        None => e == CliError::MissingCourseId,
    }
}

impl GlobalOptions {
    /// The global options from the command line's flags: the course, where
    /// given, must be a valid course id.
    pub fn from_args(
        course: Option<String>,
        json: bool,
        quiet: bool,
        confirm: bool,
        explain: bool,
    ) -> (r: Result<Self, CliError>)
        ensures
            match r {
                Ok(g) => {
                    &&& g.json == json && g.quiet == quiet
                    &&& g.confirm == confirm && g.explain == explain
                    &&& match course {
                        Some(t) => (g.course matches Some(c) && positive_id_spec(t@) == Some(c@)),
                        None => g.course is None,
                    }
                },
                Err(e) => course matches Some(t) && positive_id_spec(t@) is None
                    && (e matches CliError::Canvas(CanvasError::InvalidCourseId(s)) && s@ == t@),
            },
    {
        let course = match course {
            Some(raw) => match parse_course_id(raw.as_str()) {
                Ok(id) => Some(id),
                Err(e) => return Err(CliError::Canvas(e)),
            },
            None => None,
        };
        Ok(GlobalOptions { course, json, quiet, confirm, explain })
    }
}

/// A destructive `action` goes ahead only where it was confirmed.
pub fn require_confirmation(global: &GlobalOptions, action: &'static str) -> (r: Result<(), CliError>)
    ensures
        r is Ok <==> global.confirm,
        r is Err ==> r == Err::<(), CliError>(CliError::ConfirmationRequired(action)),
{
    if global.confirm {
        Ok(())
    } else {
        Err(CliError::ConfirmationRequired(action))
    }
}

/// The course a command is about: the one it names, else the default of the
/// global options.
pub fn course_for(raw: Option<String>, global: &GlobalOptions) -> (r: Result<CourseId, CliError>)
    ensures
        match r {
            Ok(id) => course_choice(raw, global.course) == Some(id@),
            Err(e) => course_choice(raw, global.course) is None && course_refusal(raw, e),
        },
{
    match raw {
        Some(t) => match parse_course_id(t.as_str()) {
            Ok(id) => Ok(id),
            Err(e) => Err(CliError::Canvas(e)),
        },
        None => match global.course {
            Some(id) => Ok(id),
            None => Err(CliError::MissingCourseId),
        },
    }
}

/// A section command as given on the command line, unvalidated.
#[derive(Debug, Clone, PartialEq, Eq)]
pub enum SectionCommand {
    List { course: Option<String> },
    Create { course: Option<String>, name: String },
    Update { section: String, name: Option<String> },
    Delete { section: String },
}

/// A validated section command.
#[derive(Debug, Clone)]
pub enum SectionRequest {
    List { course_id: CourseId },
    Create { course_id: CourseId, input: SectionCreateInput },
    Update { section_id: SectionId, input: SectionUpdateInput },
    Delete { section_id: SectionId },
}

/// Whether `e` is the error for the section id text `t`.
pub open spec fn bad_section(t: String, e: CliError) -> bool {
    positive_id_spec(t@) is None && (e matches CliError::Canvas(CanvasError::InvalidSectionId(s))
        && s@ == t@)
}

/// Whether `e` is the error for the section name text `t`.
pub open spec fn bad_section_name(t: String, e: CliError) -> bool {
    trim(t@).len() == 0 && (e matches CliError::Canvas(CanvasError::InvalidSectionName(s)) && s@
        == t@)
}

/// Whether `r` is what the section command `command` stands for: its values
/// are checked in the order they are given, and the first invalid one is
/// reported.
pub open spec fn section_outcome(
    command: SectionCommand,
    default: Option<CourseId>,
    r: Result<SectionRequest, CliError>,
) -> bool {
    match command {
        SectionCommand::List { course } => match r {
            Ok(req) => req matches SectionRequest::List { course_id }
                && course_choice(course, default) == Some(course_id@),
            Err(e) => course_choice(course, default) is None && course_refusal(course, e),
        },
        SectionCommand::Create { course, name } => match r {
            Ok(req) => req matches SectionRequest::Create { course_id, input }
                && course_choice(course, default) == Some(course_id@)
                && trim(name@).len() > 0 && input.name@ == trim(name@),
            Err(e) => if course_choice(course, default) is None {
                course_refusal(course, e)
            } else {
                bad_section_name(name, e)
            },
        },
        SectionCommand::Update { section, name } => match r {
            Ok(req) => req matches SectionRequest::Update { section_id, input }
                && positive_id_spec(section@) == Some(section_id@)
                && (name matches Some(n) && trim(n@).len() > 0
                && (input.name matches Some(m) && m@ == trim(n@))),
            Err(e) => if positive_id_spec(section@) is None {
                bad_section(section, e)
            } else {
                match name {
                    Some(n) => bad_section_name(n, e),
                    None => (e matches CliError::Canvas(CanvasError::InvalidSectionUpdate(s))
                        && s@ == "no_fields"@),
                }
            },
        },
        SectionCommand::Delete { section } => match r {
            Ok(req) => req matches SectionRequest::Delete { section_id }
                && positive_id_spec(section@) == Some(section_id@),
            Err(e) => bad_section(section, e),
        },
    }
}

/// The validated request that a section command stands for.
pub fn section_request(command: SectionCommand, global: &GlobalOptions) -> (r: Result<
    SectionRequest,
    CliError,
>)
    ensures
        section_outcome(command, global.course, r),
{
    match command {
        SectionCommand::List { course } => {
            let course_id = course_for(course, global)?;
            Ok(SectionRequest::List { course_id })
        },
        SectionCommand::Create { course, name } => {
            let course_id = course_for(course, global)?;
            let name = match parse_section_name(name.as_str()) {
                Ok(n) => n,
                Err(e) => return Err(CliError::Canvas(e)),
            };
            let input = SectionCreateInput::new(name);
            Ok(SectionRequest::Create { course_id, input })
        },
        SectionCommand::Update { section, name } => {
            let section_id = match parse_section_id(section.as_str()) {
                Ok(id) => id,
                Err(e) => return Err(CliError::Canvas(e)),
            };
            let name = match name {
                Some(raw) => match parse_section_name(raw.as_str()) {
                    Ok(n) => Some(n),
                    Err(e) => return Err(CliError::Canvas(e)),
                },
                None => None,
            };
            match SectionUpdateInput::new(name) {
                Ok(input) => Ok(SectionRequest::Update { section_id, input }),
                Err(e) => Err(CliError::Canvas(e)),
            }
        },
        SectionCommand::Delete { section } => {
            match parse_section_id(section.as_str()) {
                Ok(section_id) => Ok(SectionRequest::Delete { section_id }),
                Err(e) => Err(CliError::Canvas(e)),
            }
        },
    }
}

/// An enrollment command as given on the command line, unvalidated.
#[derive(Debug, Clone, PartialEq, Eq)]
pub enum EnrollmentCommand {
    List { section: String, role: Option<String> },
    Add { section: String, user: String, role: String, limit_to_section: bool },
    Remove { section: String, enrollment: String },
}

/// A validated enrollment command.
#[derive(Debug, Clone, Copy, PartialEq, Eq, Structural)]
pub enum EnrollmentRequest {
    List { section_id: SectionId, role: Option<UserRole> },
    Add { section_id: SectionId, input: EnrollmentCreateInput },
    Remove { section_id: SectionId, enrollment_id: EnrollmentId },
}

/// Whether `e` is the error for the role text `t`.
pub open spec fn bad_role(t: String, e: CliError) -> bool {
    user_role_named(lower(trim(t@))) is None && (e matches CliError::Canvas(
        CanvasError::InvalidUserRole(s),
    ) && s@ == t@)
}

/// Whether `r` is what the enrollment command `command` stands for: its
/// values are checked in the order they are given, and the first invalid one
/// is reported.
pub open spec fn enrollment_outcome(command: EnrollmentCommand, r: Result<EnrollmentRequest, CliError>) -> bool {
    match command {
        EnrollmentCommand::List { section, role } => match r {
            Ok(req) => req matches EnrollmentRequest::List { section_id, role: parsed }
                && positive_id_spec(section@) == Some(section_id@)
                && match role {
                    Some(t) => parsed == user_role_named(lower(trim(t@))) && parsed is Some,
                    None => parsed is None,
                },
            Err(e) => if positive_id_spec(section@) is None {
                bad_section(section, e)
            } else {
                (role matches Some(t) && bad_role(t, e))
            },
        },
        EnrollmentCommand::Add { section, user, role, limit_to_section } => match r {
            Ok(req) => req matches EnrollmentRequest::Add { section_id, input }
                && positive_id_spec(section@) == Some(section_id@)
                && positive_id_spec(user@) == Some(input.user_id@)
                && user_role_named(lower(trim(role@))) == Some(input.role)
                && input.limit_privileges_to_section == limit_to_section,
            Err(e) => if positive_id_spec(section@) is None {
                bad_section(section, e)
            } else if positive_id_spec(user@) is None {
                (e matches CliError::Canvas(CanvasError::InvalidUserId(s)) && s@ == user@)
            } else {
                bad_role(role, e)
            },
        },
        EnrollmentCommand::Remove { section, enrollment } => match r {
            Ok(req) => req matches EnrollmentRequest::Remove { section_id, enrollment_id }
                && positive_id_spec(section@) == Some(section_id@)
                && positive_id_spec(enrollment@) == Some(enrollment_id@),
            Err(e) => if positive_id_spec(section@) is None {
                bad_section(section, e)
            } else {
                positive_id_spec(enrollment@) is None && (e matches CliError::Canvas(
                    CanvasError::InvalidEnrollmentId(s),
                ) && s@ == enrollment@)
            },
        },
    }
}

/// The validated request that an enrollment command stands for.
pub fn enrollment_request(command: EnrollmentCommand) -> (r: Result<EnrollmentRequest, CliError>)
    ensures
        enrollment_outcome(command, r),
{
    match command {
        EnrollmentCommand::List { section, role } => {
            let section_id = match parse_section_id(section.as_str()) {
                Ok(id) => id,
                Err(e) => return Err(CliError::Canvas(e)),
            };
            let role = match role {
                Some(raw) => match parse_user_role(raw.as_str()) {
                    Ok(role) => Some(role),
                    Err(e) => return Err(CliError::Canvas(e)),
                },
                None => None,
            };
            Ok(EnrollmentRequest::List { section_id, role })
        },
        EnrollmentCommand::Add { section, user, role, limit_to_section } => {
            let section_id = match parse_section_id(section.as_str()) {
                Ok(id) => id,
                Err(e) => return Err(CliError::Canvas(e)),
            };
            let user_id: UserId = match parse_user_id(user.as_str()) {
                Ok(id) => id,
                Err(e) => return Err(CliError::Canvas(e)),
            };
            let role = match parse_user_role(role.as_str()) {
                Ok(role) => role,
                Err(e) => return Err(CliError::Canvas(e)),
            };
            let input = EnrollmentCreateInput::new(user_id, role, limit_to_section);
            Ok(EnrollmentRequest::Add { section_id, input })
        },
        EnrollmentCommand::Remove { section, enrollment } => {
            let section_id = match parse_section_id(section.as_str()) {
                Ok(id) => id,
                Err(e) => return Err(CliError::Canvas(e)),
            };
            match parse_enrollment_id(enrollment.as_str()) {
                Ok(enrollment_id) => Ok(EnrollmentRequest::Remove { section_id, enrollment_id }),
                Err(e) => Err(CliError::Canvas(e)),
            }
        },
    }
}

/// A content migration command as given on the command line, unvalidated.
#[derive(Debug, Clone, PartialEq, Eq)]
pub enum ContentMigrationCommand {
    List { course: Option<String> },
    Create {
        course: Option<String>,
        migration_type: String,
        source_course: Option<String>,
        file: Option<String>,
        wait: bool,
    },
    Show { course: Option<String>, migration: String, wait: bool },
}

/// A validated content migration command.
#[derive(Debug, Clone, PartialEq, Eq)]
pub enum ContentMigrationRequest {
    List { course_id: CourseId },
    Create { course_id: CourseId, input: ContentMigrationCreateInput, wait: bool },
    Show { course_id: CourseId, migration_id: ContentMigrationId, wait: bool },
}

/// Whether `e` is `InvalidContentMigrationCreate` with `detail`.
pub open spec fn bad_migration_create(e: CliError, detail: Seq<char>) -> bool {
    e matches CliError::Canvas(CanvasError::InvalidContentMigrationCreate(s)) && s@ == detail
}

/// What a migration of the given type is made from: a source course for a
/// copy, a file for an import.
pub open spec fn migration_input_ok(
    kind: ContentMigrationType,
    source_course: Option<String>,
    file: Option<String>,
    input: ContentMigrationCreateInput,
) -> bool {
    match kind {
        ContentMigrationType::CourseCopy => source_course matches Some(t) && (
        input matches ContentMigrationCreateInput::CourseCopy { source_course_id }
            && positive_id_spec(t@) == Some(source_course_id@)),
        ContentMigrationType::FileImport => file matches Some(f) && input
            == ContentMigrationCreateInput::FileImport { file: f },
    }
}

/// Whether `e` is the error for a migration of the given type whose source
/// is missing or invalid.
pub open spec fn migration_input_refusal(
    kind: ContentMigrationType,
    source_course: Option<String>,
    file: Option<String>,
    e: CliError,
) -> bool {
    match kind {
        ContentMigrationType::CourseCopy => match source_course {
            None => bad_migration_create(e, "missing_source_course"@),
            Some(t) => positive_id_spec(t@) is None && (e matches CliError::Canvas(
                CanvasError::InvalidCourseId(s),
            ) && s@ == t@),
        },
        ContentMigrationType::FileImport => file is None && bad_migration_create(
            e,
            "missing_file"@,
        ),
    }
}

/// Whether `r` is what the content migration command `command` stands for:
/// the course first, then the type, then what the type needs.
pub open spec fn content_migration_outcome(
    command: ContentMigrationCommand,
    default: Option<CourseId>,
    r: Result<ContentMigrationRequest, CliError>,
) -> bool {
    match command {
        ContentMigrationCommand::List { course } => match r {
            Ok(req) => req matches ContentMigrationRequest::List { course_id }
                && course_choice(course, default) == Some(course_id@),
            Err(e) => course_choice(course, default) is None && course_refusal(course, e),
        },
        ContentMigrationCommand::Create { course, migration_type, source_course, file, wait } => {
            let kind = content_migration_type_named(lower(trim(migration_type@)));
            match r {
                Ok(req) => req matches ContentMigrationRequest::Create {
                    course_id,
                    input,
                    wait: w,
                } && course_choice(course, default) == Some(course_id@) && w == wait && (
                kind matches Some(k) && migration_input_ok(k, source_course, file, input)),
                Err(e) => if course_choice(course, default) is None {
                    course_refusal(course, e)
                } else {
                    match kind {
                        None => e matches CliError::Canvas(
                            CanvasError::InvalidContentMigrationType(s),
                        ) && s@ == migration_type@,
                        Some(k) => migration_input_refusal(k, source_course, file, e),
                    }
                },
            }
        },
        ContentMigrationCommand::Show { course, migration, wait } => match r {
            Ok(req) => req matches ContentMigrationRequest::Show {
                course_id,
                migration_id,
                wait: w,
            } && course_choice(course, default) == Some(course_id@) && positive_id_spec(
                migration@,
            ) == Some(migration_id@) && w == wait,
            Err(e) => if course_choice(course, default) is None {
                course_refusal(course, e)
            } else {
                positive_id_spec(migration@) is None && (e matches CliError::Canvas(
                    CanvasError::InvalidContentMigrationId(s),
                ) && s@ == migration@)
            },
        },
    }
}

/// The validated request that a content migration command stands for.
pub fn content_migration_request(command: ContentMigrationCommand, global: &GlobalOptions) -> (r:
    Result<ContentMigrationRequest, CliError>)
    ensures
        content_migration_outcome(command, global.course, r),
{
    match command {
        ContentMigrationCommand::List { course } => {
            let course_id = course_for(course, global)?;
            Ok(ContentMigrationRequest::List { course_id })
        },
        ContentMigrationCommand::Create { course, migration_type, source_course, file, wait } => {
            let course_id = course_for(course, global)?;
            let kind = match parse_content_migration_type(migration_type.as_str()) {
                Ok(k) => k,
                Err(e) => return Err(CliError::Canvas(e)),
            };
            let input = match kind {
                ContentMigrationType::CourseCopy => match source_course {
                    None => {
                        return Err(
                            CliError::Canvas(
                                CanvasError::InvalidContentMigrationCreate(
                                    to_owned_string("missing_source_course"),
                                ),
                            ),
                        );
                    },
                    Some(raw) => match parse_course_id(raw.as_str()) {
                        Ok(source_course_id) => ContentMigrationCreateInput::CourseCopy {
                            source_course_id,
                        },
                        Err(e) => return Err(CliError::Canvas(e)),
                    },
                },
                ContentMigrationType::FileImport => match file {
                    None => {
                        return Err(
                            CliError::Canvas(
                                CanvasError::InvalidContentMigrationCreate(
                                    to_owned_string("missing_file"),
                                ),
                            ),
                        );
                    },
                    Some(file) => ContentMigrationCreateInput::FileImport { file },
                },
            };
            Ok(ContentMigrationRequest::Create { course_id, input, wait })
        },
        ContentMigrationCommand::Show { course, migration, wait } => {
            let course_id = course_for(course, global)?;
            match parse_content_migration_id(migration.as_str()) {
                Ok(migration_id) => Ok(ContentMigrationRequest::Show { course_id, migration_id, wait }),
                Err(e) => Err(CliError::Canvas(e)),
            }
        },
    }
}

/// Why the peer review options of a command were refused.
pub ghost enum ReviewRefusal {
    /// Dates were given without a mode: `InvalidPeerReviewSettings("missing_mode")`.
    MissingMode,
    /// The mode is not a review mode: `InvalidPeerReviewMode` with the text.
    BadMode(Seq<char>),
    /// A date is not a timestamp: `InvalidDueDate` with the text.
    BadDate(Seq<char>),
    /// The settings are inconsistent: `InvalidPeerReviewSettings("invalid")`.
    Inconsistent,
}

/// Whether `e` is the error for `f`.
pub open spec fn reports_review(f: ReviewRefusal, e: CliError) -> bool {
    match f {
        ReviewRefusal::MissingMode => e matches CliError::Canvas(
            CanvasError::InvalidPeerReviewSettings(s),
        ) && s@ == "missing_mode"@,
        ReviewRefusal::BadMode(t) => e matches CliError::Canvas(CanvasError::InvalidPeerReviewMode(s))
            && s@ == t,
        ReviewRefusal::BadDate(t) => e matches CliError::Canvas(CanvasError::InvalidDueDate(s))
            && s@ == t,
        ReviewRefusal::Inconsistent => e matches CliError::Canvas(
            CanvasError::InvalidPeerReviewSettings(s),
        ) && s@ == "invalid"@,
    }
}

/// Whether peer review settings are inconsistent: automatic reviews without
/// an assign date, manual ones with one, or an assign date after the due date.
pub open spec fn review_conflict(
    mode: PeerReviewMode,
    assign_at: Option<Timestamp>,
    due_at: Option<Timestamp>,
) -> bool {
    ||| mode == PeerReviewMode::Automatic && assign_at is None
    ||| mode == PeerReviewMode::Manual && assign_at is Some
    ||| assign_at is Some && due_at is Some && assign_at->0.instant > due_at->0.instant
}

/// An optional date option: absent, or a timestamp.
pub open spec fn date_option(raw: Option<String>) -> Result<Option<Timestamp>, Seq<char>> {
    match raw {
        None => Ok(None),
        Some(t) => match timestamp_spec(t@) {
            Some(ts) => Ok(Some(ts)),
            None => Err(t@),
        },
    }
}

/// The peer review settings of a command's options: none where no option is
/// given; else a mode is needed, and the mode, the assign date and the due
/// date are read in that order.
pub open spec fn review_input_spec(
    mode: Option<String>,
    assign_at: Option<String>,
    due_at: Option<String>,
) -> Result<Option<PeerReviewView>, ReviewRefusal> {
    if mode is None && assign_at is None && due_at is None {
        Ok(None)
    } else {
        match mode {
            None => Err(ReviewRefusal::MissingMode),
            Some(m) => match peer_review_mode_named(lower(trim(m@))) {
                None => Err(ReviewRefusal::BadMode(m@)),
                Some(k) => match date_option(assign_at) {
                    Err(t) => Err(ReviewRefusal::BadDate(t)),
                    Ok(a) => match date_option(due_at) {
                        Err(t) => Err(ReviewRefusal::BadDate(t)),
                        Ok(d) => if review_conflict(k, a, d) {
                            Err(ReviewRefusal::Inconsistent)
                        } else {
                            Ok(Some(PeerReviewView { mode: k, assign_at: a, due_at: d }))
                        },
                    },
                },
            },
        }
    }
}

/// The date of an optional text; the error carries the text that is not a date.
pub fn date_input(raw: Option<String>) -> (r: Result<Option<DueDate>, CliError>)
    ensures
        match r {
            Ok(d) => date_option(raw) == Ok::<Option<Timestamp>, Seq<char>>(view_of(d)),
            Err(e) => date_option(raw) matches Err(t) && (e matches CliError::Canvas(
                CanvasError::InvalidDueDate(s),
            ) && s@ == t),
        },
{
    match raw {
        None => Ok(None),
        Some(t) => match parse_due_date(t.as_str()) {
            Ok(d) => Ok(Some(d)),
            Err(e) => Err(CliError::Canvas(e)),
        },
    }
}

/// The peer review settings of a command's mode, assign date and due date
/// options.
pub fn parse_peer_review_settings_input(
    mode: Option<String>,
    assign_at: Option<String>,
    due_at: Option<String>,
) -> (r: Result<Option<PeerReviewSettings>, CliError>)
    ensures
        match r {
            Ok(s) => review_input_spec(mode, assign_at, due_at) == Ok::<
                Option<PeerReviewView>,
                ReviewRefusal,
            >(
                match s {
                    Some(s) => Some(s@),
                    None => None,
                },
            ),
            Err(e) => review_input_spec(mode, assign_at, due_at) matches Err(f) && reports_review(
                f,
                e,
            ),
        },
{
    if mode.is_none() && assign_at.is_none() && due_at.is_none() {
        return Ok(None);
    }
    let mode = match mode {
        Some(m) => m,
        None => {
            return Err(
                CliError::Canvas(
                    CanvasError::InvalidPeerReviewSettings(to_owned_string("missing_mode")),
                ),
            );
        },
    };
    let kind = match parse_peer_review_mode(mode.as_str()) {
        Ok(k) => k,
        Err(e) => return Err(CliError::Canvas(e)),
    };
    let assign_at = date_input(assign_at)?;
    let due_at = date_input(due_at)?;
    match parse_peer_review_settings(kind, assign_at, due_at) {
        Ok(s) => Ok(Some(s)),
        Err(e) => Err(CliError::Canvas(e)),
    }
}

/// Why the group assignment options of a command were refused.
pub ghost enum GroupRefusal {
    /// A category was given without a mode.
    MissingMode,
    /// The mode is not a group assignment mode.
    BadMode(Seq<char>),
    /// The category is not a group category id.
    BadCategory(Seq<char>),
    /// Group mode without a category, or individual mode with one.
    Inconsistent,
}

/// Whether `e` is the error for `f`.
pub open spec fn reports_group(f: GroupRefusal, e: CliError) -> bool {
    match f {
        GroupRefusal::MissingMode => e matches CliError::Canvas(
            CanvasError::InvalidGroupAssignmentSettings(s),
        ) && s@ == "missing_mode"@,
        GroupRefusal::BadMode(t) => e matches CliError::Canvas(
            CanvasError::InvalidGroupAssignmentMode(s),
        ) && s@ == t,
        GroupRefusal::BadCategory(t) => e matches CliError::Canvas(
            CanvasError::InvalidGroupCategoryId(s),
        ) && s@ == t,
        GroupRefusal::Inconsistent => e matches CliError::Canvas(
            CanvasError::InvalidGroupAssignmentSettings(s),
        ) && s@ == "invalid"@,
    }
}

/// The model of group assignment settings.
pub ghost enum GroupModel {
    Individual,
    Group(u64),
}

/// The model of group assignment settings.
pub open spec fn group_model(s: GroupAssignmentSettings) -> GroupModel {
    match s {
        GroupAssignmentSettings::Individual => GroupModel::Individual,
        GroupAssignmentSettings::Group { category_id } => GroupModel::Group(category_id@),
    }
}

/// The group assignment settings of a command's options: none where no
/// option is given; else a mode is needed, read before the category; a group
/// mode needs a category and an individual one takes none.
pub open spec fn group_input_spec(mode: Option<String>, category_id: Option<String>) -> Result<
    Option<GroupModel>,
    GroupRefusal,
> {
    if mode is None && category_id is None {
        Ok(None)
    } else {
        match mode {
            None => Err(GroupRefusal::MissingMode),
            Some(m) => match group_assignment_mode_named(lower(trim(m@))) {
                None => Err(GroupRefusal::BadMode(m@)),
                Some(k) => match category_id {
                    Some(c) => match positive_id_spec(c@) {
                        None => Err(GroupRefusal::BadCategory(c@)),
                        Some(v) => if k == GroupAssignmentMode::Group {
                            Ok(Some(GroupModel::Group(v)))
                        } else {
                            Err(GroupRefusal::Inconsistent)
                        },
                    },
                    None => if k == GroupAssignmentMode::Individual {
                        Ok(Some(GroupModel::Individual))
                    } else {
                        Err(GroupRefusal::Inconsistent)
                    },
                },
            },
        }
    }
}

/// The group assignment settings of a command's mode and category options.
pub fn parse_group_assignment_settings_input(
    mode: Option<String>,
    category_id: Option<String>,
) -> (r: Result<Option<GroupAssignmentSettings>, CliError>)
    ensures
        match r {
            Ok(s) => group_input_spec(mode, category_id) == Ok::<Option<GroupModel>, GroupRefusal>(
                match s {
                    Some(s) => Some(group_model(s)),
                    None => None,
                },
            ),
            Err(e) => group_input_spec(mode, category_id) matches Err(f) && reports_group(f, e),
        },
{
    if mode.is_none() && category_id.is_none() {
        return Ok(None);
    }
    let mode = match mode {
        Some(m) => m,
        None => {
            return Err(
                CliError::Canvas(
                    CanvasError::InvalidGroupAssignmentSettings(to_owned_string("missing_mode")),
                ),
            );
        },
    };
    let kind = match parse_group_assignment_mode(mode.as_str()) {
        Ok(k) => k,
        Err(e) => return Err(CliError::Canvas(e)),
    };
    let category = match category_id {
        Some(c) => match parse_group_category_id(c.as_str()) {
            Ok(id) => Some(id),
            Err(e) => return Err(CliError::Canvas(e)),
        },
        None => None,
    };
    match parse_group_assignment_settings(kind, category) {
        Ok(s) => Ok(Some(s)),
        Err(e) => Err(CliError::Canvas(e)),
    }
}

/// How an external tool is configured: by a URL, a JSON object or XML.
#[derive(Debug)]
pub enum ExternalToolConfig {
    Url(ExternalToolConfigUrl),
    Json(ExternalToolConfigJson),
    Xml(ExternalToolConfigXml),
}

/// Where a tool's configuration comes from: the option that gave it.
#[derive(Debug, Clone, PartialEq, Eq)]
pub enum ToolConfigSource {
    Url(String),
    Json(String),
    Xml(String),
    File(String),
}

/// The number of options given.
pub open spec fn given4(a: bool, b: bool, c: bool, d: bool) -> int {
    (if a { 1int } else { 0int }) + (if b { 1int } else { 0int }) + (if c { 1int } else { 0int }) + (
    if d { 1int } else { 0int })
}

/// The one source of a tool's configuration: at most one of the URL, JSON,
/// XML and file options may be given; with none, there is no configuration,
/// which is refused where one is `required`.
pub fn external_tool_config_source(
    config_url: Option<String>,
    config_json: Option<String>,
    config_xml: Option<String>,
    config_file: Option<String>,
    required: bool,
) -> (r: Result<Option<ToolConfigSource>, CliError>)
    ensures
        ({
            let n = given4(
                config_url is Some,
                config_json is Some,
                config_xml is Some,
                config_file is Some,
            );
            match r {
                Ok(None) => n == 0 && !required,
                Ok(Some(ToolConfigSource::Url(u))) => n == 1 && config_url == Some(u),
                Ok(Some(ToolConfigSource::Json(j))) => n == 1 && config_json == Some(j),
                Ok(Some(ToolConfigSource::Xml(x))) => n == 1 && config_xml == Some(x),
                Ok(Some(ToolConfigSource::File(f))) => n == 1 && config_file == Some(f),
                Err(e) => if n > 1 {
                    e matches CliError::Canvas(CanvasError::InvalidExternalToolConfig(s)) && s@
                        == "multiple_sources"@
                } else {
                    n == 0 && required && (e matches CliError::Canvas(
                        CanvasError::InvalidExternalToolConfig(s),
                    ) && s@ == "missing_config"@)
                },
            }
        }),
{
    let count: u8 = (if config_url.is_some() { 1u8 } else { 0u8 }) + (if config_json.is_some() {
        1u8
    } else {
        0u8
    }) + (if config_xml.is_some() { 1u8 } else { 0u8 }) + (if config_file.is_some() {
        1u8
    } else {
        0u8
    });
    if count > 1 {
        return Err(
            CliError::Canvas(
                CanvasError::InvalidExternalToolConfig(to_owned_string("multiple_sources")),
            ),
        );
    }
    if count == 0 {
        if required {
            return Err(
                CliError::Canvas(
                    CanvasError::InvalidExternalToolConfig(to_owned_string("missing_config")),
                ),
            );
        }
        return Ok(None);
    }
    match (config_url, config_json, config_xml, config_file) {
        (Some(u), _, _, _) => Ok(Some(ToolConfigSource::Url(u))),
        (None, Some(j), _, _) => Ok(Some(ToolConfigSource::Json(j))),
        (None, None, Some(x), _) => Ok(Some(ToolConfigSource::Xml(x))),
        (None, None, None, Some(f)) => Ok(Some(ToolConfigSource::File(f))),
        (None, None, None, None) => Ok(None),
    }
}

/// Whether a document is a JSON object.
pub open spec fn is_object(document: Option<JsonValue>) -> bool {
    document matches Some(v) && v is Object
}

/// The configuration in a file with extension `extension` and text `raw`: a
/// `.json` file
/// must hold a JSON object, a `.xml` file non-blank text; any other file is
/// read as JSON where it is an object, else as XML.
pub fn external_tool_config_from_file(extension: &str, raw: String) -> (r: Result<
    ExternalToolConfig,
    CanvasError,
>)
    ensures
        ({
            let document = json_document(raw@);
            let ext = lower(extension@);
            let as_json = ext == "json"@ || (ext != "xml"@ && is_object(document));
            match r {
                Ok(ExternalToolConfig::Json(c)) => as_json && document == Some(c@),
                Ok(ExternalToolConfig::Xml(x)) => !as_json && trim(raw@).len() > 0 && x@ == raw@,
                Ok(ExternalToolConfig::Url(_)) => false,
                Err(e) => if as_json {
                    !is_object(document) && (e matches CanvasError::InvalidExternalToolConfig(s)
                        && s@ == "invalid_json"@)
                } else {
                    trim(raw@).len() == 0 && (e matches CanvasError::InvalidExternalToolConfig(s)
                        && s@ == "empty"@)
                },
            }
        }),
{
    let document = parse_json_document(raw.as_str());
    let ext = to_ascii_lower(extension);
    proof {
        reveal_strlit("json");
        reveal_strlit("xml");
    }
    let is_json_ext = str_eq(ext.as_str(), "json");
    let is_xml_ext = str_eq(ext.as_str(), "xml");
    let object = match &document {
        Some(JsonValue::Object(_)) => true,
        _ => false,
    };
    if is_json_ext || (!is_xml_ext && object) {
        match external_tool_config_json_of(document) {
            Ok(c) => Ok(ExternalToolConfig::Json(c)),
            Err(e) => Err(e),
        }
    } else {
        match parse_external_tool_config_xml(raw) {
            Ok(x) => Ok(ExternalToolConfig::Xml(x)),
            Err(e) => Err(e),
        }
    }
}

/// When a calendar event takes place: all day on a date, or from a start
/// time, with an optional end.
#[derive(Debug)]
pub enum CalendarEventTiming {
    AllDay(AllDayDate),
    Timed { start_at: EventDateTime, end_at: Option<EventDateTime> },
}

/// The model of a calendar event's timing.
pub ghost enum TimingView {
    AllDay(CalendarDay),
    Timed(Timestamp, Option<Timestamp>),
}

impl View for CalendarEventTiming {
    type V = TimingView;

    open spec fn view(&self) -> TimingView {
        match self {
            CalendarEventTiming::AllDay(d) => TimingView::AllDay(d@),
            CalendarEventTiming::Timed { start_at, end_at } => TimingView::Timed(
                start_at@,
                match end_at {
                    Some(e) => Some(e@),
                    None => None,
                },
            ),
        }
    }
}

/// Why the timing options of a calendar command were refused.
pub ghost enum TimingRefusal {
    /// A date and a start or end were both given.
    Conflicting,
    /// An end, or nothing, was given without a start.
    MissingStart,
    /// The date is not a `YYYY-MM-DD` date.
    BadDate(Seq<char>),
    /// The start or end is not an RFC 3339 timestamp.
    BadTime(Seq<char>),
}

/// The timing from a start and an optional end: the start is read first.
pub open spec fn timed_spec(start: Seq<char>, end: Option<String>) -> Result<TimingView, TimingRefusal> {
    match timestamp_spec(start) {
        None => Err(TimingRefusal::BadTime(start)),
        Some(s) => match end {
            None => Ok(TimingView::Timed(s, None)),
            Some(e) => match timestamp_spec(e@) {
                None => Err(TimingRefusal::BadTime(e@)),
                Some(t) => Ok(TimingView::Timed(s, Some(t))),
            },
        },
    }
}

/// The timing of a new calendar event: a date excludes a start and an end,
/// and without a date a start is needed.
pub open spec fn create_timing_spec(
    start_at: Option<String>,
    end_at: Option<String>,
    all_day_date: Option<String>,
) -> Result<TimingView, TimingRefusal> {
    match all_day_date {
        Some(d) => if start_at is Some || end_at is Some {
            Err(TimingRefusal::Conflicting)
        } else {
            match calendar_day_spec(d@) {
                Some(day) => Ok(TimingView::AllDay(day)),
                None => Err(TimingRefusal::BadDate(d@)),
            }
        },
        None => match start_at {
            None => Err(TimingRefusal::MissingStart),
            Some(s) => timed_spec(s@, end_at),
        },
    }
}

/// The timing change of a calendar event: as for a new one, but where none
/// of the three is given the timing stays as it is (`None`).
pub open spec fn update_timing_spec(
    start_at: Option<String>,
    end_at: Option<String>,
    all_day_date: Option<String>,
) -> Result<Option<TimingView>, TimingRefusal> {
    if all_day_date is None && start_at is None && end_at is None {
        Ok(None)
    } else {
        match create_timing_spec(start_at, end_at, all_day_date) {
            Ok(t) => Ok(Some(t)),
            Err(f) => Err(f),
        }
    }
}

/// Whether `e` is the error the command line reports for `f`, where
/// `creating` tells a new event from a change.
pub open spec fn reports_refusal(f: TimingRefusal, creating: bool, e: CliError) -> bool {
    match f {
        TimingRefusal::Conflicting => if creating {
            e matches CliError::Canvas(CanvasError::InvalidCalendarEventCreate(s)) && s@
                == "conflicting_timing"@
        } else {
            e matches CliError::Canvas(CanvasError::InvalidCalendarEventUpdate(s)) && s@
                == "conflicting_timing"@
        },
        TimingRefusal::MissingStart => if creating {
            e matches CliError::Canvas(CanvasError::InvalidCalendarEventCreate(s)) && s@
                == "missing_start"@
        } else {
            e matches CliError::Canvas(CanvasError::InvalidCalendarEventUpdate(s)) && s@
                == "missing_start"@
        },
        TimingRefusal::BadDate(t) => e matches CliError::Canvas(CanvasError::InvalidAllDayDate(s))
            && s@ == t,
        TimingRefusal::BadTime(t) => e matches CliError::Canvas(
            CanvasError::InvalidEventDateTime(s),
        ) && s@ == t,
    }
}

fn timed(start: String, end_at: Option<String>) -> (r: Result<CalendarEventTiming, CliError>)
    ensures
        match r {
            Ok(t) => timed_spec(start@, end_at) == Ok::<TimingView, TimingRefusal>(t@),
            Err(e) => timed_spec(start@, end_at) matches Err(f) && reports_refusal(f, true, e)
                && reports_refusal(f, false, e),
        },
{
    let start_at = match parse_event_date_time(start.as_str()) {
        Ok(t) => t,
        Err(e) => return Err(CliError::Canvas(e)),
    };
    let end_at = match end_at {
        Some(raw) => match parse_event_date_time(raw.as_str()) {
            Ok(t) => Some(t),
            Err(e) => return Err(CliError::Canvas(e)),
        },
        None => None,
    };
    Ok(CalendarEventTiming::Timed { start_at, end_at })
}

fn all_day(date: String) -> (r: Result<CalendarEventTiming, CliError>)
    ensures
        match r {
            Ok(t) => calendar_day_spec(date@) matches Some(day) && t@ == TimingView::AllDay(day),
            Err(e) => calendar_day_spec(date@) is None && reports_refusal(
                TimingRefusal::BadDate(date@),
                true,
                e,
            ),
        },
{
    match parse_all_day_date(date.as_str()) {
        Ok(d) => Ok(CalendarEventTiming::AllDay(d)),
        Err(e) => Err(CliError::Canvas(e)),
    }
}

/// The timing of a new calendar event from its options.
pub fn parse_calendar_timing_for_create(
    start_at: Option<String>,
    end_at: Option<String>,
    all_day_date: Option<String>,
) -> (r: Result<CalendarEventTiming, CliError>)
    ensures
        match r {
            Ok(t) => create_timing_spec(start_at, end_at, all_day_date) == Ok::<
                TimingView,
                TimingRefusal,
            >(t@),
            Err(e) => create_timing_spec(start_at, end_at, all_day_date) matches Err(f)
                && reports_refusal(f, true, e),
        },
{
    if all_day_date.is_some() && (start_at.is_some() || end_at.is_some()) {
        return Err(
            CliError::Canvas(
                CanvasError::InvalidCalendarEventCreate(to_owned_string("conflicting_timing")),
            ),
        );
    }
    match all_day_date {
        Some(date) => all_day(date),
        None => match start_at {
            None => Err(
                CliError::Canvas(
                    CanvasError::InvalidCalendarEventCreate(to_owned_string("missing_start")),
                ),
            ),
            Some(start) => timed(start, end_at),
        },
    }
}

/// The timing change of a calendar event from its options: `None` where
/// none is given.
pub fn parse_calendar_timing_for_update(
    start_at: Option<String>,
    end_at: Option<String>,
    all_day_date: Option<String>,
) -> (r: Result<Option<CalendarEventTiming>, CliError>)
    ensures
        match r {
            Ok(t) => update_timing_spec(start_at, end_at, all_day_date) == Ok::<
                Option<TimingView>,
                TimingRefusal,
            >(
                match t {
                    Some(t) => Some(t@),
                    None => None,
                },
            ),
            Err(e) => update_timing_spec(start_at, end_at, all_day_date) matches Err(f)
                && reports_refusal(f, false, e),
        },
{
    if all_day_date.is_some() && (start_at.is_some() || end_at.is_some()) {
        return Err(
            CliError::Canvas(
                CanvasError::InvalidCalendarEventUpdate(to_owned_string("conflicting_timing")),
            ),
        );
    }
    if let Some(date) = all_day_date {
        return match all_day(date) {
            Ok(t) => Ok(Some(t)),
            Err(e) => Err(e),
        };
    }
    if start_at.is_none() && end_at.is_none() {
        return Ok(None);
    }
    match start_at {
        None => Err(
            CliError::Canvas(
                CanvasError::InvalidCalendarEventUpdate(to_owned_string("missing_start")),
            ),
        ),
        Some(start) => match timed(start, end_at) {
            Ok(t) => Ok(Some(t)),
            Err(e) => Err(e),
        },
    }
}

} // verus!
