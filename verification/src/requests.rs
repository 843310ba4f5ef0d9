//! The typed requests that folder, announcement, discussion, user, message,
//! group, gradebook, quiz submission and file commands stand for: each value is checked in the
//! order given, and the first invalid one is reported.

use crate::cli::{course_choice, course_for, course_refusal, date_option, GlobalOptions};
use crate::combine::parse_course_dates;
use crate::dates::{DueDate, Timestamp};
use crate::windows::{view_of, CourseDates, CourseDatesView};
use crate::errors::{CanvasError, CliError};
use crate::ids::{CourseId, FileId, FolderId, GradingPeriodId, GradingSchemeId, QuizId, QuizSubmissionId, UserId};
use crate::kinds::{
    course_visibility_named, grading_posting_policy_named, user_role_named, CourseVisibility,
    GradingPostingPolicy, UserRole,
};
use crate::names::{FolderName, GroupName, MessageBody, MessageSubject};
use crate::parse::{
    parse_course_visibility, parse_due_date, parse_grading_scheme_id, parse_course_id, parse_file_id, parse_folder_id, parse_folder_name, parse_grading_period_id,
    parse_grading_posting_policy, parse_group_name, parse_message_body, parse_message_subject,
    parse_quiz_id, parse_quiz_submission_id, parse_user_id, parse_user_role,
};
use crate::text::{lower, positive_id_spec, to_owned_string, trim};
use vstd::prelude::*;

verus! {

/// Whether a text is blank once trimmed.
pub open spec fn blank(t: String) -> bool {
    trim(t@).len() == 0
}

/// A folder command as given on the command line, unvalidated.
#[derive(Debug, Clone, PartialEq, Eq)]
pub enum FolderCommand {
    List { course: Option<String> },
    Create { course: Option<String>, name: String, parent_folder: Option<String> },
}

/// A validated folder command.
#[derive(Debug, Clone)]
pub enum FolderRequest {
    List { course_id: CourseId },
    Create { course_id: CourseId, name: FolderName, parent_folder_id: Option<FolderId> },
}

/// Whether `r` is what the folder command `command` stands for.
pub open spec fn folder_outcome(
    command: FolderCommand,
    default: Option<CourseId>,
    r: Result<FolderRequest, CliError>,
) -> bool {
    match command {
        FolderCommand::List { course } => match r {
            Ok(req) => req matches FolderRequest::List { course_id }
                && course_choice(course, default) == Some(course_id@),
            Err(e) => course_choice(course, default) is None && course_refusal(course, e),
        },
        FolderCommand::Create { course, name, parent_folder } => match r {
            Ok(req) => req matches FolderRequest::Create { course_id, name: n, parent_folder_id }
                && course_choice(course, default) == Some(course_id@) && !blank(name) && n@
                == trim(name@) && match parent_folder {
                Some(t) => parent_folder_id matches Some(p) && positive_id_spec(t@) == Some(p@),
                None => parent_folder_id is None,
            },
            Err(e) => if course_choice(course, default) is None {
                course_refusal(course, e)
            } else if blank(name) {
                e matches CliError::Canvas(CanvasError::InvalidFolderName(s)) && s@ == name@
            } else {
                parent_folder matches Some(t) && positive_id_spec(t@) is None && (e matches CliError::Canvas(
                    CanvasError::InvalidFolderId(s),
                ) && s@ == t@)
            },
        },
    }
}

/// The validated request that a folder command stands for.
pub fn folder_request(command: FolderCommand, global: &GlobalOptions) -> (r: Result<
    FolderRequest,
    CliError,
>)
    ensures
        folder_outcome(command, global.course, r),
{
    match command {
        FolderCommand::List { course } => {
            let course_id = course_for(course, global)?;
            Ok(FolderRequest::List { course_id })
        },
        FolderCommand::Create { course, name, parent_folder } => {
            let course_id = course_for(course, global)?;
            let name = match parse_folder_name(name.as_str()) {
                Ok(n) => n,
                Err(e) => return Err(CliError::Canvas(e)),
            };
            let parent_folder_id = match parent_folder {
                Some(raw) => match parse_folder_id(raw.as_str()) {
                    Ok(id) => Some(id),
                    Err(e) => return Err(CliError::Canvas(e)),
                },
                None => None,
            };
            Ok(FolderRequest::Create { course_id, name, parent_folder_id })
        },
    }
}

/// A command that lists a course's items or posts a titled message to it:
/// announcements and discussions, unvalidated.
#[derive(Debug, Clone, PartialEq, Eq)]
pub enum PostCommand {
    List { course: Option<String> },
    Create { course: Option<String>, title: String, message: String },
}

/// A validated announcement or discussion command; the title and message
/// are passed on as given.
#[derive(Debug, Clone, PartialEq, Eq)]
pub enum PostRequest {
    List { course_id: CourseId },
    Create { course_id: CourseId, title: String, message: String },
}

/// The validated request that an announcement or discussion command stands
/// for: only the course is checked.
pub fn post_request(command: PostCommand, global: &GlobalOptions) -> (r: Result<
    PostRequest,
    CliError,
>)
    ensures
        match command {
            PostCommand::List { course } => match r {
                Ok(req) => req matches PostRequest::List { course_id }
                    && course_choice(course, global.course) == Some(course_id@),
                Err(e) => course_choice(course, global.course) is None && course_refusal(course, e),
            },
            PostCommand::Create { course, title, message } => match r {
                Ok(req) => req matches PostRequest::Create { course_id, title: t, message: m }
                    && course_choice(course, global.course) == Some(course_id@) && t == title && m
                    == message,
                Err(e) => course_choice(course, global.course) is None && course_refusal(course, e),
            },
        },
{
    match command {
        PostCommand::List { course } => {
            let course_id = course_for(course, global)?;
            Ok(PostRequest::List { course_id })
        },
        PostCommand::Create { course, title, message } => {
            let course_id = course_for(course, global)?;
            Ok(PostRequest::Create { course_id, title, message })
        },
    }
}

/// Whether `e` is the error for the role text `t`.
pub open spec fn bad_role_text(t: String, e: CliError) -> bool {
    user_role_named(lower(trim(t@))) is None && (e matches CliError::Canvas(
        CanvasError::InvalidUserRole(s),
    ) && s@ == t@)
}

/// A validated user list command: the course and an optional role filter.
#[derive(Debug, Clone, Copy, PartialEq, Eq, Structural)]
pub struct UserListRequest {
    pub course_id: CourseId,
    pub role: Option<UserRole>,
}

/// The validated request of a user list command: the course, then the role.
pub fn user_list_request(course: Option<String>, role: Option<String>, global: &GlobalOptions) -> (r:
    Result<UserListRequest, CliError>)
    ensures
        match r {
            Ok(req) => course_choice(course, global.course) == Some(req.course_id@) && match role {
                Some(t) => req.role == user_role_named(lower(trim(t@))) && req.role is Some,
                None => req.role is None,
            },
            Err(e) => if course_choice(course, global.course) is None {
                course_refusal(course, e)
            } else {
                role matches Some(t) && bad_role_text(t, e)
            },
        },
{
    let course_id = course_for(course, global)?;
    let role = match role {
        Some(raw) => match parse_user_role(raw.as_str()) {
            Ok(role) => Some(role),
            Err(e) => return Err(CliError::Canvas(e)),
        },
        None => None,
    };
    Ok(UserListRequest { course_id, role })
}

/// The recipients of a list of user id texts, read in order: the first text
/// that is not a user id is reported.
pub open spec fn user_ids_spec(raws: Seq<String>) -> Result<Seq<u64>, Seq<char>>
    decreases raws.len(),
{
    if raws.len() == 0 {
        Ok(Seq::empty())
    } else {
        match user_ids_spec(raws.drop_last()) {
            Err(t) => Err(t),
            Ok(ids) => match positive_id_spec(raws.last()@) {
                Some(v) => Ok(ids.push(v)),
                None => Err(raws.last()@),
            },
        }
    }
}

proof fn lemma_user_ids_refusal_stays(raws: Seq<String>, k: int)
    requires
        0 <= k <= raws.len(),
        user_ids_spec(raws.take(k)) is Err,
    ensures
        user_ids_spec(raws) == user_ids_spec(raws.take(k)),
    decreases raws.len(),
{
    if raws.len() == k {
        assert(raws.take(k) =~= raws);
    } else {
        assert(raws.drop_last().take(k) =~= raws.take(k));
        lemma_user_ids_refusal_stays(raws.drop_last(), k);
    }
}

/// The user ids of a list of texts.
pub fn parse_user_ids(raws: &Vec<String>) -> (r: Result<Vec<UserId>, CliError>)
    ensures
        match r {
            Ok(ids) => user_ids_spec(raws@) == Ok::<Seq<u64>, Seq<char>>(
                ids@.map_values(|u: UserId| u@),
            ),
            Err(e) => user_ids_spec(raws@) matches Err(t) && (e matches CliError::Canvas(
                CanvasError::InvalidUserId(s),
            ) && s@ == t),
        },
{
    let mut ids: Vec<UserId> = Vec::new();
    let mut i: usize = 0;
    assert(raws@.take(0) =~= Seq::<String>::empty());
    assert(ids@.map_values(|u: UserId| u@) =~= Seq::<u64>::empty());
    while i < raws.len()
        invariant
            0 <= i <= raws.len(),
            user_ids_spec(raws@.take(i as int)) == Ok::<Seq<u64>, Seq<char>>(
                ids@.map_values(|u: UserId| u@),
            ),
        decreases raws.len() - i,
    {
        assert(raws@.take(i as int + 1).drop_last() =~= raws@.take(i as int));
        assert(raws@.take(i as int + 1).last() == raws@[i as int]);
        match parse_user_id(raws[i].as_str()) {
            Ok(id) => {
                ids.push(id);
                assert(ids@.map_values(|u: UserId| u@) =~= user_ids_spec(
                    raws@.take(i as int),
                ).get_Ok_0().push(id@));
            },
            Err(e) => {
                proof {
                    assert(user_ids_spec(raws@.take(i as int + 1)) is Err);
                    lemma_user_ids_refusal_stays(raws@, i as int + 1);
                }
                return Err(CliError::Canvas(e));
            },
        }
        i = i + 1;
    }
    assert(raws@.take(raws@.len() as int) =~= raws@);
    Ok(ids)
}

/// A message command as given on the command line, unvalidated.
#[derive(Debug, Clone, PartialEq, Eq)]
pub struct MessageCommand {
    pub course: Option<String>,
    pub subject: String,
    pub body: String,
    pub user_ids: Vec<String>,
    pub role: Option<String>,
}

/// A validated message: to the listed users, and to everyone of a role in
/// the course where a role is given.
#[derive(Debug, Clone)]
pub struct MessageSendRequest {
    pub course_id: Option<CourseId>,
    pub subject: MessageSubject,
    pub body: MessageBody,
    pub user_ids: Vec<UserId>,
    pub role: Option<UserRole>,
}

/// Why a message command was refused.
pub ghost enum MessageRefusal {
    /// The course text is not a course id.
    BadCourse(Seq<char>),
    /// The subject is blank.
    BlankSubject(Seq<char>),
    /// The body is blank.
    BlankBody(Seq<char>),
    /// A recipient text is not a user id.
    BadUser(Seq<char>),
    /// The role is not a role.
    BadRole(Seq<char>),
    /// Neither users nor a role were given.
    NoRecipients,
    /// A role was given but no course.
    MissingCourse,
}

/// Whether `e` is the error for `f`.
pub open spec fn reports_message(f: MessageRefusal, e: CliError) -> bool {
    match f {
        MessageRefusal::BadCourse(t) => e matches CliError::Canvas(CanvasError::InvalidCourseId(s))
            && s@ == t,
        MessageRefusal::BlankSubject(t) => e matches CliError::Canvas(
            CanvasError::InvalidMessageSubject(s),
        ) && s@ == t,
        MessageRefusal::BlankBody(t) => e matches CliError::Canvas(CanvasError::InvalidMessageBody(s))
            && s@ == t,
        MessageRefusal::BadUser(t) => e matches CliError::Canvas(CanvasError::InvalidUserId(s)) && s@
            == t,
        MessageRefusal::BadRole(t) => e matches CliError::Canvas(CanvasError::InvalidUserRole(s))
            && s@ == t,
        MessageRefusal::NoRecipients => e matches CliError::Canvas(CanvasError::InvalidRecipients(s))
            && s@ == "empty"@,
        MessageRefusal::MissingCourse => e == CliError::MissingCourseId,
    }
}

/// The model of a validated message.
pub ghost struct MessageModel {
    pub course_id: Option<u64>,
    pub subject: Seq<char>,
    pub body: Seq<char>,
    pub user_ids: Seq<u64>,
    pub role: Option<UserRole>,
}

/// The model of a validated message.
pub open spec fn message_model(m: MessageSendRequest) -> MessageModel {
    MessageModel {
        course_id: match m.course_id {
            Some(c) => Some(c@),
            None => None,
        },
        subject: m.subject@,
        body: m.body@,
        user_ids: m.user_ids@.map_values(|u: UserId| u@),
        role: m.role,
    }
}

/// The message a command stands for: the course (optional, defaulting to the
/// global one), the subject, the body, the users and the role are read in
/// that order; then there must be some recipient, and a role needs a course.
pub open spec fn message_spec(command: MessageCommand, default: Option<CourseId>) -> Result<
    MessageModel,
    MessageRefusal,
> {
    let course: Result<Option<u64>, MessageRefusal> = match command.course {
        Some(t) => match positive_id_spec(t@) {
            Some(v) => Ok(Some(v)),
            None => Err(MessageRefusal::BadCourse(t@)),
        },
        None => Ok(
            match default {
                Some(d) => Some(d@),
                None => None,
            },
        ),
    };
    match course {
        Err(f) => Err(f),
        Ok(course_id) => if trim(command.subject@).len() == 0 {
            Err(MessageRefusal::BlankSubject(command.subject@))
        } else if trim(command.body@).len() == 0 {
            Err(MessageRefusal::BlankBody(command.body@))
        } else {
            match user_ids_spec(command.user_ids@) {
                Err(t) => Err(MessageRefusal::BadUser(t)),
                Ok(ids) => {
                    let role: Result<Option<UserRole>, MessageRefusal> = match command.role {
                        Some(t) => match user_role_named(lower(trim(t@))) {
                            Some(k) => Ok(Some(k)),
                            None => Err(MessageRefusal::BadRole(t@)),
                        },
                        None => Ok(None),
                    };
                    match role {
                        Err(f) => Err(f),
                        Ok(role) => if ids.len() == 0 && role is None {
                            Err(MessageRefusal::NoRecipients)
                        } else if role is Some && course_id is None {
                            Err(MessageRefusal::MissingCourse)
                        } else {
                            Ok(
                                MessageModel {
                                    course_id,
                                    subject: trim(command.subject@),
                                    body: trim(command.body@),
                                    user_ids: ids,
                                    role,
                                },
                            )
                        },
                    }
                },
            }
        },
    }
}

/// The validated message that a message command stands for.
pub fn message_request(command: MessageCommand, global: &GlobalOptions) -> (r: Result<
    MessageSendRequest,
    CliError,
>)
    ensures
        match r {
            Ok(m) => message_spec(command, global.course) == Ok::<MessageModel, MessageRefusal>(
                message_model(m),
            ),
            Err(e) => message_spec(command, global.course) matches Err(f) && reports_message(f, e),
        },
{
    let MessageCommand { course, subject, body, user_ids, role } = command;
    let course_id = match course {
        Some(raw) => match parse_course_id(raw.as_str()) {
            Ok(id) => Some(id),
            Err(e) => return Err(CliError::Canvas(e)),
        },
        None => global.course,
    };
    let subject = match parse_message_subject(subject.as_str()) {
        Ok(s) => s,
        Err(e) => return Err(CliError::Canvas(e)),
    };
    let body = match parse_message_body(body.as_str()) {
        Ok(b) => b,
        Err(e) => return Err(CliError::Canvas(e)),
    };
    let ids = parse_user_ids(&user_ids)?;
    let role = match role {
        Some(raw) => match parse_user_role(raw.as_str()) {
            Ok(role) => Some(role),
            Err(e) => return Err(CliError::Canvas(e)),
        },
        None => None,
    };
    if ids.len() == 0 && role.is_none() {
        return Err(CliError::Canvas(CanvasError::InvalidRecipients(to_owned_string("empty"))));
    }
    if role.is_some() && course_id.is_none() {
        return Err(CliError::MissingCourseId);
    }
    let request = MessageSendRequest { course_id, subject, body, user_ids: ids, role };
    assert(message_model(request).user_ids.len() == request.user_ids@.len());
    Ok(request)
}

/// A group command as given on the command line, unvalidated.
#[derive(Debug, Clone, PartialEq, Eq)]
pub enum GroupCommand {
    List { course: Option<String> },
    Create { course: Option<String>, name: String },
}

/// A validated group command.
#[derive(Debug, Clone)]
pub enum GroupRequest {
    List { course_id: CourseId },
    Create { course_id: CourseId, name: GroupName },
}

/// The validated request that a group command stands for.
pub fn group_request(command: GroupCommand, global: &GlobalOptions) -> (r: Result<
    GroupRequest,
    CliError,
>)
    ensures
        match command {
            GroupCommand::List { course } => match r {
                Ok(req) => req matches GroupRequest::List { course_id }
                    && course_choice(course, global.course) == Some(course_id@),
                Err(e) => course_choice(course, global.course) is None && course_refusal(course, e),
            },
            GroupCommand::Create { course, name } => match r {
                Ok(req) => req matches GroupRequest::Create { course_id, name: n }
                    && course_choice(course, global.course) == Some(course_id@) && !blank(name)
                    && n@ == trim(name@),
                Err(e) => if course_choice(course, global.course) is None {
                    course_refusal(course, e)
                } else {
                    blank(name) && (e matches CliError::Canvas(CanvasError::InvalidGroupName(s))
                        && s@ == name@)
                },
            },
        },
{
    match command {
        GroupCommand::List { course } => {
            let course_id = course_for(course, global)?;
            Ok(GroupRequest::List { course_id })
        },
        GroupCommand::Create { course, name } => {
            let course_id = course_for(course, global)?;
            match parse_group_name(name.as_str()) {
                Ok(name) => Ok(GroupRequest::Create { course_id, name }),
                Err(e) => Err(CliError::Canvas(e)),
            }
        },
    }
}

/// A gradebook command as given on the command line, unvalidated.
#[derive(Debug, Clone, PartialEq, Eq)]
pub enum GradebookCommand {
    GradingPeriodList { course: Option<String> },
    GradingPeriodShow { course: Option<String>, period: String },
    PostingPolicyGet { course: Option<String> },
    PostingPolicySet { course: Option<String>, policy: String },
}

/// A validated gradebook command.
#[derive(Debug, Clone, Copy, PartialEq, Eq, Structural)]
pub enum GradebookRequest {
    GradingPeriodList { course_id: CourseId },
    GradingPeriodShow { course_id: CourseId, grading_period_id: GradingPeriodId },
    PostingPolicyGet { course_id: CourseId },
    PostingPolicySet { course_id: CourseId, policy: GradingPostingPolicy },
}

/// Whether `r` is what the gradebook command `command` stands for: the
/// course first, then the period or the policy.
pub open spec fn gradebook_outcome(
    command: GradebookCommand,
    default: Option<CourseId>,
    r: Result<GradebookRequest, CliError>,
) -> bool {
    match command {
        GradebookCommand::GradingPeriodList { course } => match r {
            Ok(req) => req matches GradebookRequest::GradingPeriodList { course_id }
                && course_choice(course, default) == Some(course_id@),
            Err(e) => course_choice(course, default) is None && course_refusal(course, e),
        },
        GradebookCommand::GradingPeriodShow { course, period } => match r {
            Ok(req) => req matches GradebookRequest::GradingPeriodShow {
                course_id,
                grading_period_id,
            } && course_choice(course, default) == Some(course_id@) && positive_id_spec(period@)
                == Some(grading_period_id@),
            Err(e) => if course_choice(course, default) is None {
                course_refusal(course, e)
            } else {
                positive_id_spec(period@) is None && (e matches CliError::Canvas(
                    CanvasError::InvalidGradingPeriodId(s),
                ) && s@ == period@)
            },
        },
        GradebookCommand::PostingPolicyGet { course } => match r {
            Ok(req) => req matches GradebookRequest::PostingPolicyGet { course_id }
                && course_choice(course, default) == Some(course_id@),
            Err(e) => course_choice(course, default) is None && course_refusal(course, e),
        },
        GradebookCommand::PostingPolicySet { course, policy } => match r {
            Ok(req) => req matches GradebookRequest::PostingPolicySet { course_id, policy: p }
                && course_choice(course, default) == Some(course_id@)
                && grading_posting_policy_named(lower(trim(policy@))) == Some(p),
            Err(e) => if course_choice(course, default) is None {
                course_refusal(course, e)
            } else {
                grading_posting_policy_named(lower(trim(policy@))) is None && (e matches CliError::Canvas(
                    CanvasError::InvalidGradingPostingPolicy(s),
                ) && s@ == policy@)
            },
        },
    }
}

/// The validated request that a gradebook command stands for.
pub fn gradebook_request(command: GradebookCommand, global: &GlobalOptions) -> (r: Result<
    GradebookRequest,
    CliError,
>)
    ensures
        gradebook_outcome(command, global.course, r),
{
    match command {
        GradebookCommand::GradingPeriodList { course } => {
            let course_id = course_for(course, global)?;
            Ok(GradebookRequest::GradingPeriodList { course_id })
        },
        GradebookCommand::GradingPeriodShow { course, period } => {
            let course_id = course_for(course, global)?;
            match parse_grading_period_id(period.as_str()) {
                Ok(grading_period_id) => Ok(
                    GradebookRequest::GradingPeriodShow { course_id, grading_period_id },
                ),
                Err(e) => Err(CliError::Canvas(e)),
            }
        },
        GradebookCommand::PostingPolicyGet { course } => {
            let course_id = course_for(course, global)?;
            Ok(GradebookRequest::PostingPolicyGet { course_id })
        },
        GradebookCommand::PostingPolicySet { course, policy } => {
            let course_id = course_for(course, global)?;
            match parse_grading_posting_policy(policy.as_str()) {
                Ok(policy) => Ok(GradebookRequest::PostingPolicySet { course_id, policy }),
                Err(e) => Err(CliError::Canvas(e)),
            }
        },
    }
}

/// A change of course settings: at least one of the dates, the visibility
/// and the grading scheme.
#[derive(Debug, Clone)]
pub struct CourseSettingsUpdate {
    pub dates: Option<CourseDates>,
    pub visibility: Option<CourseVisibility>,
    pub grading_scheme_id: Option<GradingSchemeId>,
}

impl CourseSettingsUpdate {
    /// A change of the given settings; at least one must be given.
    pub fn new(
        dates: Option<CourseDates>,
        visibility: Option<CourseVisibility>,
        grading_scheme_id: Option<GradingSchemeId>,
    ) -> (r: Result<Self, CanvasError>)
        ensures
            match r {
                Ok(u) => !(dates is None && visibility is None && grading_scheme_id is None) && u
                    == (CourseSettingsUpdate { dates, visibility, grading_scheme_id }),
                Err(e) => dates is None && visibility is None && grading_scheme_id is None && (
                e matches CanvasError::InvalidCourseUpdate(s) && s@ == "no_fields"@),
            },
    {
        if dates.is_none() && visibility.is_none() && grading_scheme_id.is_none() {
            return Err(CanvasError::InvalidCourseUpdate(to_owned_string("no_fields")));
        }
        Ok(CourseSettingsUpdate { dates, visibility, grading_scheme_id })
    }
}

/// A course command as given on the command line, unvalidated.
#[derive(Debug, Clone, PartialEq, Eq)]
pub enum CourseCommand {
    List,
    Show { course: Option<String> },
    SetDefault { course: String },
    Update {
        course: Option<String>,
        start: Option<String>,
        end: Option<String>,
        visibility: Option<String>,
        grading_scheme_id: Option<String>,
    },
}

/// A validated course command.
#[derive(Debug, Clone)]
pub enum CourseRequest {
    List,
    Show { course_id: CourseId },
    SetDefault { course_id: CourseId },
    Update { course_id: CourseId, settings: CourseSettingsUpdate },
}

/// Why a course update was refused.
pub ghost enum CourseUpdateRefusal {
    /// The course cannot be chosen.
    Course,
    /// A date is not a timestamp: `InvalidDueDate` with the text.
    BadDate(Seq<char>),
    /// The start is after the end: `InvalidCourseDates("start_after_end")`.
    StartAfterEnd,
    /// The visibility is not one: `InvalidCourseVisibility` with the text.
    BadVisibility(Seq<char>),
    /// The grading scheme is not an id: `InvalidGradingSchemeId` with the text.
    BadScheme(Seq<char>),
    /// Nothing to change: `InvalidCourseUpdate("no_fields")`.
    NoFields,
}

/// The model of a course settings change.
pub ghost struct CourseSettingsModel {
    pub dates: Option<CourseDatesView>,
    pub visibility: Option<CourseVisibility>,
    pub grading_scheme_id: Option<u64>,
}

/// The model of a course settings change.
pub open spec fn settings_model(u: CourseSettingsUpdate) -> CourseSettingsModel {
    CourseSettingsModel {
        dates: match u.dates {
            Some(d) => Some(d@),
            None => None,
        },
        visibility: u.visibility,
        grading_scheme_id: match u.grading_scheme_id {
            Some(g) => Some(g@),
            None => None,
        },
    }
}

/// The settings change of a course update's options, read in order: start,
/// end, their order, visibility, grading scheme; something must change.
pub open spec fn course_settings_spec(
    start: Option<String>,
    end: Option<String>,
    visibility: Option<String>,
    grading_scheme_id: Option<String>,
) -> Result<CourseSettingsModel, CourseUpdateRefusal> {
    match date_option(start) {
        Err(t) => Err(CourseUpdateRefusal::BadDate(t)),
        Ok(s) => match date_option(end) {
            Err(t) => Err(CourseUpdateRefusal::BadDate(t)),
            Ok(e) => if s is Some && e is Some && s->0.instant > e->0.instant {
                Err(CourseUpdateRefusal::StartAfterEnd)
            } else {
                let dates = if s is None && e is None {
                    None
                } else {
                    Some(CourseDatesView { start: s, end: e })
                };
                let vis: Result<Option<CourseVisibility>, CourseUpdateRefusal> = match visibility {
                    Some(t) => match course_visibility_named(lower(trim(t@))) {
                        Some(v) => Ok(Some(v)),
                        None => Err(CourseUpdateRefusal::BadVisibility(t@)),
                    },
                    None => Ok(None),
                };
                match vis {
                    Err(f) => Err(f),
                    Ok(vis) => {
                        let scheme: Result<Option<u64>, CourseUpdateRefusal> = match grading_scheme_id {
                            Some(t) => match positive_id_spec(t@) {
                                Some(v) => Ok(Some(v)),
                                None => Err(CourseUpdateRefusal::BadScheme(t@)),
                            },
                            None => Ok(None),
                        };
                        match scheme {
                            Err(f) => Err(f),
                            Ok(scheme) => if dates is None && vis is None && scheme is None {
                                Err(CourseUpdateRefusal::NoFields)
                            } else {
                                Ok(
                                    CourseSettingsModel {
                                        dates,
                                        visibility: vis,
                                        grading_scheme_id: scheme,
                                    },
                                )
                            },
                        }
                    },
                }
            },
        },
    }
}

/// Whether `e` is the error for `f` (other than a course refusal).
pub open spec fn reports_course_update(f: CourseUpdateRefusal, e: CliError) -> bool {
    match f {
        CourseUpdateRefusal::Course => false,
        CourseUpdateRefusal::BadDate(t) => e matches CliError::Canvas(CanvasError::InvalidDueDate(s))
            && s@ == t,
        CourseUpdateRefusal::StartAfterEnd => e matches CliError::Canvas(
            CanvasError::InvalidCourseDates(s),
        ) && s@ == "start_after_end"@,
        CourseUpdateRefusal::BadVisibility(t) => e matches CliError::Canvas(
            CanvasError::InvalidCourseVisibility(s),
        ) && s@ == t,
        CourseUpdateRefusal::BadScheme(t) => e matches CliError::Canvas(
            CanvasError::InvalidGradingSchemeId(s),
        ) && s@ == t,
        CourseUpdateRefusal::NoFields => e matches CliError::Canvas(CanvasError::InvalidCourseUpdate(s))
            && s@ == "no_fields"@,
    }
}

fn due_date_option(raw: Option<String>) -> (r: Result<Option<DueDate>, CliError>)
    ensures
        match r {
            Ok(d) => date_option(raw) == Ok::<Option<Timestamp>, Seq<char>>(view_of(d)),
            Err(e) => date_option(raw) matches Err(t) && (e matches CliError::Canvas(
                CanvasError::InvalidDueDate(s),
            ) && s@ == t),
        },
{
    match raw {
        None => Ok(None),
        Some(t) => match parse_due_date(t.as_str()) {
            Ok(d) => Ok(Some(d)),
            Err(e) => Err(CliError::Canvas(e)),
        },
    }
}

/// The settings change of a course update's options.
pub fn course_settings_update(
    start: Option<String>,
    end: Option<String>,
    visibility: Option<String>,
    grading_scheme_id: Option<String>,
) -> (r: Result<CourseSettingsUpdate, CliError>)
    ensures
        match r {
            Ok(u) => course_settings_spec(start, end, visibility, grading_scheme_id) == Ok::<
                CourseSettingsModel,
                CourseUpdateRefusal,
            >(settings_model(u)),
            Err(e) => course_settings_spec(start, end, visibility, grading_scheme_id) matches Err(f)
                && reports_course_update(f, e),
        },
{
    let start = due_date_option(start)?;
    let end = due_date_option(end)?;
    let dates = if start.is_none() && end.is_none() {
        None
    } else {
        match parse_course_dates(start, end) {
            Ok(d) => Some(d),
            Err(e) => return Err(CliError::Canvas(e)),
        }
    };
    let visibility = match visibility {
        Some(raw) => match parse_course_visibility(raw.as_str()) {
            Ok(v) => Some(v),
            Err(e) => return Err(CliError::Canvas(e)),
        },
        None => None,
    };
    let grading_scheme_id = match grading_scheme_id {
        Some(raw) => match parse_grading_scheme_id(raw.as_str()) {
            Ok(id) => Some(id),
            Err(e) => return Err(CliError::Canvas(e)),
        },
        None => None,
    };
    match CourseSettingsUpdate::new(dates, visibility, grading_scheme_id) {
        Ok(u) => Ok(u),
        Err(e) => Err(CliError::Canvas(e)),
    }
}

/// The validated request that a course command stands for: `set` names its
/// course; `show` and `update` may use the default; an update reads the
/// course before its settings.
pub fn course_request(command: CourseCommand, global: &GlobalOptions) -> (r: Result<
    CourseRequest,
    CliError,
>)
    ensures
        match command {
            CourseCommand::List => r matches Ok(CourseRequest::List),
            CourseCommand::Show { course } => match r {
                Ok(req) => req matches CourseRequest::Show { course_id }
                    && course_choice(course, global.course) == Some(course_id@),
                Err(e) => course_choice(course, global.course) is None && course_refusal(course, e),
            },
            CourseCommand::SetDefault { course } => match r {
                Ok(req) => req matches CourseRequest::SetDefault { course_id } && positive_id_spec(course@)
                    == Some(course_id@),
                Err(e) => positive_id_spec(course@) is None && (e matches CliError::Canvas(
                    CanvasError::InvalidCourseId(s),
                ) && s@ == course@),
            },
            CourseCommand::Update { course, start, end, visibility, grading_scheme_id } => match r {
                Ok(req) => req matches CourseRequest::Update { course_id, settings }
                    && course_choice(course, global.course) == Some(course_id@)
                    && course_settings_spec(start, end, visibility, grading_scheme_id) == Ok::<
                    CourseSettingsModel,
                    CourseUpdateRefusal,
                >(settings_model(settings)),
                Err(e) => if course_choice(course, global.course) is None {
                    course_refusal(course, e)
                } else {
                    course_settings_spec(start, end, visibility, grading_scheme_id) matches Err(f)
                        && reports_course_update(f, e)
                },
            },
        },
{
    match command {
        CourseCommand::List => Ok(CourseRequest::List),
        CourseCommand::Show { course } => {
            let course_id = course_for(course, global)?;
            Ok(CourseRequest::Show { course_id })
        },
        CourseCommand::SetDefault { course } => match parse_course_id(course.as_str()) {
            Ok(course_id) => Ok(CourseRequest::SetDefault { course_id }),
            Err(e) => Err(CliError::Canvas(e)),
        },
        CourseCommand::Update { course, start, end, visibility, grading_scheme_id } => {
            let course_id = course_for(course, global)?;
            let settings = course_settings_update(start, end, visibility, grading_scheme_id)?;
            Ok(CourseRequest::Update { course_id, settings })
        },
    }
}

/// A quiz submission command as given on the command line, unvalidated.
#[derive(Debug, Clone, PartialEq, Eq)]
pub enum QuizSubmissionCommand {
    List { course: Option<String>, quiz: String },
    Grade { course: Option<String>, quiz: String, submission: String, score: String },
}

/// A validated quiz submission command. The score stays text here: it is a
/// decimal number, read where the grade is sent.
#[derive(Debug, Clone)]
pub enum QuizSubmissionRequest {
    List { course_id: CourseId, quiz_id: QuizId },
    Grade {
        course_id: CourseId,
        quiz_id: QuizId,
        submission_id: QuizSubmissionId,
        score: String,
    },
}

/// Whether `e` is the error for the quiz id text `t`.
pub open spec fn bad_quiz(t: String, e: CliError) -> bool {
    positive_id_spec(t@) is None && (e matches CliError::Canvas(CanvasError::InvalidQuizId(s))
        && s@ == t@)
}

/// Whether `r` is what the quiz submission command `command` stands for: the
/// course first, then the quiz, then the submission.
pub open spec fn quiz_submission_outcome(
    command: QuizSubmissionCommand,
    default: Option<CourseId>,
    r: Result<QuizSubmissionRequest, CliError>,
) -> bool {
    match command {
        QuizSubmissionCommand::List { course, quiz } => match r {
            Ok(req) => req matches QuizSubmissionRequest::List { course_id, quiz_id }
                && course_choice(course, default) == Some(course_id@) && positive_id_spec(quiz@)
                == Some(quiz_id@),
            Err(e) => if course_choice(course, default) is None {
                course_refusal(course, e)
            } else {
                bad_quiz(quiz, e)
            },
        },
        QuizSubmissionCommand::Grade { course, quiz, submission, score } => match r {
            Ok(req) => req matches QuizSubmissionRequest::Grade {
                course_id,
                quiz_id,
                submission_id,
                score: s,
            } && course_choice(course, default) == Some(course_id@) && positive_id_spec(quiz@)
                == Some(quiz_id@) && positive_id_spec(submission@) == Some(submission_id@) && s@
                == score@,
            Err(e) => if course_choice(course, default) is None {
                course_refusal(course, e)
            } else if positive_id_spec(quiz@) is None {
                bad_quiz(quiz, e)
            } else {
                positive_id_spec(submission@) is None && (e matches CliError::Canvas(
                    CanvasError::InvalidQuizSubmissionId(s),
                ) && s@ == submission@)
            },
        },
    }
}

/// The validated request that a quiz submission command stands for.
pub fn quiz_submission_request(command: QuizSubmissionCommand, global: &GlobalOptions) -> (r:
    Result<QuizSubmissionRequest, CliError>)
    ensures
        quiz_submission_outcome(command, global.course, r),
{
    match command {
        QuizSubmissionCommand::List { course, quiz } => {
            let course_id = course_for(course, global)?;
            match parse_quiz_id(quiz.as_str()) {
                Ok(quiz_id) => Ok(QuizSubmissionRequest::List { course_id, quiz_id }),
                Err(e) => Err(CliError::Canvas(e)),
            }
        },
        QuizSubmissionCommand::Grade { course, quiz, submission, score } => {
            let course_id = course_for(course, global)?;
            let quiz_id = match parse_quiz_id(quiz.as_str()) {
                Ok(q) => q,
                Err(e) => return Err(CliError::Canvas(e)),
            };
            match parse_quiz_submission_id(submission.as_str()) {
                Ok(submission_id) => Ok(
                    QuizSubmissionRequest::Grade { course_id, quiz_id, submission_id, score },
                ),
                Err(e) => Err(CliError::Canvas(e)),
            }
        },
    }
}

/// A file command as given on the command line, unvalidated: listing the
/// files of a course or a folder, and deleting a file. Uploading a file,
/// which reads it from disk, is not part of this library.
#[derive(Debug, Clone, PartialEq, Eq)]
pub enum FileCommand {
    List { course: Option<String>, folder: Option<String> },
    Delete { file: String },
}

/// A validated file command.
#[derive(Debug, Clone, Copy, PartialEq, Eq, Structural)]
pub enum FileRequest {
    List { course_id: CourseId, folder_id: Option<FolderId> },
    Delete { file_id: FileId },
}

/// The folder id of an optional folder text; `Err` carries the refused text.
pub open spec fn folder_choice(folder: Option<String>) -> Result<Option<u64>, Seq<char>> {
    match folder {
        Some(t) => match positive_id_spec(t@) {
            Some(v) => Ok(Some(v)),
            None => Err(t@),
        },
        None => Ok(None),
    }
}

/// The value of an optional folder id.
pub open spec fn folder_value(f: Option<FolderId>) -> Option<u64> {
    match f {
        Some(f) => Some(f@),
        None => None,
    }
}

/// Whether `r` is what the file command `command` stands for: the course
/// first, then the folder.
pub open spec fn file_outcome(
    command: FileCommand,
    default: Option<CourseId>,
    r: Result<FileRequest, CliError>,
) -> bool {
    match command {
        FileCommand::List { course, folder } => match r {
            Ok(req) => req matches FileRequest::List { course_id, folder_id }
                && course_choice(course, default) == Some(course_id@) && folder_choice(folder)
                == Ok::<Option<u64>, Seq<char>>(folder_value(folder_id)),
            Err(e) => if course_choice(course, default) is None {
                course_refusal(course, e)
            } else {
                folder_choice(folder) matches Err(t) && (e matches CliError::Canvas(
                    CanvasError::InvalidFolderId(s),
                ) && s@ == t)
            },
        },
        FileCommand::Delete { file } => match r {
            Ok(req) => req matches FileRequest::Delete { file_id } && positive_id_spec(file@)
                == Some(file_id@),
            Err(e) => positive_id_spec(file@) is None && (e matches CliError::Canvas(
                CanvasError::InvalidFileId(s),
            ) && s@ == file@),
        },
    }
}

/// The validated request that a file command stands for.
pub fn file_request(command: FileCommand, global: &GlobalOptions) -> (r: Result<
    FileRequest,
    CliError,
>)
    ensures
        file_outcome(command, global.course, r),
{
    match command {
        FileCommand::List { course, folder } => {
            let course_id = course_for(course, global)?;
            let folder_id = match folder {
                Some(raw) => match parse_folder_id(raw.as_str()) {
                    Ok(f) => Some(f),
                    Err(e) => return Err(CliError::Canvas(e)),
                },
                None => None,
            };
            Ok(FileRequest::List { course_id, folder_id })
        },
        FileCommand::Delete { file } => match parse_file_id(file.as_str()) {
            Ok(file_id) => Ok(FileRequest::Delete { file_id }),
            Err(e) => Err(CliError::Canvas(e)),
        },
    }
}

} // verus!
