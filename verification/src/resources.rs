//! Course sections, enrollments and question banks: their summaries, the
//! inputs that create or change them, and the API paths they live at.

use crate::errors::CanvasError;
use crate::ids::{
    AssignmentId, ContentMigrationId, CourseId, EnrollmentId, QuestionBankId, QuizId,
    QuizSubmissionId, SectionId, UserId,
};
use crate::kinds::UserRole;
use crate::names::{QuestionBankTitle, SectionName};
use crate::text::{dec, push_decimal, push_str, to_owned_string, trim};
use vstd::prelude::*;

verus! {

/// A course section as Canvas reports it.
#[derive(Debug, Clone, PartialEq, Eq)]
pub struct SectionSummary {
    pub id: u64,
    pub course_id: Option<u64>,
    pub name: Option<String>,
    pub enrollment_count: Option<u32>,
}

/// What creates a section.
#[derive(Debug, Clone)]
pub struct SectionCreateInput {
    pub name: SectionName,
}

impl SectionCreateInput {
    /// A section named `name`.
    pub fn new(name: SectionName) -> (r: Self)
        ensures
            r.name@ == name@,
    {
        SectionCreateInput { name }
    }
}

/// What changes a section: at least one field.
#[derive(Debug, Clone)]
pub struct SectionUpdateInput {
    pub name: Option<SectionName>,
}

impl SectionUpdateInput {
    /// A change of the given fields; at least one must be given.
    pub fn new(name: Option<SectionName>) -> (r: Result<Self, CanvasError>)
        ensures
            match r {
                Ok(u) => name is Some && u.name is Some && u.name->0@ == name->0@,
                Err(e) => name is None && (e matches CanvasError::InvalidSectionUpdate(s) && s@
                    == "no_fields"@),
            },
    {
        if name.is_none() {
            return Err(CanvasError::InvalidSectionUpdate(to_owned_string("no_fields")));
        }
        Ok(SectionUpdateInput { name })
    }
}

/// An enrollment as Canvas reports it.
#[derive(Debug, Clone, PartialEq, Eq)]
pub struct EnrollmentSummary {
    pub id: u64,
    pub user_id: Option<u64>,
    pub section_id: Option<u64>,
    pub role: Option<String>,
    pub enrollment_state: Option<String>,
}

/// What enrolls a user in a section.
#[derive(Debug, Clone, Copy, PartialEq, Eq, Structural)]
pub struct EnrollmentCreateInput {
    pub user_id: UserId,
    pub role: UserRole,
    pub limit_privileges_to_section: bool,
}

impl EnrollmentCreateInput {
    /// An enrollment of `user_id` as `role`.
    pub fn new(user_id: UserId, role: UserRole, limit_privileges_to_section: bool) -> (r: Self)
        ensures
            r == (EnrollmentCreateInput { user_id, role, limit_privileges_to_section }),
    {
        EnrollmentCreateInput { user_id, role, limit_privileges_to_section }
    }
}

/// The enrollment type Canvas uses for a role.
pub open spec fn enrollment_type_text(role: UserRole) -> Seq<char> {
    match role {
        UserRole::Student => "StudentEnrollment"@,
        UserRole::Ta => "TaEnrollment"@,
        UserRole::Teacher => "TeacherEnrollment"@,
    }
}

/// The enrollment type Canvas uses for a role.
pub fn enrollment_type_for_role(role: UserRole) -> (r: &'static str)
    ensures
        r@ == enrollment_type_text(role),
{
    match role {
        UserRole::Student => "StudentEnrollment",
        UserRole::Ta => "TaEnrollment",
        UserRole::Teacher => "TeacherEnrollment",
    }
}

/// The path that lists the sections of a course.
pub fn sections_list_path(course_id: CourseId) -> (r: String)
    ensures
        r@ == "/courses/"@ + dec(course_id@ as nat) + "/sections?per_page=100"@,
{
    let mut out = String::new();
    push_str(&mut out, "/courses/");
    push_decimal(&mut out, course_id.get());
    push_str(&mut out, "/sections?per_page=100");
    assert(out@ =~= "/courses/"@ + dec(course_id@ as nat) + "/sections?per_page=100"@);
    out
}

/// The path that creates a section in a course.
pub fn sections_create_path(course_id: CourseId) -> (r: String)
    ensures
        r@ == "/courses/"@ + dec(course_id@ as nat) + "/sections"@,
{
    let mut out = String::new();
    push_str(&mut out, "/courses/");
    push_decimal(&mut out, course_id.get());
    push_str(&mut out, "/sections");
    assert(out@ =~= "/courses/"@ + dec(course_id@ as nat) + "/sections"@);
    out
}

/// The path of a section.
pub fn section_path(section_id: SectionId) -> (r: String)
    ensures
        r@ == "/sections/"@ + dec(section_id@ as nat),
{
    let mut out = String::new();
    push_str(&mut out, "/sections/");
    push_decimal(&mut out, section_id.get());
    assert(out@ =~= "/sections/"@ + dec(section_id@ as nat));
    out
}

/// The path that lists the enrollments of a section, of one role only where
/// a filter is given.
pub fn enrollments_list_path(section_id: SectionId, role_filter: Option<UserRole>) -> (r: String)
    ensures
        r@ == "/sections/"@ + dec(section_id@ as nat) + "/enrollments?per_page=100"@ + match role_filter {
            Some(role) => "&type[]="@ + enrollment_type_text(role),
            None => Seq::<char>::empty(),
        },
{
    let mut out = String::new();
    push_str(&mut out, "/sections/");
    push_decimal(&mut out, section_id.get());
    push_str(&mut out, "/enrollments?per_page=100");
    match role_filter {
        Some(role) => {
            push_str(&mut out, "&type[]=");
            push_str(&mut out, enrollment_type_for_role(role));
        },
        None => {},
    }
    assert(out@ =~= "/sections/"@ + dec(section_id@ as nat) + "/enrollments?per_page=100"@
        + match role_filter {
        Some(role) => "&type[]="@ + enrollment_type_text(role),
        None => Seq::<char>::empty(),
    });
    out
}

/// The path that enrolls users in a section.
pub fn enrollments_path(section_id: SectionId) -> (r: String)
    ensures
        r@ == "/sections/"@ + dec(section_id@ as nat) + "/enrollments"@,
{
    let mut out = String::new();
    push_str(&mut out, "/sections/");
    push_decimal(&mut out, section_id.get());
    push_str(&mut out, "/enrollments");
    assert(out@ =~= "/sections/"@ + dec(section_id@ as nat) + "/enrollments"@);
    out
}

/// The path of an enrollment in a section.
pub fn enrollment_path(section_id: SectionId, enrollment_id: EnrollmentId) -> (r: String)
    ensures
        r@ == "/sections/"@ + dec(section_id@ as nat) + "/enrollments/"@ + dec(
            enrollment_id@ as nat,
        ),
{
    let mut out = String::new();
    push_str(&mut out, "/sections/");
    push_decimal(&mut out, section_id.get());
    push_str(&mut out, "/enrollments/");
    push_decimal(&mut out, enrollment_id.get());
    assert(out@ =~= "/sections/"@ + dec(section_id@ as nat) + "/enrollments/"@ + dec(
        enrollment_id@ as nat,
    ));
    out
}

/// A question bank as Canvas reports it.
#[derive(Debug, Clone, PartialEq, Eq)]
pub struct QuestionBankSummary {
    pub id: u64,
    pub title: Option<String>,
    pub question_count: Option<u64>,
    pub context_type: Option<String>,
    pub context_id: Option<u64>,
    pub created_at: Option<String>,
    pub updated_at: Option<String>,
}

/// What creates a question bank.
#[derive(Debug, Clone)]
pub struct QuestionBankCreateInput {
    pub title: QuestionBankTitle,
}

impl QuestionBankCreateInput {
    /// A bank titled `title`.
    pub fn new(title: QuestionBankTitle) -> (r: Self)
        ensures
            r.title@ == title@,
    {
        QuestionBankCreateInput { title }
    }

    /// A bank from the `title` field of a JSON document: the field must be
    /// present and a valid title.
    pub fn from_title_field(title: Option<String>) -> (r: Result<Self, CanvasError>)
        ensures
            match r {
                Ok(i) => title is Some && trim(title->0@).len() > 0 && i.title@ == trim(
                    title->0@,
                ),
                Err(e) => match title {
                    None => e matches CanvasError::InvalidQuestionBankTitle(s) && s@
                        == "missing"@,
                    Some(t) => trim(t@).len() == 0 && (e matches CanvasError::InvalidQuestionBankTitle(
                        s,
                    ) && s@ == t@),
                },
            },
    {
        let title_raw = match title {
            Some(t) => t,
            None => return Err(CanvasError::InvalidQuestionBankTitle(to_owned_string("missing"))),
        };
        match QuestionBankTitle::parse(title_raw.as_str()) {
            Ok(t) => Ok(QuestionBankCreateInput { title: t }),
            Err(_) => Err(CanvasError::InvalidQuestionBankTitle(title_raw)),
        }
    }
}

/// What changes a question bank: at least one field.
#[derive(Debug, Clone)]
pub struct QuestionBankUpdateInput {
    pub title: Option<QuestionBankTitle>,
}

impl QuestionBankUpdateInput {
    /// A change of the given fields; at least one must be given.
    pub fn new(title: Option<QuestionBankTitle>) -> (r: Result<Self, CanvasError>)
        ensures
            match r {
                Ok(u) => title is Some && u.title is Some && u.title->0@ == title->0@,
                Err(e) => title is None && (e matches CanvasError::InvalidQuestionBankUpdate(s)
                    && s@ == "no_fields"@),
            },
    {
        if title.is_none() {
            return Err(CanvasError::InvalidQuestionBankUpdate(to_owned_string("no_fields")));
        }
        Ok(QuestionBankUpdateInput { title })
    }

    /// A change from the `title` field of a JSON document: a given title must
    /// be valid, and some field must be given.
    pub fn from_title_field(title: Option<String>) -> (r: Result<Self, CanvasError>)
        ensures
            match r {
                Ok(u) => title is Some && trim(title->0@).len() > 0 && u.title is Some
                    && u.title->0@ == trim(title->0@),
                Err(e) => match title {
                    None => e matches CanvasError::InvalidQuestionBankUpdate(s) && s@
                        == "no_fields"@,
                    Some(t) => trim(t@).len() == 0 && (e matches CanvasError::InvalidQuestionBankTitle(
                        s,
                    ) && s@ == t@),
                },
            },
    {
        let title = match title {
            Some(value) => match QuestionBankTitle::parse(value.as_str()) {
                Ok(t) => Some(t),
                Err(_) => return Err(CanvasError::InvalidQuestionBankTitle(value)),
            },
            None => None,
        };
        Self::new(title)
    }
}

/// The path of the question banks of a course.
pub fn question_banks_path(course_id: CourseId) -> (r: String)
    ensures
        r@ == "/courses/"@ + dec(course_id@ as nat) + "/question_banks"@,
{
    let mut out = String::new();
    push_str(&mut out, "/courses/");
    push_decimal(&mut out, course_id.get());
    push_str(&mut out, "/question_banks");
    assert(out@ =~= "/courses/"@ + dec(course_id@ as nat) + "/question_banks"@);
    out
}

/// The path of a question bank of a course.
pub fn question_bank_path(course_id: CourseId, bank_id: QuestionBankId) -> (r: String)
    ensures
        r@ == "/courses/"@ + dec(course_id@ as nat) + "/question_banks/"@ + dec(bank_id@ as nat),
{
    let mut out = String::new();
    push_str(&mut out, "/courses/");
    push_decimal(&mut out, course_id.get());
    push_str(&mut out, "/question_banks/");
    push_decimal(&mut out, bank_id.get());
    assert(out@ =~= "/courses/"@ + dec(course_id@ as nat) + "/question_banks/"@ + dec(
        bank_id@ as nat,
    ));
    out
}

/// The path of the content migrations of a course.
pub fn content_migrations_path(course_id: CourseId) -> (r: String)
    ensures
        r@ == "/courses/"@ + dec(course_id@ as nat) + "/content_migrations"@,
{
    let mut out = String::new();
    push_str(&mut out, "/courses/");
    push_decimal(&mut out, course_id.get());
    push_str(&mut out, "/content_migrations");
    assert(out@ =~= "/courses/"@ + dec(course_id@ as nat) + "/content_migrations"@);
    out
}

/// The path of a content migration of a course.
pub fn content_migration_path(course_id: CourseId, migration_id: ContentMigrationId) -> (r: String)
    ensures
        r@ == "/courses/"@ + dec(course_id@ as nat) + "/content_migrations/"@ + dec(
            migration_id@ as nat,
        ),
{
    let mut out = String::new();
    push_str(&mut out, "/courses/");
    push_decimal(&mut out, course_id.get());
    push_str(&mut out, "/content_migrations/");
    push_decimal(&mut out, migration_id.get());
    assert(out@ =~= "/courses/"@ + dec(course_id@ as nat) + "/content_migrations/"@ + dec(
        migration_id@ as nat,
    ));
    out
}

/// The path that lists the content migrations of a course.
pub fn content_migrations_list_path(course_id: CourseId) -> (r: String)
    ensures
        r@ == "/courses/"@ + dec(course_id@ as nat) + "/content_migrations?per_page=100"@,
{
    let mut out = String::new();
    push_str(&mut out, "/courses/");
    push_decimal(&mut out, course_id.get());
    push_str(&mut out, "/content_migrations?per_page=100");
    assert(out@ =~= "/courses/"@ + dec(course_id@ as nat) + "/content_migrations?per_page=100"@);
    out
}

/// The path of a course.
pub fn course_path(course_id: CourseId) -> (r: String)
    ensures
        r@ == "/courses/"@ + dec(course_id@ as nat),
{
    let mut out = String::new();
    push_str(&mut out, "/courses/");
    push_decimal(&mut out, course_id.get());
    assert(out@ =~= "/courses/"@ + dec(course_id@ as nat));
    out
}

/// The path that lists the assignments of a course.
pub fn assignments_list_path(course_id: CourseId) -> (r: String)
    ensures
        r@ == "/courses/"@ + dec(course_id@ as nat) + "/assignments?per_page=100"@,
{
    let mut out = String::new();
    push_str(&mut out, "/courses/");
    push_decimal(&mut out, course_id.get());
    push_str(&mut out, "/assignments?per_page=100");
    assert(out@ =~= "/courses/"@ + dec(course_id@ as nat) + "/assignments?per_page=100"@);
    out
}

/// The path that creates an assignment in a course.
pub fn assignments_path(course_id: CourseId) -> (r: String)
    ensures
        r@ == "/courses/"@ + dec(course_id@ as nat) + "/assignments"@,
{
    let mut out = String::new();
    push_str(&mut out, "/courses/");
    push_decimal(&mut out, course_id.get());
    push_str(&mut out, "/assignments");
    assert(out@ =~= "/courses/"@ + dec(course_id@ as nat) + "/assignments"@);
    out
}

/// The path of an assignment of a course.
pub fn assignment_path(course_id: CourseId, assignment_id: AssignmentId) -> (r: String)
    ensures
        r@ == "/courses/"@ + dec(course_id@ as nat) + "/assignments/"@ + dec(assignment_id@ as nat),
{
    let mut out = String::new();
    push_str(&mut out, "/courses/");
    push_decimal(&mut out, course_id.get());
    push_str(&mut out, "/assignments/");
    push_decimal(&mut out, assignment_id.get());
    assert(out@ =~= "/courses/"@ + dec(course_id@ as nat) + "/assignments/"@ + dec(assignment_id@ as nat));
    out
}

/// The path that lists the submissions of an assignment.
pub fn submissions_list_path(course_id: CourseId, assignment_id: AssignmentId) -> (r: String)
    ensures
        r@ == "/courses/"@ + dec(course_id@ as nat) + "/assignments/"@ + dec(assignment_id@ as nat) + "/submissions?per_page=100"@,
{
    let mut out = String::new();
    push_str(&mut out, "/courses/");
    push_decimal(&mut out, course_id.get());
    push_str(&mut out, "/assignments/");
    push_decimal(&mut out, assignment_id.get());
    push_str(&mut out, "/submissions?per_page=100");
    assert(out@ =~= "/courses/"@ + dec(course_id@ as nat) + "/assignments/"@ + dec(assignment_id@ as nat) + "/submissions?per_page=100"@);
    out
}

/// The path of a user's submission of an assignment.
pub fn submission_path(course_id: CourseId, assignment_id: AssignmentId, user_id: UserId) -> (r: String)
    ensures
        r@ == "/courses/"@ + dec(course_id@ as nat) + "/assignments/"@ + dec(assignment_id@ as nat) + "/submissions/"@ + dec(user_id@ as nat),
{
    let mut out = String::new();
    push_str(&mut out, "/courses/");
    push_decimal(&mut out, course_id.get());
    push_str(&mut out, "/assignments/");
    push_decimal(&mut out, assignment_id.get());
    push_str(&mut out, "/submissions/");
    push_decimal(&mut out, user_id.get());
    assert(out@ =~= "/courses/"@ + dec(course_id@ as nat) + "/assignments/"@ + dec(assignment_id@ as nat) + "/submissions/"@ + dec(user_id@ as nat));
    out
}

/// The path that lists the quizzes of a course.
pub fn quizzes_list_path(course_id: CourseId) -> (r: String)
    ensures
        r@ == "/courses/"@ + dec(course_id@ as nat) + "/quizzes?per_page=100"@,
{
    let mut out = String::new();
    push_str(&mut out, "/courses/");
    push_decimal(&mut out, course_id.get());
    push_str(&mut out, "/quizzes?per_page=100");
    assert(out@ =~= "/courses/"@ + dec(course_id@ as nat) + "/quizzes?per_page=100"@);
    out
}

/// The path that creates a quiz in a course.
pub fn quizzes_path(course_id: CourseId) -> (r: String)
    ensures
        r@ == "/courses/"@ + dec(course_id@ as nat) + "/quizzes"@,
{
    let mut out = String::new();
    push_str(&mut out, "/courses/");
    push_decimal(&mut out, course_id.get());
    push_str(&mut out, "/quizzes");
    assert(out@ =~= "/courses/"@ + dec(course_id@ as nat) + "/quizzes"@);
    out
}

/// The path of a quiz of a course.
pub fn quiz_path(course_id: CourseId, quiz_id: QuizId) -> (r: String)
    ensures
        r@ == "/courses/"@ + dec(course_id@ as nat) + "/quizzes/"@ + dec(quiz_id@ as nat),
{
    let mut out = String::new();
    push_str(&mut out, "/courses/");
    push_decimal(&mut out, course_id.get());
    push_str(&mut out, "/quizzes/");
    push_decimal(&mut out, quiz_id.get());
    assert(out@ =~= "/courses/"@ + dec(course_id@ as nat) + "/quizzes/"@ + dec(quiz_id@ as nat));
    out
}

/// The path that lists the submissions of a quiz.
pub fn quiz_submissions_list_path(course_id: CourseId, quiz_id: QuizId) -> (r: String)
    ensures
        r@ == "/courses/"@ + dec(course_id@ as nat) + "/quizzes/"@ + dec(quiz_id@ as nat) + "/submissions?per_page=100"@,
{
    let mut out = String::new();
    push_str(&mut out, "/courses/");
    push_decimal(&mut out, course_id.get());
    push_str(&mut out, "/quizzes/");
    push_decimal(&mut out, quiz_id.get());
    push_str(&mut out, "/submissions?per_page=100");
    assert(out@ =~= "/courses/"@ + dec(course_id@ as nat) + "/quizzes/"@ + dec(quiz_id@ as nat) + "/submissions?per_page=100"@);
    out
}

/// The path of a submission of a quiz.
pub fn quiz_submission_path(course_id: CourseId, quiz_id: QuizId, submission_id: QuizSubmissionId) -> (r: String)
    ensures
        r@ == "/courses/"@ + dec(course_id@ as nat) + "/quizzes/"@ + dec(quiz_id@ as nat) + "/submissions/"@ + dec(submission_id@ as nat),
{
    let mut out = String::new();
    push_str(&mut out, "/courses/");
    push_decimal(&mut out, course_id.get());
    push_str(&mut out, "/quizzes/");
    push_decimal(&mut out, quiz_id.get());
    push_str(&mut out, "/submissions/");
    push_decimal(&mut out, submission_id.get());
    assert(out@ =~= "/courses/"@ + dec(course_id@ as nat) + "/quizzes/"@ + dec(quiz_id@ as nat) + "/submissions/"@ + dec(submission_id@ as nat));
    out
}

} // verus!
