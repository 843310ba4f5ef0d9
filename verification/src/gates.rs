//! What each command does before any work: under `--explain` it shows its
//! planned step and stops; a destructive step without `--confirm` is
//! refused; anything else goes ahead.

use crate::envelopes::PlannedAction;
use crate::errors::CliError;
use crate::assignments::AssignmentRequest;
use crate::banks::QuestionBankRequest;
use crate::calendar::CalendarEventRequest;
use crate::catalog::{CollaborationRequest, OutcomeRequest, QuestionRequest, ToolRequest};
use crate::cli::{ContentMigrationRequest, EnrollmentRequest, GlobalOptions, SectionRequest};
use crate::conferences::ConferenceRequest;
use crate::modules::ModuleRequest;
use crate::pages::PageRequest;
use crate::quizzes::QuizRequest;
use crate::reports::{ReportFormat, ReportRequest};
use crate::requests::{CourseRequest, FileRequest, FolderRequest, GradebookRequest, GroupRequest, PostRequest, QuizSubmissionRequest};
use crate::rubrics::RubricRequest;
use crate::submissions::SubmissionRequest;
use crate::text::to_owned_string;
use vstd::prelude::*;

verus! {

/// What a command does before any work.
#[derive(Debug)]
pub enum Gate {
    /// Show the command's name and its planned step, and stop.
    Explain(&'static str, PlannedAction),
    /// Stop with this error.
    Refuse(CliError),
    /// Go ahead.
    Proceed,
}

/// A command's planned step: the command's name, the action, its risk, and
/// whether it needs `--confirm`.
pub ghost struct Step {
    pub command: Seq<char>,
    pub action: Seq<char>,
    pub risk: Seq<char>,
    pub confirm: bool,
}

/// The step with these parts.
pub open spec fn step(command: Seq<char>, action: Seq<char>, risk: Seq<char>, confirm: bool) -> Step {
    Step { command, action, risk, confirm }
}

/// Whether `r` is what the step `s` comes to under the options `g`: the
/// plan under `--explain`; else, for a step that needs confirming, a refusal
/// naming the command where `--confirm` is not given; else going ahead.
pub open spec fn gate_is(s: Step, g: GlobalOptions, r: Gate) -> bool {
    if g.explain {
        r matches Gate::Explain(c, p) && c@ == s.command && p.action@ == s.action && p.risk@
            == s.risk && p.requires_confirmation == s.confirm
    } else if s.confirm && !g.confirm {
        r matches Gate::Refuse(e) && (e matches CliError::ConfirmationRequired(a) && a@ == s.command)
    } else {
        r is Proceed
    }
}

/// Under `--explain` nothing goes ahead; a step that needs confirming goes
/// ahead only under `--confirm`; and a step that goes ahead without
/// `--confirm` is one that needs no confirming.
pub proof fn lemma_gate_guards(s: Step, g: GlobalOptions, r: Gate)
    requires
        gate_is(s, g, r),
    ensures
        g.explain ==> !(r is Proceed),
        r is Proceed && s.confirm ==> g.confirm,
        r is Proceed && !g.confirm ==> !s.confirm,
        !g.explain && !(r is Proceed) ==> s.confirm && !g.confirm,
        g.explain ==> (r matches Gate::Explain(c, p) && c@ == s.command && p.action@ == s.action
            && p.risk@ == s.risk && p.requires_confirmation == s.confirm),
        !g.explain && s.confirm && !g.confirm ==> (r matches Gate::Refuse(e) && (
        e matches CliError::ConfirmationRequired(a) && a@ == s.command)),
        !g.explain && (!s.confirm || g.confirm) ==> r is Proceed,
{
}

/// An assignment step needs confirming exactly where it deletes, a
/// submission step exactly where it grades or imports, and a quiz step where
/// it deletes or publishes, never where it lists, creates or updates.
pub proof fn lemma_destructive_steps_need_confirming<P>(
    assignment: AssignmentRequest<P>,
    quiz: QuizRequest<P>,
    submission: SubmissionRequest,
)
    ensures
        assignment is Delete <==> assignment_step(assignment).confirm,
        quiz is Delete || quiz is Publish ==> quiz_step(quiz).confirm,
        quiz is List || quiz is Create || quiz is Update ==> !quiz_step(quiz).confirm,
        submission is Grade || submission is Import <==> submission_step(submission).confirm,
{
}

/// Which steps need `--confirm`: every step that deletes or removes remote
/// data, grades, imports grades, publishes a quiz, attaches or detaches a
/// rubric, updates course settings or a posting policy, or posts an
/// announcement, and no other; without `--confirm` such a step is refused
/// naming its command (see [`lemma_gate_guards`]).
pub proof fn lemma_steps_needing_confirmation<P>(
    course_request: CourseRequest,
    assignment_request: AssignmentRequest<P>,
    outcome_request: OutcomeRequest,
    rubric_request: RubricRequest,
    submission_request: SubmissionRequest,
    quiz_submission_request: QuizSubmissionRequest,
    quiz_request: QuizRequest<P>,
    question_bank_request: QuestionBankRequest,
    question_request: QuestionRequest,
    page_request: PageRequest,
    module_request: ModuleRequest<P>,
    tool_request: ToolRequest,
    calendar_request: CalendarEventRequest,
    conference_request: ConferenceRequest,
    collaboration_request: CollaborationRequest,
    file_request: FileRequest,
    folder_request: FolderRequest,
    content_migration_request: ContentMigrationRequest,
    announcement_request: PostRequest,
    discussion_request: PostRequest,
    group_request: GroupRequest,
    section_request: SectionRequest,
    enrollment_request: EnrollmentRequest,
    report_request: ReportRequest,
    gradebook_request: GradebookRequest,
)
    ensures
        course_step(course_request).confirm <==> (course_request is Update),
        assignment_step(assignment_request).confirm <==> (assignment_request is Delete),
        outcome_step(outcome_request).confirm <==> (outcome_request is Delete),
        rubric_step(rubric_request).confirm <==> (rubric_request is Delete || rubric_request is Attach || rubric_request is Detach),
        submission_step(submission_request).confirm <==> (submission_request is Grade || submission_request is Import),
        quiz_submission_step(quiz_submission_request).confirm <==> (quiz_submission_request is Grade),
        quiz_step(quiz_request).confirm <==> (quiz_request is Delete || quiz_request is Publish || (quiz_request matches QuizRequest::Submission(s) && s is Grade)),
        question_bank_step(question_bank_request).confirm <==> (question_bank_request is Delete),
        question_step(question_request).confirm <==> (question_request is Delete),
        page_step(page_request).confirm <==> (false),
        module_step(module_request).confirm <==> (false),
        tool_step(tool_request).confirm <==> (tool_request is Delete),
        calendar_step(calendar_request).confirm <==> (calendar_request is Delete),
        conference_step(conference_request).confirm <==> (conference_request is Delete),
        collaboration_step(collaboration_request).confirm <==> (collaboration_request is Delete),
        file_step(file_request).confirm <==> (file_request is Delete),
        folder_step(folder_request).confirm <==> (false),
        content_migration_step(content_migration_request).confirm <==> (false),
        announcement_step(announcement_request).confirm <==> (announcement_request is Create),
        discussion_step(discussion_request).confirm <==> (false),
        group_step(group_request).confirm <==> (false),
        section_step(section_request).confirm <==> (section_request is Delete),
        enrollment_step(enrollment_request).confirm <==> (enrollment_request is Remove),
        report_step(report_request).confirm <==> (false),
        gradebook_step(gradebook_request).confirm <==> (gradebook_request is PostingPolicySet),
        course_request is Update ==> course_step(course_request).command == "course update"@,
        assignment_request is Delete ==> assignment_step(assignment_request).command == "assignment delete"@,
        outcome_request is Delete ==> outcome_step(outcome_request).command == "outcome delete"@,
        rubric_request is Delete ==> rubric_step(rubric_request).command == "rubric delete"@,
        rubric_request is Attach ==> rubric_step(rubric_request).command == "rubric attach"@,
        rubric_request is Detach ==> rubric_step(rubric_request).command == "rubric detach"@,
        submission_request is Grade ==> submission_step(submission_request).command == "submission grade"@,
        submission_request is Import ==> submission_step(submission_request).command == "submission import"@,
        quiz_submission_request is Grade ==> quiz_submission_step(quiz_submission_request).command == "quiz submission grade"@,
        quiz_request is Delete ==> quiz_step(quiz_request).command == "quiz delete"@,
        quiz_request is Publish ==> quiz_step(quiz_request).command == "quiz publish"@,
        quiz_request matches QuizRequest::Submission(s) && s is Grade ==> quiz_step(quiz_request).command
            == "quiz submission grade"@,
        question_bank_request is Delete ==> question_bank_step(question_bank_request).command == "question bank delete"@,
        question_request is Delete ==> question_step(question_request).command == "question delete"@,
        tool_request is Delete ==> tool_step(tool_request).command == "tool delete"@,
        calendar_request is Delete ==> calendar_step(calendar_request).command == "calendar delete"@,
        conference_request is Delete ==> conference_step(conference_request).command == "conference delete"@,
        collaboration_request is Delete ==> collaboration_step(collaboration_request).command == "collaboration delete"@,
        file_request is Delete ==> file_step(file_request).command == "file delete"@,
        announcement_request is Create ==> announcement_step(announcement_request).command == "announcement create"@,
        section_request is Delete ==> section_step(section_request).command == "section delete"@,
        enrollment_request is Remove ==> enrollment_step(enrollment_request).command == "enrollment remove"@,
        gradebook_request is PostingPolicySet ==> gradebook_step(gradebook_request).command == "gradebook posting-policy set"@,
{
}


/// The plan each command shows under `--explain`: its name, its action and
/// its risk, as the command line words them.
pub proof fn lemma_step_plans<P>(
    course_request: CourseRequest,
    assignment_request: AssignmentRequest<P>,
    outcome_request: OutcomeRequest,
    rubric_request: RubricRequest,
    submission_request: SubmissionRequest,
    quiz_submission_request: QuizSubmissionRequest,
    quiz_request: QuizRequest<P>,
    question_bank_request: QuestionBankRequest,
    question_request: QuestionRequest,
    page_request: PageRequest,
    module_request: ModuleRequest<P>,
    tool_request: ToolRequest,
    calendar_request: CalendarEventRequest,
    conference_request: ConferenceRequest,
    collaboration_request: CollaborationRequest,
    file_request: FileRequest,
    folder_request: FolderRequest,
    content_migration_request: ContentMigrationRequest,
    announcement_request: PostRequest,
    discussion_request: PostRequest,
    group_request: GroupRequest,
    section_request: SectionRequest,
    enrollment_request: EnrollmentRequest,
    report_request: ReportRequest,
    gradebook_request: GradebookRequest,
)
    ensures
        course_request is List ==> course_step(course_request).command == "course list"@ && course_step(
            course_request,
        ).action == "list courses"@ && course_step(course_request).risk == "none"@,
        course_request is Show ==> course_step(course_request).command == "course show"@ && course_step(
            course_request,
        ).action == "show course summary"@ && course_step(course_request).risk == "none"@,
        course_request is SetDefault ==> course_step(course_request).command == "course set"@ && course_step(
            course_request,
        ).action == "set default course id"@ && course_step(course_request).risk == "writes local config"@,
        course_request is Update ==> course_step(course_request).command == "course update"@ && course_step(
            course_request,
        ).action == "update course settings"@ && course_step(course_request).risk == "updates remote course settings"@,
        assignment_request is List ==> assignment_step(assignment_request).command == "assignment list"@ && assignment_step(
            assignment_request,
        ).action == "list assignments"@ && assignment_step(assignment_request).risk == "none"@,
        assignment_request is Create ==> assignment_step(assignment_request).command == "assignment create"@ && assignment_step(
            assignment_request,
        ).action == "create assignment"@ && assignment_step(assignment_request).risk == "creates remote assignment"@,
        assignment_request is Update ==> assignment_step(assignment_request).command == "assignment update"@ && assignment_step(
            assignment_request,
        ).action == "update assignment"@ && assignment_step(assignment_request).risk == "updates remote assignment"@,
        assignment_request is Delete ==> assignment_step(assignment_request).command == "assignment delete"@ && assignment_step(
            assignment_request,
        ).action == "delete assignment"@ && assignment_step(assignment_request).risk == "deletes remote assignment"@,
        outcome_request is List ==> outcome_step(outcome_request).command == "outcome list"@ && outcome_step(
            outcome_request,
        ).action == "list outcomes"@ && outcome_step(outcome_request).risk == "none"@,
        outcome_request is Delete ==> outcome_step(outcome_request).command == "outcome delete"@ && outcome_step(
            outcome_request,
        ).action == "delete outcome"@ && outcome_step(outcome_request).risk == "deletes remote outcome"@,
        rubric_request is List ==> rubric_step(rubric_request).command == "rubric list"@ && rubric_step(
            rubric_request,
        ).action == "list rubrics"@ && rubric_step(rubric_request).risk == "none"@,
        rubric_request is Delete ==> rubric_step(rubric_request).command == "rubric delete"@ && rubric_step(
            rubric_request,
        ).action == "delete rubric"@ && rubric_step(rubric_request).risk == "deletes remote rubric"@,
        rubric_request is Attach ==> rubric_step(rubric_request).command == "rubric attach"@ && rubric_step(
            rubric_request,
        ).action == "attach rubric"@ && rubric_step(rubric_request).risk == "attaches rubric to target"@,
        rubric_request is Detach ==> rubric_step(rubric_request).command == "rubric detach"@ && rubric_step(
            rubric_request,
        ).action == "detach rubric"@ && rubric_step(rubric_request).risk == "detaches rubric association"@,
        submission_request is List ==> submission_step(submission_request).command == "submission list"@ && submission_step(
            submission_request,
        ).action == "list submissions"@ && submission_step(submission_request).risk == "none"@,
        submission_request is Grade ==> submission_step(submission_request).command == "submission grade"@ && submission_step(
            submission_request,
        ).action == "grade submission"@ && submission_step(submission_request).risk == "updates remote submission grade"@,
        submission_request is Import ==> submission_step(submission_request).command == "submission import"@ && submission_step(
            submission_request,
        ).action == "bulk import grades"@ && submission_step(submission_request).risk == "updates remote submission grades"@,
        quiz_submission_request is List ==> quiz_submission_step(quiz_submission_request).command == "quiz submission list"@ && quiz_submission_step(
            quiz_submission_request,
        ).action == "list quiz submissions"@ && quiz_submission_step(quiz_submission_request).risk == "none"@,
        quiz_submission_request is Grade ==> quiz_submission_step(quiz_submission_request).command == "quiz submission grade"@ && quiz_submission_step(
            quiz_submission_request,
        ).action == "grade quiz submission"@ && quiz_submission_step(quiz_submission_request).risk == "updates remote quiz submission grade"@,
        quiz_request is List ==> quiz_step(quiz_request).command == "quiz list"@ && quiz_step(
            quiz_request,
        ).action == "list quizzes"@ && quiz_step(quiz_request).risk == "none"@,
        quiz_request is Create ==> quiz_step(quiz_request).command == "quiz create"@ && quiz_step(
            quiz_request,
        ).action == "create quiz"@ && quiz_step(quiz_request).risk == "creates remote quiz"@,
        quiz_request is Update ==> quiz_step(quiz_request).command == "quiz update"@ && quiz_step(
            quiz_request,
        ).action == "update quiz"@ && quiz_step(quiz_request).risk == "updates remote quiz"@,
        quiz_request is Delete ==> quiz_step(quiz_request).command == "quiz delete"@ && quiz_step(
            quiz_request,
        ).action == "delete quiz"@ && quiz_step(quiz_request).risk == "deletes remote quiz"@,
        quiz_request is Publish ==> quiz_step(quiz_request).command == "quiz publish"@ && quiz_step(
            quiz_request,
        ).action == "publish quiz"@ && quiz_step(quiz_request).risk == "updates remote quiz publish state"@,
        quiz_request matches QuizRequest::Submission(s) ==> quiz_step(quiz_request) == quiz_submission_step(s),
        question_bank_request is List ==> question_bank_step(question_bank_request).command == "question bank list"@ && question_bank_step(
            question_bank_request,
        ).action == "list question banks"@ && question_bank_step(question_bank_request).risk == "none"@,
        question_bank_request is Create ==> question_bank_step(question_bank_request).command == "question bank create"@ && question_bank_step(
            question_bank_request,
        ).action == "create question bank"@ && question_bank_step(question_bank_request).risk == "creates remote question bank"@,
        question_bank_request is Update ==> question_bank_step(question_bank_request).command == "question bank update"@ && question_bank_step(
            question_bank_request,
        ).action == "update question bank"@ && question_bank_step(question_bank_request).risk == "updates remote question bank"@,
        question_bank_request is Delete ==> question_bank_step(question_bank_request).command == "question bank delete"@ && question_bank_step(
            question_bank_request,
        ).action == "delete question bank"@ && question_bank_step(question_bank_request).risk == "deletes remote question bank"@,
        question_request is List ==> question_step(question_request).command == "question list"@ && question_step(
            question_request,
        ).action == "list questions"@ && question_step(question_request).risk == "none"@,
        question_request is Delete ==> question_step(question_request).command == "question delete"@ && question_step(
            question_request,
        ).action == "delete question"@ && question_step(question_request).risk == "deletes remote question"@,
        page_request is List ==> page_step(page_request).command == "page list"@ && page_step(
            page_request,
        ).action == "list pages"@ && page_step(page_request).risk == "none"@,
        page_request is Create ==> page_step(page_request).command == "page create"@ && page_step(
            page_request,
        ).action == "create page"@ && page_step(page_request).risk == "creates remote page"@,
        page_request is Update ==> page_step(page_request).command == "page update"@ && page_step(
            page_request,
        ).action == "update page"@ && page_step(page_request).risk == "updates remote page"@,
        page_request is Publish ==> page_step(page_request).command == "page publish"@ && page_step(
            page_request,
        ).action == "update page publish state"@ && page_step(page_request).risk == "updates remote page"@,
        module_request is List ==> module_step(module_request).command == "module list"@ && module_step(
            module_request,
        ).action == "list modules"@ && module_step(module_request).risk == "none"@,
        module_request is Create ==> module_step(module_request).command == "module create"@ && module_step(
            module_request,
        ).action == "create module"@ && module_step(module_request).risk == "creates remote module"@,
        module_request is Update ==> module_step(module_request).command == "module update"@ && module_step(
            module_request,
        ).action == "update module"@ && module_step(module_request).risk == "updates remote module"@,
        module_request is Reorder ==> module_step(module_request).command == "module reorder"@ && module_step(
            module_request,
        ).action == "reorder modules"@ && module_step(module_request).risk == "updates remote module order"@,
        module_request is Publish ==> module_step(module_request).command == "module publish"@ && module_step(
            module_request,
        ).action == "update module publish state"@ && module_step(module_request).risk == "updates remote module"@,
        module_request is RequirementList ==> module_step(module_request).command == "module requirement list"@ && module_step(
            module_request,
        ).action == "list module requirements"@ && module_step(module_request).risk == "reads module requirements"@,
        module_request is RequirementUpdate ==> module_step(module_request).command == "module requirement update"@ && module_step(
            module_request,
        ).action == "update module requirements"@ && module_step(module_request).risk == "updates module requirements"@,
        tool_request is List ==> tool_step(tool_request).command == "tool list"@ && tool_step(
            tool_request,
        ).action == "list external tools"@ && tool_step(tool_request).risk == "none"@,
        tool_request is Delete ==> tool_step(tool_request).command == "tool delete"@ && tool_step(
            tool_request,
        ).action == "delete external tool"@ && tool_step(tool_request).risk == "deletes remote external tool"@,
        calendar_request is List ==> calendar_step(calendar_request).command == "calendar list"@ && calendar_step(
            calendar_request,
        ).action == "list calendar events"@ && calendar_step(calendar_request).risk == "none"@,
        calendar_request is Create ==> calendar_step(calendar_request).command == "calendar create"@ && calendar_step(
            calendar_request,
        ).action == "create calendar event"@ && calendar_step(calendar_request).risk == "creates remote calendar event"@,
        calendar_request is Update ==> calendar_step(calendar_request).command == "calendar update"@ && calendar_step(
            calendar_request,
        ).action == "update calendar event"@ && calendar_step(calendar_request).risk == "updates remote calendar event"@,
        calendar_request is Delete ==> calendar_step(calendar_request).command == "calendar delete"@ && calendar_step(
            calendar_request,
        ).action == "delete calendar event"@ && calendar_step(calendar_request).risk == "deletes remote calendar event"@,
        conference_request is List ==> conference_step(conference_request).command == "conference list"@ && conference_step(
            conference_request,
        ).action == "list conferences"@ && conference_step(conference_request).risk == "low"@,
        conference_request is Create ==> conference_step(conference_request).command == "conference create"@ && conference_step(
            conference_request,
        ).action == "create conference"@ && conference_step(conference_request).risk == "creates remote conference"@,
        conference_request is Update ==> conference_step(conference_request).command == "conference update"@ && conference_step(
            conference_request,
        ).action == "update conference"@ && conference_step(conference_request).risk == "updates remote conference"@,
        conference_request is Delete ==> conference_step(conference_request).command == "conference delete"@ && conference_step(
            conference_request,
        ).action == "delete conference"@ && conference_step(conference_request).risk == "deletes remote conference"@,
        collaboration_request is List ==> collaboration_step(collaboration_request).command == "collaboration list"@ && collaboration_step(
            collaboration_request,
        ).action == "list collaborations"@ && collaboration_step(collaboration_request).risk == "none"@,
        collaboration_request is Delete ==> collaboration_step(collaboration_request).command == "collaboration delete"@ && collaboration_step(
            collaboration_request,
        ).action == "delete collaboration"@ && collaboration_step(collaboration_request).risk == "deletes remote collaboration"@,
        file_request is List ==> file_step(file_request).command == "file list"@ && file_step(
            file_request,
        ).action == "list files"@ && file_step(file_request).risk == "none"@,
        file_request is Delete ==> file_step(file_request).command == "file delete"@ && file_step(
            file_request,
        ).action == "delete file"@ && file_step(file_request).risk == "deletes remote file"@,
        folder_request is List ==> folder_step(folder_request).command == "folder list"@ && folder_step(
            folder_request,
        ).action == "list folders"@ && folder_step(folder_request).risk == "none"@,
        folder_request is Create ==> folder_step(folder_request).command == "folder create"@ && folder_step(
            folder_request,
        ).action == "create folder"@ && folder_step(folder_request).risk == "creates remote folder"@,
        content_migration_request is List ==> content_migration_step(content_migration_request).command == "content-migration list"@ && content_migration_step(
            content_migration_request,
        ).action == "list content migrations"@ && content_migration_step(content_migration_request).risk == "none"@,
        content_migration_request is Create ==> content_migration_step(content_migration_request).command == "content-migration create"@ && content_migration_step(
            content_migration_request,
        ).action == "create content migration"@ && content_migration_step(content_migration_request).risk == "imports remote content"@,
        content_migration_request is Show ==> content_migration_step(content_migration_request).command == "content-migration show"@ && content_migration_step(
            content_migration_request,
        ).action == "show content migration"@ && content_migration_step(content_migration_request).risk == "none"@,
        announcement_request is List ==> announcement_step(announcement_request).command == "announcement list"@ && announcement_step(
            announcement_request,
        ).action == "list announcements"@ && announcement_step(announcement_request).risk == "none"@,
        announcement_request is Create ==> announcement_step(announcement_request).command == "announcement create"@ && announcement_step(
            announcement_request,
        ).action == "create announcement"@ && announcement_step(announcement_request).risk == "creates remote announcement"@,
        discussion_request is List ==> discussion_step(discussion_request).command == "discussion list"@ && discussion_step(
            discussion_request,
        ).action == "list discussions"@ && discussion_step(discussion_request).risk == "none"@,
        discussion_request is Create ==> discussion_step(discussion_request).command == "discussion create"@ && discussion_step(
            discussion_request,
        ).action == "create discussion"@ && discussion_step(discussion_request).risk == "creates remote discussion"@,
        group_request is List ==> group_step(group_request).command == "group list"@ && group_step(
            group_request,
        ).action == "list groups"@ && group_step(group_request).risk == "none"@,
        group_request is Create ==> group_step(group_request).command == "group create"@ && group_step(
            group_request,
        ).action == "create group"@ && group_step(group_request).risk == "creates remote group"@,
        section_request is List ==> section_step(section_request).command == "section list"@ && section_step(
            section_request,
        ).action == "list sections"@ && section_step(section_request).risk == "none"@,
        section_request is Create ==> section_step(section_request).command == "section create"@ && section_step(
            section_request,
        ).action == "create section"@ && section_step(section_request).risk == "creates remote section"@,
        section_request is Update ==> section_step(section_request).command == "section update"@ && section_step(
            section_request,
        ).action == "update section"@ && section_step(section_request).risk == "updates remote section"@,
        section_request is Delete ==> section_step(section_request).command == "section delete"@ && section_step(
            section_request,
        ).action == "delete section"@ && section_step(section_request).risk == "deletes remote section"@,
        enrollment_request is List ==> enrollment_step(enrollment_request).command == "enrollment list"@ && enrollment_step(
            enrollment_request,
        ).action == "list enrollments"@ && enrollment_step(enrollment_request).risk == "none"@,
        enrollment_request is Add ==> enrollment_step(enrollment_request).command == "enrollment add"@ && enrollment_step(
            enrollment_request,
        ).action == "add enrollment"@ && enrollment_step(enrollment_request).risk == "creates remote enrollment"@,
        enrollment_request is Remove ==> enrollment_step(enrollment_request).command == "enrollment remove"@ && enrollment_step(
            enrollment_request,
        ).action == "remove enrollment"@ && enrollment_step(enrollment_request).risk == "deletes remote enrollment"@,
        report_request is GradebookExport ==> report_step(report_request).command == "report gradebook-export"@ && report_step(
            report_request,
        ).action == "request and download report"@ && report_step(report_request).risk == "reads report data"@,
        report_request is SubmissionStatus ==> report_step(report_request).command == "report submission-status"@ && report_step(
            report_request,
        ).action == "request and download report"@ && report_step(report_request).risk == "reads report data"@,
        report_request is CourseActivitySummary ==> report_step(report_request).command == "report course-activity"@ && report_step(
            report_request,
        ).action == "fetch course activity summary"@ && report_step(report_request).risk == "none"@,
        report_request is GradeChangeLog ==> report_step(report_request).command == "report grade-change-log"@ && report_step(
            report_request,
        ).action == "request and download report"@ && report_step(report_request).risk == "reads report data"@,
        gradebook_request is GradingPeriodList ==> gradebook_step(gradebook_request).command == "gradebook grading-period list"@ && gradebook_step(
            gradebook_request,
        ).action == "list grading periods"@ && gradebook_step(gradebook_request).risk == "none"@,
        gradebook_request is GradingPeriodShow ==> gradebook_step(gradebook_request).command == "gradebook grading-period show"@ && gradebook_step(
            gradebook_request,
        ).action == "show grading period"@ && gradebook_step(gradebook_request).risk == "none"@,
        gradebook_request is PostingPolicyGet ==> gradebook_step(gradebook_request).command == "gradebook posting-policy get"@ && gradebook_step(
            gradebook_request,
        ).action == "get posting policy"@ && gradebook_step(gradebook_request).risk == "none"@,
        gradebook_request is PostingPolicySet ==> gradebook_step(gradebook_request).command == "gradebook posting-policy set"@ && gradebook_step(
            gradebook_request,
        ).action == "update posting policy"@ && gradebook_step(gradebook_request).risk == "updates gradebook posting policy"@,
{
}


/// Where the step `command`, `action`, `risk`, `confirm` leads.
fn gate(
    command: &'static str,
    action: &'static str,
    risk: &'static str,
    confirm: bool,
    global: &GlobalOptions,
) -> (r: Gate)
    ensures
        gate_is(step(command@, action@, risk@, confirm), *global, r),
{
    if global.explain {
        Gate::Explain(command, PlannedAction { action, risk, requires_confirmation: confirm })
    } else if confirm && !global.confirm {
        Gate::Refuse(CliError::ConfirmationRequired(command))
    } else {
        Gate::Proceed
    }
}

/// Whether checking the stored credentials goes ahead.
pub fn auth_check_gate(global: &GlobalOptions) -> (r: Gate)
    ensures
        gate_is(
            step("auth check"@, "validate stored Canvas credentials"@, "none"@, false),
            *global,
            r,
        ),
{
    gate("auth check", "validate stored Canvas credentials", "none", false, global)
}

/// Whether writing a new configuration, which needs confirming, goes ahead.
pub fn config_init_gate(global: &GlobalOptions) -> (r: Gate)
    ensures
        gate_is(
            step(
                "config init"@,
                "prompt for Canvas host/token and write config"@,
                "writes local config"@,
                true,
            ),
            *global,
            r,
        ),
{
    gate("config init", "prompt for Canvas host/token and write config", "writes local config", true, global)
}

/// The planned step of a course request: the command's name, the action,
/// its risk, and whether it needs confirming.
pub open spec fn course_step(request: CourseRequest) -> Step {
    match request {
        CourseRequest::List => step("course list"@, "list courses"@, "none"@, false),
        CourseRequest::Show { .. } => step("course show"@, "show course summary"@, "none"@, false),
        CourseRequest::SetDefault { .. } => step("course set"@, "set default course id"@, "writes local config"@, false),
        CourseRequest::Update { .. } => step("course update"@, "update course settings"@, "updates remote course settings"@, true),
    }
}

/// Whether a course request goes ahead: explained under `--explain`, refused
/// where it needs `--confirm` and lacks it.
pub fn course_gate(request: &CourseRequest, global: &GlobalOptions) -> (r: Gate)
    ensures
        gate_is(course_step(*request), *global, r),
{
    match request {
        CourseRequest::List => gate("course list", "list courses", "none", false, global),
        CourseRequest::Show { .. } => gate("course show", "show course summary", "none", false, global),
        CourseRequest::SetDefault { .. } => gate("course set", "set default course id", "writes local config", false, global),
        CourseRequest::Update { .. } => gate("course update", "update course settings", "updates remote course settings", true, global),
    }
}

/// The planned step of a assignment request: the command's name, the action,
/// its risk, and whether it needs confirming.
pub open spec fn assignment_step<P>(request: AssignmentRequest<P>) -> Step {
    match request {
        AssignmentRequest::List { .. } => step("assignment list"@, "list assignments"@, "none"@, false),
        AssignmentRequest::Create { .. } => step("assignment create"@, "create assignment"@, "creates remote assignment"@, false),
        AssignmentRequest::Update { .. } => step("assignment update"@, "update assignment"@, "updates remote assignment"@, false),
        AssignmentRequest::Delete { .. } => step("assignment delete"@, "delete assignment"@, "deletes remote assignment"@, true),
    }
}

/// Whether a assignment request goes ahead: explained under `--explain`, refused
/// where it needs `--confirm` and lacks it.
pub fn assignment_gate<P>(request: &AssignmentRequest<P>, global: &GlobalOptions) -> (r: Gate)
    ensures
        gate_is(assignment_step(*request), *global, r),
{
    match request {
        AssignmentRequest::List { .. } => gate("assignment list", "list assignments", "none", false, global),
        AssignmentRequest::Create { .. } => gate("assignment create", "create assignment", "creates remote assignment", false, global),
        AssignmentRequest::Update { .. } => gate("assignment update", "update assignment", "updates remote assignment", false, global),
        AssignmentRequest::Delete { .. } => gate("assignment delete", "delete assignment", "deletes remote assignment", true, global),
    }
}

/// The planned step of a outcome request: the command's name, the action,
/// its risk, and whether it needs confirming.
pub open spec fn outcome_step(request: OutcomeRequest) -> Step {
    match request {
        OutcomeRequest::List { .. } => step("outcome list"@, "list outcomes"@, "none"@, false),
        OutcomeRequest::Delete { .. } => step("outcome delete"@, "delete outcome"@, "deletes remote outcome"@, true),
    }
}

/// Whether a outcome request goes ahead: explained under `--explain`, refused
/// where it needs `--confirm` and lacks it.
pub fn outcome_gate(request: &OutcomeRequest, global: &GlobalOptions) -> (r: Gate)
    ensures
        gate_is(outcome_step(*request), *global, r),
{
    match request {
        OutcomeRequest::List { .. } => gate("outcome list", "list outcomes", "none", false, global),
        OutcomeRequest::Delete { .. } => gate("outcome delete", "delete outcome", "deletes remote outcome", true, global),
    }
}

/// The planned step of a rubric request: the command's name, the action,
/// its risk, and whether it needs confirming.
pub open spec fn rubric_step(request: RubricRequest) -> Step {
    match request {
        RubricRequest::List { .. } => step("rubric list"@, "list rubrics"@, "none"@, false),
        RubricRequest::Delete { .. } => step("rubric delete"@, "delete rubric"@, "deletes remote rubric"@, true),
        RubricRequest::Attach { .. } => step("rubric attach"@, "attach rubric"@, "attaches rubric to target"@, true),
        RubricRequest::Detach { .. } => step("rubric detach"@, "detach rubric"@, "detaches rubric association"@, true),
    }
}

/// Whether a rubric request goes ahead: explained under `--explain`, refused
/// where it needs `--confirm` and lacks it.
pub fn rubric_gate(request: &RubricRequest, global: &GlobalOptions) -> (r: Gate)
    ensures
        gate_is(rubric_step(*request), *global, r),
{
    match request {
        RubricRequest::List { .. } => gate("rubric list", "list rubrics", "none", false, global),
        RubricRequest::Delete { .. } => gate("rubric delete", "delete rubric", "deletes remote rubric", true, global),
        RubricRequest::Attach { .. } => gate("rubric attach", "attach rubric", "attaches rubric to target", true, global),
        RubricRequest::Detach { .. } => gate("rubric detach", "detach rubric", "detaches rubric association", true, global),
    }
}

/// The planned step of a submission request: the command's name, the action,
/// its risk, and whether it needs confirming.
pub open spec fn submission_step(request: SubmissionRequest) -> Step {
    match request {
        SubmissionRequest::List { .. } => step("submission list"@, "list submissions"@, "none"@, false),
        SubmissionRequest::Grade { .. } => step("submission grade"@, "grade submission"@, "updates remote submission grade"@, true),
        SubmissionRequest::Import { .. } => step("submission import"@, "bulk import grades"@, "updates remote submission grades"@, true),
    }
}

/// Whether a submission request goes ahead: explained under `--explain`, refused
/// where it needs `--confirm` and lacks it.
pub fn submission_gate(request: &SubmissionRequest, global: &GlobalOptions) -> (r: Gate)
    ensures
        gate_is(submission_step(*request), *global, r),
{
    match request {
        SubmissionRequest::List { .. } => gate("submission list", "list submissions", "none", false, global),
        SubmissionRequest::Grade { .. } => gate("submission grade", "grade submission", "updates remote submission grade", true, global),
        SubmissionRequest::Import { .. } => gate("submission import", "bulk import grades", "updates remote submission grades", true, global),
    }
}

/// The planned step of a quiz submission request: the command's name, the action,
/// its risk, and whether it needs confirming.
pub open spec fn quiz_submission_step(request: QuizSubmissionRequest) -> Step {
    match request {
        QuizSubmissionRequest::List { .. } => step("quiz submission list"@, "list quiz submissions"@, "none"@, false),
        QuizSubmissionRequest::Grade { .. } => step("quiz submission grade"@, "grade quiz submission"@, "updates remote quiz submission grade"@, true),
    }
}

/// Whether a quiz submission request goes ahead: explained under `--explain`, refused
/// where it needs `--confirm` and lacks it.
pub fn quiz_submission_gate(request: &QuizSubmissionRequest, global: &GlobalOptions) -> (r: Gate)
    ensures
        gate_is(quiz_submission_step(*request), *global, r),
{
    match request {
        QuizSubmissionRequest::List { .. } => gate("quiz submission list", "list quiz submissions", "none", false, global),
        QuizSubmissionRequest::Grade { .. } => gate("quiz submission grade", "grade quiz submission", "updates remote quiz submission grade", true, global),
    }
}

/// The planned step of a quiz request: the command's name, the action,
/// its risk, and whether it needs confirming.
pub open spec fn quiz_step<P>(request: QuizRequest<P>) -> Step {
    match request {
        QuizRequest::List { .. } => step("quiz list"@, "list quizzes"@, "none"@, false),
        QuizRequest::Create { .. } => step("quiz create"@, "create quiz"@, "creates remote quiz"@, false),
        QuizRequest::Update { .. } => step("quiz update"@, "update quiz"@, "updates remote quiz"@, false),
        QuizRequest::Delete { .. } => step("quiz delete"@, "delete quiz"@, "deletes remote quiz"@, true),
        QuizRequest::Publish { .. } => step("quiz publish"@, "publish quiz"@, "updates remote quiz publish state"@, true),
        QuizRequest::Submission(s) => quiz_submission_step(s),
    }
}

/// Whether a quiz request goes ahead: explained under `--explain`, refused
/// where it needs `--confirm` and lacks it.
pub fn quiz_gate<P>(request: &QuizRequest<P>, global: &GlobalOptions) -> (r: Gate)
    ensures
        gate_is(quiz_step(*request), *global, r),
{
    match request {
        QuizRequest::List { .. } => gate("quiz list", "list quizzes", "none", false, global),
        QuizRequest::Create { .. } => gate("quiz create", "create quiz", "creates remote quiz", false, global),
        QuizRequest::Update { .. } => gate("quiz update", "update quiz", "updates remote quiz", false, global),
        QuizRequest::Delete { .. } => gate("quiz delete", "delete quiz", "deletes remote quiz", true, global),
        QuizRequest::Publish { .. } => gate("quiz publish", "publish quiz", "updates remote quiz publish state", true, global),
        QuizRequest::Submission(s) => quiz_submission_gate(s, global),
    }
}

/// The planned step of a question bank request: the command's name, the action,
/// its risk, and whether it needs confirming.
pub open spec fn question_bank_step(request: QuestionBankRequest) -> Step {
    match request {
        QuestionBankRequest::List { .. } => step("question bank list"@, "list question banks"@, "none"@, false),
        QuestionBankRequest::Create { .. } => step("question bank create"@, "create question bank"@, "creates remote question bank"@, false),
        QuestionBankRequest::Update { .. } => step("question bank update"@, "update question bank"@, "updates remote question bank"@, false),
        QuestionBankRequest::Delete { .. } => step("question bank delete"@, "delete question bank"@, "deletes remote question bank"@, true),
    }
}

/// Whether a question bank request goes ahead: explained under `--explain`, refused
/// where it needs `--confirm` and lacks it.
pub fn question_bank_gate(request: &QuestionBankRequest, global: &GlobalOptions) -> (r: Gate)
    ensures
        gate_is(question_bank_step(*request), *global, r),
{
    match request {
        QuestionBankRequest::List { .. } => gate("question bank list", "list question banks", "none", false, global),
        QuestionBankRequest::Create { .. } => gate("question bank create", "create question bank", "creates remote question bank", false, global),
        QuestionBankRequest::Update { .. } => gate("question bank update", "update question bank", "updates remote question bank", false, global),
        QuestionBankRequest::Delete { .. } => gate("question bank delete", "delete question bank", "deletes remote question bank", true, global),
    }
}

/// The planned step of a question request: the command's name, the action,
/// its risk, and whether it needs confirming.
pub open spec fn question_step(request: QuestionRequest) -> Step {
    match request {
        QuestionRequest::List { .. } => step("question list"@, "list questions"@, "none"@, false),
        QuestionRequest::Delete { .. } => step("question delete"@, "delete question"@, "deletes remote question"@, true),
    }
}

/// Whether a question request goes ahead: explained under `--explain`, refused
/// where it needs `--confirm` and lacks it.
pub fn question_gate(request: &QuestionRequest, global: &GlobalOptions) -> (r: Gate)
    ensures
        gate_is(question_step(*request), *global, r),
{
    match request {
        QuestionRequest::List { .. } => gate("question list", "list questions", "none", false, global),
        QuestionRequest::Delete { .. } => gate("question delete", "delete question", "deletes remote question", true, global),
    }
}

/// The planned step of a page request: the command's name, the action,
/// its risk, and whether it needs confirming.
pub open spec fn page_step(request: PageRequest) -> Step {
    match request {
        PageRequest::List { .. } => step("page list"@, "list pages"@, "none"@, false),
        PageRequest::Create { .. } => step("page create"@, "create page"@, "creates remote page"@, false),
        PageRequest::Update { .. } => step("page update"@, "update page"@, "updates remote page"@, false),
        PageRequest::Publish { .. } => step("page publish"@, "update page publish state"@, "updates remote page"@, false),
    }
}

/// Whether a page request goes ahead: explained under `--explain`, refused
/// where it needs `--confirm` and lacks it.
pub fn page_gate(request: &PageRequest, global: &GlobalOptions) -> (r: Gate)
    ensures
        gate_is(page_step(*request), *global, r),
{
    match request {
        PageRequest::List { .. } => gate("page list", "list pages", "none", false, global),
        PageRequest::Create { .. } => gate("page create", "create page", "creates remote page", false, global),
        PageRequest::Update { .. } => gate("page update", "update page", "updates remote page", false, global),
        PageRequest::Publish { .. } => gate("page publish", "update page publish state", "updates remote page", false, global),
    }
}

/// The planned step of a module request: the command's name, the action,
/// its risk, and whether it needs confirming.
pub open spec fn module_step<P>(request: ModuleRequest<P>) -> Step {
    match request {
        ModuleRequest::List { .. } => step("module list"@, "list modules"@, "none"@, false),
        ModuleRequest::Create { .. } => step("module create"@, "create module"@, "creates remote module"@, false),
        ModuleRequest::Update { .. } => step("module update"@, "update module"@, "updates remote module"@, false),
        ModuleRequest::Reorder { .. } => step("module reorder"@, "reorder modules"@, "updates remote module order"@, false),
        ModuleRequest::Publish { .. } => step("module publish"@, "update module publish state"@, "updates remote module"@, false),
        ModuleRequest::RequirementList { .. } => step("module requirement list"@, "list module requirements"@, "reads module requirements"@, false),
        ModuleRequest::RequirementUpdate { .. } => step("module requirement update"@, "update module requirements"@, "updates module requirements"@, false),
    }
}

/// Whether a module request goes ahead: explained under `--explain`, refused
/// where it needs `--confirm` and lacks it.
pub fn module_gate<P>(request: &ModuleRequest<P>, global: &GlobalOptions) -> (r: Gate)
    ensures
        gate_is(module_step(*request), *global, r),
{
    match request {
        ModuleRequest::List { .. } => gate("module list", "list modules", "none", false, global),
        ModuleRequest::Create { .. } => gate("module create", "create module", "creates remote module", false, global),
        ModuleRequest::Update { .. } => gate("module update", "update module", "updates remote module", false, global),
        ModuleRequest::Reorder { .. } => gate("module reorder", "reorder modules", "updates remote module order", false, global),
        ModuleRequest::Publish { .. } => gate("module publish", "update module publish state", "updates remote module", false, global),
        ModuleRequest::RequirementList { .. } => gate("module requirement list", "list module requirements", "reads module requirements", false, global),
        ModuleRequest::RequirementUpdate { .. } => gate("module requirement update", "update module requirements", "updates module requirements", false, global),
    }
}

/// The planned step of a tool request: the command's name, the action,
/// its risk, and whether it needs confirming.
pub open spec fn tool_step(request: ToolRequest) -> Step {
    match request {
        ToolRequest::List { .. } => step("tool list"@, "list external tools"@, "none"@, false),
        ToolRequest::Delete { .. } => step("tool delete"@, "delete external tool"@, "deletes remote external tool"@, true),
    }
}

/// Whether a tool request goes ahead: explained under `--explain`, refused
/// where it needs `--confirm` and lacks it.
pub fn tool_gate(request: &ToolRequest, global: &GlobalOptions) -> (r: Gate)
    ensures
        gate_is(tool_step(*request), *global, r),
{
    match request {
        ToolRequest::List { .. } => gate("tool list", "list external tools", "none", false, global),
        ToolRequest::Delete { .. } => gate("tool delete", "delete external tool", "deletes remote external tool", true, global),
    }
}

/// The planned step of a calendar request: the command's name, the action,
/// its risk, and whether it needs confirming.
pub open spec fn calendar_step(request: CalendarEventRequest) -> Step {
    match request {
        CalendarEventRequest::List { .. } => step("calendar list"@, "list calendar events"@, "none"@, false),
        CalendarEventRequest::Create { .. } => step("calendar create"@, "create calendar event"@, "creates remote calendar event"@, false),
        CalendarEventRequest::Update { .. } => step("calendar update"@, "update calendar event"@, "updates remote calendar event"@, false),
        CalendarEventRequest::Delete { .. } => step("calendar delete"@, "delete calendar event"@, "deletes remote calendar event"@, true),
    }
}

/// Whether a calendar request goes ahead: explained under `--explain`, refused
/// where it needs `--confirm` and lacks it.
pub fn calendar_gate(request: &CalendarEventRequest, global: &GlobalOptions) -> (r: Gate)
    ensures
        gate_is(calendar_step(*request), *global, r),
{
    match request {
        CalendarEventRequest::List { .. } => gate("calendar list", "list calendar events", "none", false, global),
        CalendarEventRequest::Create { .. } => gate("calendar create", "create calendar event", "creates remote calendar event", false, global),
        CalendarEventRequest::Update { .. } => gate("calendar update", "update calendar event", "updates remote calendar event", false, global),
        CalendarEventRequest::Delete { .. } => gate("calendar delete", "delete calendar event", "deletes remote calendar event", true, global),
    }
}

/// The planned step of a conference request: the command's name, the action,
/// its risk, and whether it needs confirming.
pub open spec fn conference_step(request: ConferenceRequest) -> Step {
    match request {
        ConferenceRequest::List { .. } => step("conference list"@, "list conferences"@, "low"@, false),
        ConferenceRequest::Create { .. } => step("conference create"@, "create conference"@, "creates remote conference"@, false),
        ConferenceRequest::Update { .. } => step("conference update"@, "update conference"@, "updates remote conference"@, false),
        ConferenceRequest::Delete { .. } => step("conference delete"@, "delete conference"@, "deletes remote conference"@, true),
    }
}

/// Whether a conference request goes ahead: explained under `--explain`, refused
/// where it needs `--confirm` and lacks it.
pub fn conference_gate(request: &ConferenceRequest, global: &GlobalOptions) -> (r: Gate)
    ensures
        gate_is(conference_step(*request), *global, r),
{
    match request {
        ConferenceRequest::List { .. } => gate("conference list", "list conferences", "low", false, global),
        ConferenceRequest::Create { .. } => gate("conference create", "create conference", "creates remote conference", false, global),
        ConferenceRequest::Update { .. } => gate("conference update", "update conference", "updates remote conference", false, global),
        ConferenceRequest::Delete { .. } => gate("conference delete", "delete conference", "deletes remote conference", true, global),
    }
}

/// The planned step of a collaboration request: the command's name, the action,
/// its risk, and whether it needs confirming.
pub open spec fn collaboration_step(request: CollaborationRequest) -> Step {
    match request {
        CollaborationRequest::List { .. } => step("collaboration list"@, "list collaborations"@, "none"@, false),
        CollaborationRequest::Delete { .. } => step("collaboration delete"@, "delete collaboration"@, "deletes remote collaboration"@, true),
    }
}

/// Whether a collaboration request goes ahead: explained under `--explain`, refused
/// where it needs `--confirm` and lacks it.
pub fn collaboration_gate(request: &CollaborationRequest, global: &GlobalOptions) -> (r: Gate)
    ensures
        gate_is(collaboration_step(*request), *global, r),
{
    match request {
        CollaborationRequest::List { .. } => gate("collaboration list", "list collaborations", "none", false, global),
        CollaborationRequest::Delete { .. } => gate("collaboration delete", "delete collaboration", "deletes remote collaboration", true, global),
    }
}

/// The planned step of a file request: the command's name, the action,
/// its risk, and whether it needs confirming.
pub open spec fn file_step(request: FileRequest) -> Step {
    match request {
        FileRequest::List { .. } => step("file list"@, "list files"@, "none"@, false),
        FileRequest::Delete { .. } => step("file delete"@, "delete file"@, "deletes remote file"@, true),
    }
}

/// Whether a file request goes ahead: explained under `--explain`, refused
/// where it needs `--confirm` and lacks it.
pub fn file_gate(request: &FileRequest, global: &GlobalOptions) -> (r: Gate)
    ensures
        gate_is(file_step(*request), *global, r),
{
    match request {
        FileRequest::List { .. } => gate("file list", "list files", "none", false, global),
        FileRequest::Delete { .. } => gate("file delete", "delete file", "deletes remote file", true, global),
    }
}

/// The planned step of a folder request: the command's name, the action,
/// its risk, and whether it needs confirming.
pub open spec fn folder_step(request: FolderRequest) -> Step {
    match request {
        FolderRequest::List { .. } => step("folder list"@, "list folders"@, "none"@, false),
        FolderRequest::Create { .. } => step("folder create"@, "create folder"@, "creates remote folder"@, false),
    }
}

/// Whether a folder request goes ahead: explained under `--explain`, refused
/// where it needs `--confirm` and lacks it.
pub fn folder_gate(request: &FolderRequest, global: &GlobalOptions) -> (r: Gate)
    ensures
        gate_is(folder_step(*request), *global, r),
{
    match request {
        FolderRequest::List { .. } => gate("folder list", "list folders", "none", false, global),
        FolderRequest::Create { .. } => gate("folder create", "create folder", "creates remote folder", false, global),
    }
}

/// The planned step of a content migration request: the command's name, the action,
/// its risk, and whether it needs confirming.
pub open spec fn content_migration_step(request: ContentMigrationRequest) -> Step {
    match request {
        ContentMigrationRequest::List { .. } => step("content-migration list"@, "list content migrations"@, "none"@, false),
        ContentMigrationRequest::Create { .. } => step("content-migration create"@, "create content migration"@, "imports remote content"@, false),
        ContentMigrationRequest::Show { .. } => step("content-migration show"@, "show content migration"@, "none"@, false),
    }
}

/// Whether a content migration request goes ahead: explained under `--explain`, refused
/// where it needs `--confirm` and lacks it.
pub fn content_migration_gate(request: &ContentMigrationRequest, global: &GlobalOptions) -> (r: Gate)
    ensures
        gate_is(content_migration_step(*request), *global, r),
{
    match request {
        ContentMigrationRequest::List { .. } => gate("content-migration list", "list content migrations", "none", false, global),
        ContentMigrationRequest::Create { .. } => gate("content-migration create", "create content migration", "imports remote content", false, global),
        ContentMigrationRequest::Show { .. } => gate("content-migration show", "show content migration", "none", false, global),
    }
}

/// The planned step of a announcement request: the command's name, the action,
/// its risk, and whether it needs confirming.
pub open spec fn announcement_step(request: PostRequest) -> Step {
    match request {
        PostRequest::List { .. } => step("announcement list"@, "list announcements"@, "none"@, false),
        PostRequest::Create { .. } => step("announcement create"@, "create announcement"@, "creates remote announcement"@, true),
    }
}

/// Whether a announcement request goes ahead: explained under `--explain`, refused
/// where it needs `--confirm` and lacks it.
pub fn announcement_gate(request: &PostRequest, global: &GlobalOptions) -> (r: Gate)
    ensures
        gate_is(announcement_step(*request), *global, r),
{
    match request {
        PostRequest::List { .. } => gate("announcement list", "list announcements", "none", false, global),
        PostRequest::Create { .. } => gate("announcement create", "create announcement", "creates remote announcement", true, global),
    }
}

/// The planned step of a discussion request: the command's name, the action,
/// its risk, and whether it needs confirming.
pub open spec fn discussion_step(request: PostRequest) -> Step {
    match request {
        PostRequest::List { .. } => step("discussion list"@, "list discussions"@, "none"@, false),
        PostRequest::Create { .. } => step("discussion create"@, "create discussion"@, "creates remote discussion"@, false),
    }
}

/// Whether a discussion request goes ahead: explained under `--explain`, refused
/// where it needs `--confirm` and lacks it.
pub fn discussion_gate(request: &PostRequest, global: &GlobalOptions) -> (r: Gate)
    ensures
        gate_is(discussion_step(*request), *global, r),
{
    match request {
        PostRequest::List { .. } => gate("discussion list", "list discussions", "none", false, global),
        PostRequest::Create { .. } => gate("discussion create", "create discussion", "creates remote discussion", false, global),
    }
}

/// The planned step of a group request: the command's name, the action,
/// its risk, and whether it needs confirming.
pub open spec fn group_step(request: GroupRequest) -> Step {
    match request {
        GroupRequest::List { .. } => step("group list"@, "list groups"@, "none"@, false),
        GroupRequest::Create { .. } => step("group create"@, "create group"@, "creates remote group"@, false),
    }
}

/// Whether a group request goes ahead: explained under `--explain`, refused
/// where it needs `--confirm` and lacks it.
pub fn group_gate(request: &GroupRequest, global: &GlobalOptions) -> (r: Gate)
    ensures
        gate_is(group_step(*request), *global, r),
{
    match request {
        GroupRequest::List { .. } => gate("group list", "list groups", "none", false, global),
        GroupRequest::Create { .. } => gate("group create", "create group", "creates remote group", false, global),
    }
}

/// The planned step of a section request: the command's name, the action,
/// its risk, and whether it needs confirming.
pub open spec fn section_step(request: SectionRequest) -> Step {
    match request {
        SectionRequest::List { .. } => step("section list"@, "list sections"@, "none"@, false),
        SectionRequest::Create { .. } => step("section create"@, "create section"@, "creates remote section"@, false),
        SectionRequest::Update { .. } => step("section update"@, "update section"@, "updates remote section"@, false),
        SectionRequest::Delete { .. } => step("section delete"@, "delete section"@, "deletes remote section"@, true),
    }
}

/// Whether a section request goes ahead: explained under `--explain`, refused
/// where it needs `--confirm` and lacks it.
pub fn section_gate(request: &SectionRequest, global: &GlobalOptions) -> (r: Gate)
    ensures
        gate_is(section_step(*request), *global, r),
{
    match request {
        SectionRequest::List { .. } => gate("section list", "list sections", "none", false, global),
        SectionRequest::Create { .. } => gate("section create", "create section", "creates remote section", false, global),
        SectionRequest::Update { .. } => gate("section update", "update section", "updates remote section", false, global),
        SectionRequest::Delete { .. } => gate("section delete", "delete section", "deletes remote section", true, global),
    }
}

/// The planned step of a enrollment request: the command's name, the action,
/// its risk, and whether it needs confirming.
pub open spec fn enrollment_step(request: EnrollmentRequest) -> Step {
    match request {
        EnrollmentRequest::List { .. } => step("enrollment list"@, "list enrollments"@, "none"@, false),
        EnrollmentRequest::Add { .. } => step("enrollment add"@, "add enrollment"@, "creates remote enrollment"@, false),
        EnrollmentRequest::Remove { .. } => step("enrollment remove"@, "remove enrollment"@, "deletes remote enrollment"@, true),
    }
}

/// Whether a enrollment request goes ahead: explained under `--explain`, refused
/// where it needs `--confirm` and lacks it.
pub fn enrollment_gate(request: &EnrollmentRequest, global: &GlobalOptions) -> (r: Gate)
    ensures
        gate_is(enrollment_step(*request), *global, r),
{
    match request {
        EnrollmentRequest::List { .. } => gate("enrollment list", "list enrollments", "none", false, global),
        EnrollmentRequest::Add { .. } => gate("enrollment add", "add enrollment", "creates remote enrollment", false, global),
        EnrollmentRequest::Remove { .. } => gate("enrollment remove", "remove enrollment", "deletes remote enrollment", true, global),
    }
}

/// The planned step of a report request: the command's name, the action,
/// its risk, and whether it needs confirming.
pub open spec fn report_step(request: ReportRequest) -> Step {
    match request {
        ReportRequest::GradebookExport(..) => step("report gradebook-export"@, "request and download report"@, "reads report data"@, false),
        ReportRequest::SubmissionStatus(..) => step("report submission-status"@, "request and download report"@, "reads report data"@, false),
        ReportRequest::CourseActivitySummary { .. } => step("report course-activity"@, "fetch course activity summary"@, "none"@, false),
        ReportRequest::GradeChangeLog(..) => step("report grade-change-log"@, "request and download report"@, "reads report data"@, false),
    }
}

/// The planned step of a gradebook request: the command's name, the action,
/// its risk, and whether it needs confirming.
pub open spec fn gradebook_step(request: GradebookRequest) -> Step {
    match request {
        GradebookRequest::GradingPeriodList { .. } => step("gradebook grading-period list"@, "list grading periods"@, "none"@, false),
        GradebookRequest::GradingPeriodShow { .. } => step("gradebook grading-period show"@, "show grading period"@, "none"@, false),
        GradebookRequest::PostingPolicyGet { .. } => step("gradebook posting-policy get"@, "get posting policy"@, "none"@, false),
        GradebookRequest::PostingPolicySet { .. } => step("gradebook posting-policy set"@, "update posting policy"@, "updates gradebook posting policy"@, true),
    }
}

/// Whether a gradebook request goes ahead: explained under `--explain`, refused
/// where it needs `--confirm` and lacks it.
pub fn gradebook_gate(request: &GradebookRequest, global: &GlobalOptions) -> (r: Gate)
    ensures
        gate_is(gradebook_step(*request), *global, r),
{
    match request {
        GradebookRequest::GradingPeriodList { .. } => gate("gradebook grading-period list", "list grading periods", "none", false, global),
        GradebookRequest::GradingPeriodShow { .. } => gate("gradebook grading-period show", "show grading period", "none", false, global),
        GradebookRequest::PostingPolicyGet { .. } => gate("gradebook posting-policy get", "get posting policy", "none", false, global),
        GradebookRequest::PostingPolicySet { .. } => gate("gradebook posting-policy set", "update posting policy", "updates gradebook posting policy", true, global),
    }
}

/// Whether a report export asks for a table under `--json` output.
pub open spec fn csv_under_json(request: ReportRequest, g: GlobalOptions) -> bool {
    g.json && match request {
        ReportRequest::GradebookExport(x) => x.format == ReportFormat::Csv,
        ReportRequest::SubmissionStatus(x) => x.format == ReportFormat::Csv,
        ReportRequest::GradeChangeLog(x) => x.format == ReportFormat::Csv,
        ReportRequest::CourseActivitySummary { .. } => false,
    }
}

/// Whether a report request goes ahead: explained under `--explain`; else an
/// export that would write a table into `--json` output is refused.
pub fn report_gate(request: &ReportRequest, global: &GlobalOptions) -> (r: Gate)
    ensures
        if !global.explain && csv_under_json(*request, *global) {
            r matches Gate::Refuse(e) && (e matches CliError::InvalidReportFormat(s) && s@
                == "json_output_with_csv"@)
        } else {
            gate_is(report_step(*request), *global, r)
        },
{
    let csv = match request {
        ReportRequest::GradebookExport(x) => x.format == ReportFormat::Csv,
        ReportRequest::SubmissionStatus(x) => x.format == ReportFormat::Csv,
        ReportRequest::GradeChangeLog(x) => x.format == ReportFormat::Csv,
        ReportRequest::CourseActivitySummary { .. } => false,
    };
    if !global.explain && global.json && csv {
        proof {
            reveal_strlit("json_output_with_csv");
        }
        return Gate::Refuse(CliError::InvalidReportFormat(to_owned_string("json_output_with_csv")));
    }
    match request {
        ReportRequest::GradebookExport(..) => gate(
            "report gradebook-export",
            "request and download report",
            "reads report data",
            false,
            global,
        ),
        ReportRequest::SubmissionStatus(..) => gate(
            "report submission-status",
            "request and download report",
            "reads report data",
            false,
            global,
        ),
        ReportRequest::CourseActivitySummary { .. } => gate(
            "report course-activity",
            "fetch course activity summary",
            "none",
            false,
            global,
        ),
        ReportRequest::GradeChangeLog(..) => gate(
            "report grade-change-log",
            "request and download report",
            "reads report data",
            false,
            global,
        ),
    }
}

} // verus!
