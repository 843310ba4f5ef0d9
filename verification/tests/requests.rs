use canvas_core::cli::GlobalOptions;
use canvas_core::errors::{CanvasError, CliError};
use canvas_core::ids::CourseId;
use canvas_core::kinds::{GradingPostingPolicy, UserRole};
use canvas_core::kinds::CourseVisibility;
use canvas_core::requests::{
    course_request, CourseCommand, CourseRequest, folder_request, gradebook_request, group_request, message_request, post_request,
    user_list_request, FolderCommand, FolderRequest, GradebookCommand, GradebookRequest,
    GroupCommand, GroupRequest, MessageCommand, PostCommand, PostRequest, quiz_submission_request,
    QuizSubmissionCommand, QuizSubmissionRequest, file_request, FileCommand, FileRequest,
};

fn global(course: Option<u64>) -> GlobalOptions {
    let course = course.map(|c| CourseId::parse(&c.to_string()).expect("course"));
    GlobalOptions { course, json: false, quiet: false, confirm: false, explain: false }
}

fn message(course: Option<&str>, users: &[&str], role: Option<&str>) -> MessageCommand {
    MessageCommand {
        course: course.map(|c| c.to_string()),
        subject: " Hello ".to_string(),
        body: "Body".to_string(),
        user_ids: users.iter().map(|u| u.to_string()).collect(),
        role: role.map(|r| r.to_string()),
    }
}

#[test]
fn folders_need_a_name_and_a_valid_parent() {
    match folder_request(
        FolderCommand::Create {
            course: None,
            name: " Notes ".to_string(),
            parent_folder: Some("12".to_string()),
        },
        &global(Some(2)),
    ) {
        Ok(FolderRequest::Create { course_id, name, parent_folder_id }) => {
            assert_eq!(course_id.get(), 2);
            assert_eq!(name.as_str(), "Notes");
            assert_eq!(parent_folder_id.expect("parent").get(), 12);
        }
        _ => panic!("expected create"),
    }
    assert!(matches!(
        folder_request(
            FolderCommand::Create { course: None, name: "A".to_string(), parent_folder: Some("x".to_string()) },
            &global(Some(2)),
        ),
        Err(CliError::Canvas(CanvasError::InvalidFolderId(s))) if s == "x"
    ));
}

#[test]
fn posts_keep_title_and_message() {
    let posted = post_request(
        PostCommand::Create { course: Some("5".to_string()), title: "T".to_string(), message: "M".to_string() },
        &global(None),
    );
    match posted {
        Ok(PostRequest::Create { course_id, title, message }) => {
            assert_eq!(course_id.get(), 5);
            assert_eq!(title, "T");
            assert_eq!(message, "M");
        }
        _ => panic!("expected create"),
    }
    assert!(matches!(
        post_request(PostCommand::List { course: None }, &global(None)),
        Err(CliError::MissingCourseId)
    ));
}

#[test]
fn user_lists_filter_by_role() {
    let req = user_list_request(None, Some("Teacher".to_string()), &global(Some(8))).expect("users");
    assert_eq!(req.course_id.get(), 8);
    assert_eq!(req.role, Some(UserRole::Teacher));
    assert!(matches!(
        user_list_request(None, Some("dean".to_string()), &global(Some(8))),
        Err(CliError::Canvas(CanvasError::InvalidUserRole(s))) if s == "dean"
    ));
}

#[test]
fn messages_need_recipients() {
    let sent = message_request(message(None, &["3", "4"], None), &global(None)).expect("message");
    assert_eq!(sent.subject.as_str(), "Hello");
    let ids: Vec<u64> = sent.user_ids.iter().map(|u| u.get()).collect();
    assert_eq!(ids, vec![3, 4]);
    assert!(matches!(
        message_request(message(None, &[], None), &global(None)),
        Err(CliError::Canvas(CanvasError::InvalidRecipients(s))) if s == "empty"
    ));
    assert!(matches!(
        message_request(message(None, &[], Some("student")), &global(None)),
        Err(CliError::MissingCourseId)
    ));
    let to_role = message_request(message(Some("6"), &[], Some("student")), &global(None))
        .expect("role message");
    assert_eq!(to_role.role, Some(UserRole::Student));
    assert!(matches!(
        message_request(message(None, &["3", "zz", "0"], None), &global(None)),
        Err(CliError::Canvas(CanvasError::InvalidUserId(s))) if s == "zz"
    ));
}

#[test]
fn groups_need_a_name() {
    match group_request(GroupCommand::Create { course: None, name: "Team".to_string() }, &global(Some(1))) {
        Ok(GroupRequest::Create { course_id, name }) => {
            assert_eq!(course_id.get(), 1);
            assert_eq!(name.as_str(), "Team");
        }
        _ => panic!("expected create"),
    }
    assert!(matches!(
        group_request(GroupCommand::Create { course: None, name: " ".to_string() }, &global(Some(1))),
        Err(CliError::Canvas(CanvasError::InvalidGroupName(s))) if s == " "
    ));
}

#[test]
fn gradebook_commands_become_requests() {
    assert_eq!(
        gradebook_request(
            GradebookCommand::PostingPolicySet { course: None, policy: "manual".to_string() },
            &global(Some(4)),
        )
        .map(|r| matches!(r, GradebookRequest::PostingPolicySet { policy: GradingPostingPolicy::Manual, .. })),
        Ok(true)
    );
    assert!(matches!(
        gradebook_request(
            GradebookCommand::GradingPeriodShow { course: None, period: "0".to_string() },
            &global(Some(4)),
        ),
        Err(CliError::Canvas(CanvasError::InvalidGradingPeriodId(s))) if s == "0"
    ));
}

#[test]
fn course_updates_need_a_change() {
    let update = |start: Option<&str>, end: Option<&str>, visibility: Option<&str>| CourseCommand::Update {
        course: None,
        start: start.map(|s| s.to_string()),
        end: end.map(|s| s.to_string()),
        visibility: visibility.map(|s| s.to_string()),
        grading_scheme_id: None,
    };
    match course_request(update(None, None, Some("institution")), &global(Some(9))) {
        Ok(CourseRequest::Update { course_id, settings }) => {
            assert_eq!(course_id.get(), 9);
            assert_eq!(settings.visibility, Some(CourseVisibility::Institution));
            assert!(settings.dates.is_none());
        }
        _ => panic!("expected update"),
    }
    assert!(matches!(
        course_request(update(None, None, None), &global(Some(9))),
        Err(CliError::Canvas(CanvasError::InvalidCourseUpdate(s))) if s == "no_fields"
    ));
    assert!(matches!(
        course_request(
            update(Some("2025-02-01T00:00:00Z"), Some("2025-01-01T00:00:00Z"), None),
            &global(Some(9)),
        ),
        Err(CliError::Canvas(CanvasError::InvalidCourseDates(s))) if s == "start_after_end"
    ));
    assert!(matches!(
        course_request(CourseCommand::SetDefault { course: "abc".to_string() }, &global(Some(9))),
        Err(CliError::Canvas(CanvasError::InvalidCourseId(s))) if s == "abc"
    ));
    assert!(matches!(course_request(CourseCommand::List, &global(None)), Ok(CourseRequest::List)));
}

#[test]
fn quiz_submission_grade_keeps_score_text() {
    let grade = QuizSubmissionCommand::Grade {
        course: None,
        quiz: "11".to_string(),
        submission: "22".to_string(),
        score: "8.5".to_string(),
    };
    match quiz_submission_request(grade, &global(Some(4))) {
        Ok(QuizSubmissionRequest::Grade { course_id, quiz_id, submission_id, score }) => {
            assert_eq!(course_id.get(), 4);
            assert_eq!(quiz_id.get(), 11);
            assert_eq!(submission_id.get(), 22);
            assert_eq!(score, "8.5");
        }
        _ => panic!("expected grade"),
    }
    let bad_submission = QuizSubmissionCommand::Grade {
        course: None,
        quiz: "11".to_string(),
        submission: "-1".to_string(),
        score: "1".to_string(),
    };
    assert!(matches!(
        quiz_submission_request(bad_submission, &global(Some(4))),
        Err(CliError::Canvas(CanvasError::InvalidQuizSubmissionId(s))) if s == "-1"
    ));
    let bad_quiz = QuizSubmissionCommand::List { course: None, quiz: "q".to_string() };
    assert!(matches!(
        quiz_submission_request(bad_quiz, &global(Some(4))),
        Err(CliError::Canvas(CanvasError::InvalidQuizId(s))) if s == "q"
    ));
}

#[test]
fn file_list_reads_optional_folder() {
    let list = FileCommand::List { course: None, folder: Some(" 31 ".to_string()) };
    match file_request(list, &global(Some(2))) {
        Ok(FileRequest::List { course_id, folder_id }) => {
            assert_eq!(course_id.get(), 2);
            assert_eq!(folder_id.map(|f| f.get()), Some(31));
        }
        _ => panic!("expected list"),
    }
    let bad = FileCommand::List { course: None, folder: Some("root".to_string()) };
    assert!(matches!(
        file_request(bad, &global(Some(2))),
        Err(CliError::Canvas(CanvasError::InvalidFolderId(s))) if s == "root"
    ));
    let delete = FileCommand::Delete { file: "0".to_string() };
    assert!(matches!(
        file_request(delete, &global(None)),
        Err(CliError::Canvas(CanvasError::InvalidFileId(s))) if s == "0"
    ));
    let delete = FileCommand::Delete { file: "44".to_string() };
    assert!(matches!(file_request(delete, &global(None)), Ok(FileRequest::Delete { file_id }) if file_id.get() == 44));
}
