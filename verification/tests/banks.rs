use canvas_core::banks::{
    bank_title, question_bank_request, BankDocument, QuestionBankCommand, QuestionBankRequest,
};
use canvas_core::cli::GlobalOptions;
use canvas_core::errors::{CanvasError, CliError};
use canvas_core::ids::CourseId;

fn global(course: Option<u64>) -> GlobalOptions {
    let course = course.map(|c| CourseId::parse(&c.to_string()).expect("course"));
    GlobalOptions { course, json: false, quiet: false, confirm: false, explain: false }
}

fn multiple(r: &Result<Option<String>, CliError>) -> bool {
    matches!(r, Err(CliError::Canvas(CanvasError::InvalidQuestionBankJson(d))) if d == "multiple_sources")
}

#[test]
fn bank_title_takes_one_source() {
    assert_eq!(bank_title(Some("Unit 1".to_string()), BankDocument::Absent).ok(), Some(Some("Unit 1".to_string())));
    assert_eq!(
        bank_title(None, BankDocument::Read(Ok(Some("Doc".to_string())))).ok(),
        Some(Some("Doc".to_string()))
    );
    assert!(multiple(&bank_title(Some("x".to_string()), BankDocument::Read(Ok(None)))));
    assert!(multiple(&bank_title(None, BankDocument::Conflicting)));
    assert!(multiple(&bank_title(
        Some("x".to_string()),
        BankDocument::Unreadable("a.json".to_string(), "missing".to_string())
    )));
    assert!(matches!(
        bank_title(None, BankDocument::Unreadable("a.json".to_string(), "missing".to_string())),
        Err(CliError::FileRead(p, m)) if p == "a.json" && m == "missing"
    ));
    assert!(matches!(
        bank_title(None, BankDocument::Read(Err("expected value".to_string()))),
        Err(CliError::Canvas(CanvasError::InvalidQuestionBankJson(m))) if m == "expected value"
    ));
}

#[test]
fn bank_create_and_update_read_title() {
    let create = QuestionBankCommand::Create {
        course: None,
        title: None,
        document: BankDocument::Read(Ok(Some("  Midterm  ".to_string()))),
    };
    match question_bank_request(create, &global(Some(5))) {
        Ok(QuestionBankRequest::Create { course_id, input }) => {
            assert_eq!(course_id.get(), 5);
            assert_eq!(input.title.as_str(), "Midterm");
        },
        other => panic!("unexpected {:?}", other),
    }
    let missing = QuestionBankCommand::Create { course: None, title: None, document: BankDocument::Absent };
    assert!(matches!(
        question_bank_request(missing, &global(Some(5))),
        Err(CliError::Canvas(CanvasError::InvalidQuestionBankTitle(d))) if d == "missing"
    ));
    let nothing = QuestionBankCommand::Update {
        course: None,
        bank: "8".to_string(),
        title: None,
        document: BankDocument::Read(Ok(None)),
    };
    assert!(matches!(
        question_bank_request(nothing, &global(Some(5))),
        Err(CliError::Canvas(CanvasError::InvalidQuestionBankUpdate(d))) if d == "no_fields"
    ));
    let bad_bank = QuestionBankCommand::Update {
        course: None,
        bank: "x".to_string(),
        title: Some("T".to_string()),
        document: BankDocument::Conflicting,
    };
    assert!(matches!(
        question_bank_request(bad_bank, &global(Some(5))),
        Err(CliError::Canvas(CanvasError::InvalidQuestionBankId(d))) if d == "x"
    ));
    let rename = QuestionBankCommand::Update {
        course: Some("6".to_string()),
        bank: "8".to_string(),
        title: Some("Final".to_string()),
        document: BankDocument::Absent,
    };
    match question_bank_request(rename, &global(None)) {
        Ok(QuestionBankRequest::Update { course_id, bank_id, input }) => {
            assert_eq!((course_id.get(), bank_id.get()), (6, 8));
            assert_eq!(input.title.expect("title").as_str(), "Final");
        },
        other => panic!("unexpected {:?}", other),
    }
    let delete = QuestionBankCommand::Delete { course: None, bank: "8".to_string() };
    assert!(matches!(question_bank_request(delete, &global(None)), Err(CliError::MissingCourseId)));
}
