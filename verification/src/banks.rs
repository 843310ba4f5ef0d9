//! Question bank commands: where a bank's title comes from, and the typed
//! requests that the commands stand for.

use crate::cli::{course_choice, course_for, course_refusal, GlobalOptions};
use crate::errors::{CanvasError, CliError};
use crate::ids::{CourseId, QuestionBankId};
use crate::parse::parse_question_bank_id;
use crate::resources::{QuestionBankCreateInput, QuestionBankUpdateInput};
use crate::text::{positive_id_spec, to_owned_string, trim};
use vstd::prelude::*;

verus! {

/// A question bank's JSON document, given as a text or as a file, as the
/// caller read it: the document's `title` member is all that a bank takes
/// from it.
#[derive(Debug)]
pub enum BankDocument {
    /// Neither the text nor a file was given.
    Absent,
    /// Both the text and a file were given.
    Conflicting,
    /// The file could not be read: its path and the reason.
    Unreadable(String, String),
    /// The document's `title` member, where present; or, where the text is
    /// not a JSON object of that shape, the parser's message.
    Read(Result<Option<String>, String>),
}

/// A question bank command as given on the command line, unvalidated.
#[derive(Debug)]
pub enum QuestionBankCommand {
    List { course: Option<String> },
    Create { course: Option<String>, title: Option<String>, document: BankDocument },
    Update { course: Option<String>, bank: String, title: Option<String>, document: BankDocument },
    Delete { course: Option<String>, bank: String },
}

/// A validated question bank command.
#[derive(Debug)]
pub enum QuestionBankRequest {
    List { course_id: CourseId },
    Create { course_id: CourseId, input: QuestionBankCreateInput },
    Update { course_id: CourseId, bank_id: QuestionBankId, input: QuestionBankUpdateInput },
    Delete { course_id: CourseId, bank_id: QuestionBankId },
}

/// The title field of a bank command: the flag where no document is given,
/// else the document's `title` member; `None` where the sources are refused.
pub open spec fn bank_title_spec(title: Option<String>, document: BankDocument) -> Option<
    Option<String>,
> {
    match document {
        BankDocument::Absent => Some(title),
        BankDocument::Read(Ok(t)) => if title is Some {
            None
        } else {
            Some(t)
        },
        _ => None,
    }
}

/// Whether `e` is the error for more than one source of a bank's fields.
pub open spec fn multiple_bank_sources(e: CliError) -> bool {
    e matches CliError::Canvas(CanvasError::InvalidQuestionBankJson(s)) && s@ == "multiple_sources"@
}

/// Whether `e` is the error for the title sources of a bank command: more
/// than one source, an unreadable file, or a document that is not JSON.
pub open spec fn bank_title_refused(title: Option<String>, document: BankDocument, e: CliError) -> bool {
    match document {
        BankDocument::Absent => false,
        BankDocument::Conflicting => multiple_bank_sources(e),
        BankDocument::Unreadable(p, m) => if title is Some {
            multiple_bank_sources(e)
        } else {
            e matches CliError::FileRead(a, b) && a@ == p@ && b@ == m@
        },
        BankDocument::Read(x) => if title is Some {
            multiple_bank_sources(e)
        } else {
            match x {
                Ok(_) => false,
                Err(m) => e matches CliError::Canvas(CanvasError::InvalidQuestionBankJson(s)) && s@
                    == m@,
            }
        },
    }
}

/// The title field of a bank command: at most one of the flag, the JSON
/// text and the JSON file may be given.
pub fn bank_title(title: Option<String>, document: BankDocument) -> (r: Result<
    Option<String>,
    CliError,
>)
    ensures
        match r {
            Ok(t) => bank_title_spec(title, document) == Some(t),
            Err(e) => bank_title_spec(title, document) is None && bank_title_refused(
                title,
                document,
                e,
            ),
        },
{
    match document {
        BankDocument::Absent => Ok(title),
        BankDocument::Conflicting => Err(multiple_sources()),
        BankDocument::Unreadable(p, m) => {
            if title.is_some() {
                return Err(multiple_sources());
            }
            Err(CliError::FileRead(p, m))
        },
        BankDocument::Read(x) => {
            if title.is_some() {
                return Err(multiple_sources());
            }
            match x {
                Ok(t) => Ok(t),
                Err(m) => Err(CliError::Canvas(CanvasError::InvalidQuestionBankJson(m))),
            }
        },
    }
}

fn multiple_sources() -> (e: CliError)
    ensures
        multiple_bank_sources(e),
{
    CliError::Canvas(CanvasError::InvalidQuestionBankJson(to_owned_string("multiple_sources")))
}

/// Whether `e` is the error for the title field `t` of a new bank.
pub open spec fn create_title_refused(t: Option<String>, e: CliError) -> bool {
    match t {
        None => e matches CliError::Canvas(CanvasError::InvalidQuestionBankTitle(s)) && s@
            == "missing"@,
        Some(x) => trim(x@).len() == 0 && (e matches CliError::Canvas(
            CanvasError::InvalidQuestionBankTitle(s),
        ) && s@ == x@),
    }
}

/// Whether `e` is the error for the title field `t` of a bank change.
pub open spec fn update_title_refused(t: Option<String>, e: CliError) -> bool {
    match t {
        None => e matches CliError::Canvas(CanvasError::InvalidQuestionBankUpdate(s)) && s@
            == "no_fields"@,
        Some(x) => trim(x@).len() == 0 && (e matches CliError::Canvas(
            CanvasError::InvalidQuestionBankTitle(s),
        ) && s@ == x@),
    }
}

/// Whether `r` is what the question bank command `command` stands for: the
/// course first, then the bank, then the title.
pub open spec fn question_bank_outcome(
    command: QuestionBankCommand,
    default: Option<CourseId>,
    r: Result<QuestionBankRequest, CliError>,
) -> bool {
    match command {
        QuestionBankCommand::List { course } => match r {
            Ok(req) => req matches QuestionBankRequest::List { course_id }
                && course_choice(course, default) == Some(course_id@),
            Err(e) => course_choice(course, default) is None && course_refusal(course, e),
        },
        QuestionBankCommand::Create { course, title, document } => match r {
            Ok(req) => req matches QuestionBankRequest::Create { course_id, input }
                && course_choice(course, default) == Some(course_id@) && (bank_title_spec(
                title,
                document,
            ) matches Some(Some(t)) && trim(t@).len() > 0 && input.title@ == trim(t@)),
            Err(e) => if course_choice(course, default) is None {
                course_refusal(course, e)
            } else {
                match bank_title_spec(title, document) {
                    None => bank_title_refused(title, document, e),
                    Some(t) => create_title_refused(t, e),
                }
            },
        },
        QuestionBankCommand::Update { course, bank, title, document } => match r {
            Ok(req) => req matches QuestionBankRequest::Update { course_id, bank_id, input }
                && course_choice(course, default) == Some(course_id@) && positive_id_spec(bank@)
                == Some(bank_id@) && (bank_title_spec(title, document) matches Some(Some(t))
                && trim(t@).len() > 0 && (input.title matches Some(x) && x@ == trim(t@))),
            Err(e) => if course_choice(course, default) is None {
                course_refusal(course, e)
            } else if positive_id_spec(bank@) is None {
                e matches CliError::Canvas(CanvasError::InvalidQuestionBankId(s)) && s@ == bank@
            } else {
                match bank_title_spec(title, document) {
                    None => bank_title_refused(title, document, e),
                    Some(t) => update_title_refused(t, e),
                }
            },
        },
        QuestionBankCommand::Delete { course, bank } => match r {
            Ok(req) => req matches QuestionBankRequest::Delete { course_id, bank_id }
                && course_choice(course, default) == Some(course_id@) && positive_id_spec(bank@)
                == Some(bank_id@),
            Err(e) => if course_choice(course, default) is None {
                course_refusal(course, e)
            } else {
                positive_id_spec(bank@) is None && (e matches CliError::Canvas(
                    CanvasError::InvalidQuestionBankId(s),
                ) && s@ == bank@)
            },
        },
    }
}

fn read_bank_id(bank: String) -> (r: Result<QuestionBankId, CliError>)
    ensures
        match r {
            Ok(b) => positive_id_spec(bank@) == Some(b@),
            Err(e) => positive_id_spec(bank@) is None && (e matches CliError::Canvas(
                CanvasError::InvalidQuestionBankId(s),
            ) && s@ == bank@),
        },
{
    match parse_question_bank_id(bank.as_str()) {
        Ok(b) => Ok(b),
        Err(e) => Err(CliError::Canvas(e)),
    }
}

/// The validated request that a question bank command stands for.
pub fn question_bank_request(command: QuestionBankCommand, global: &GlobalOptions) -> (r: Result<
    QuestionBankRequest,
    CliError,
>)
    ensures
        question_bank_outcome(command, global.course, r),
{
    match command {
        QuestionBankCommand::List { course } => {
            let course_id = course_for(course, global)?;
            Ok(QuestionBankRequest::List { course_id })
        },
        QuestionBankCommand::Create { course, title, document } => {
            let course_id = course_for(course, global)?;
            let title = bank_title(title, document)?;
            match QuestionBankCreateInput::from_title_field(title) {
                Ok(input) => Ok(QuestionBankRequest::Create { course_id, input }),
                Err(e) => Err(CliError::Canvas(e)),
            }
        },
        QuestionBankCommand::Update { course, bank, title, document } => {
            let course_id = course_for(course, global)?;
            let bank_id = read_bank_id(bank)?;
            let title = bank_title(title, document)?;
            match QuestionBankUpdateInput::from_title_field(title) {
                Ok(input) => Ok(QuestionBankRequest::Update { course_id, bank_id, input }),
                Err(e) => Err(CliError::Canvas(e)),
            }
        },
        QuestionBankCommand::Delete { course, bank } => {
            let course_id = course_for(course, global)?;
            let bank_id = read_bank_id(bank)?;
            Ok(QuestionBankRequest::Delete { course_id, bank_id })
        },
    }
}

} // verus!
