//! Closed vocabularies of the Canvas API: roles, question types, publish
//! states and the like. Each parses case-insensitively from trimmed text,
//! accepting the aliases listed in its `..._named` function, and prints the
//! spelling Canvas expects.

use crate::text::{
    lemma_keyword_normal, lemma_keyword_upper_normal, lower, str_eq, to_ascii_lower, trim,
    trim_str, upper,
};
use vstd::prelude::*;

verus! {

/// A user role.
#[derive(Debug, Clone, Copy, PartialEq, Eq, Hash, Structural)]
pub enum UserRole {
    Student,
    Ta,
    Teacher,
}

/// Why text is not a user role.
#[derive(Debug, Clone, Copy, PartialEq, Eq, Structural)]
pub enum UserRoleParseError {
    Invalid,
}

impl UserRoleParseError {
    /// The error's message.
    pub fn message(&self) -> (r: &'static str)
        ensures
            r@ == "user role must be student, ta, or teacher"@,
    {
        "user role must be student, ta, or teacher"
    }
}

/// The user role that a lower-case, trimmed text names, if any.
pub open spec fn user_role_named(s: Seq<char>) -> Option<UserRole> {
    if s == "student"@ || s == "students"@ {
        Some(UserRole::Student)
    } else if s == "ta"@ || s == "tas"@ || s == "teachingassistant"@ || s == "teaching_assistant"@ {
        Some(UserRole::Ta)
    } else if s == "teacher"@ || s == "teachers"@ {
        Some(UserRole::Teacher)
    } else {
        None
    }
}

impl UserRole {
    /// The text of the user role as Canvas spells it.
    pub open spec fn text(self) -> Seq<char> {
        match self {
            UserRole::Student => "student"@,
            UserRole::Ta => "ta"@,
            UserRole::Teacher => "teacher"@,
        }
    }

    /// The text of the user role as Canvas spells it.
    pub fn as_str(&self) -> (r: &'static str)
        ensures
            r@ == self.text(),
    {
        match self {
            UserRole::Student => "student",
            UserRole::Ta => "ta",
            UserRole::Teacher => "teacher",
        }
    }

    /// Parses a user role, ignoring surrounding whitespace and ASCII case.
    pub fn parse(raw: &str) -> (r: Result<Self, UserRoleParseError>)
        ensures
            match r {
                Ok(v) => user_role_named(lower(trim(raw@))) == Some(v),
                Err(_) => user_role_named(lower(trim(raw@))) is None,
            },
    {
        let lowered = to_ascii_lower(trim_str(raw));
        let key = lowered.as_str();
        if str_eq(key, "student") || str_eq(key, "students") {
            Ok(UserRole::Student)
        } else if str_eq(key, "ta") || str_eq(key, "tas") || str_eq(key, "teachingassistant") || str_eq(key, "teaching_assistant") {
            Ok(UserRole::Ta)
        } else if str_eq(key, "teacher") || str_eq(key, "teachers") {
            Ok(UserRole::Teacher)
        } else {
            Err(UserRoleParseError::Invalid)
        }
    }
}

impl core::str::FromStr for UserRole {
    type Err = UserRoleParseError;

    fn from_str(raw: &str) -> (r: Result<Self, Self::Err>)
        ensures
            match r {
                Ok(v) => user_role_named(lower(trim(raw@))) == Some(v),
                Err(_) => user_role_named(lower(trim(raw@))) is None,
            },
    {
        Self::parse(raw)
    }
}

/// Each user role's text parses back to that user role.
pub proof fn lemma_user_role_roundtrip(v: UserRole)
    ensures
        user_role_named(lower(trim(v.text()))) == Some(v),
{
    reveal_strlit("student");
    reveal_strlit("students");
    reveal_strlit("ta");
    reveal_strlit("tas");
    reveal_strlit("teachingassistant");
    reveal_strlit("teaching_assistant");
    reveal_strlit("teacher");
    reveal_strlit("teachers");
    lemma_keyword_normal(v.text());
    match v {
        UserRole::Student => {}
        UserRole::Ta => {
            assert("ta"@ != "student"@);
            assert("ta"@ != "students"@);
        }
        UserRole::Teacher => {
            assert("teacher"@ != "student"@);
            assert("teacher"@ != "students"@);
            assert("teacher"@ != "ta"@);
            assert("teacher"@ != "tas"@);
            assert("teacher"@ != "teachingassistant"@);
            assert("teacher"@ != "teaching_assistant"@);
        }
    }
}

/// A question type.
#[derive(Debug, Clone, Copy, PartialEq, Eq, Hash, Structural)]
pub enum QuestionType {
    MultipleChoice,
    MultipleAnswers,
    TrueFalse,
    Essay,
    ShortAnswer,
    Matching,
    FillInMultipleBlanks,
    MultipleDropdowns,
    Numerical,
    Calculated,
    FileUpload,
    TextOnly,
}

/// Why text is not a question type.
#[derive(Debug, Clone, Copy, PartialEq, Eq, Structural)]
pub enum QuestionTypeParseError {
    Invalid,
}

impl QuestionTypeParseError {
    /// The error's message.
    pub fn message(&self) -> (r: &'static str)
        ensures
            r@ == "question type must be multiple_choice, multiple_answers, true_false, essay, short_answer, matching, fill_in_multiple_blanks, multiple_dropdowns, numerical, calculated, file_upload, or text_only"@,
    {
        "question type must be multiple_choice, multiple_answers, true_false, essay, short_answer, matching, fill_in_multiple_blanks, multiple_dropdowns, numerical, calculated, file_upload, or text_only"
    }
}

/// The question type that a lower-case, trimmed text names, if any.
pub open spec fn question_type_named(s: Seq<char>) -> Option<QuestionType> {
    if s == "mcq"@ || s == "multiple_choice"@ || s == "multiple-choice"@ || s == "multiple_choice_question"@ {
        Some(QuestionType::MultipleChoice)
    } else if s == "multiple_answers"@ || s == "multiple-answers"@ || s == "multiple_answers_question"@ {
        Some(QuestionType::MultipleAnswers)
    } else if s == "true_false"@ || s == "true-false"@ || s == "true_false_question"@ {
        Some(QuestionType::TrueFalse)
    } else if s == "essay"@ || s == "essay_question"@ {
        Some(QuestionType::Essay)
    } else if s == "short_answer"@ || s == "short-answer"@ || s == "short_answer_question"@ {
        Some(QuestionType::ShortAnswer)
    } else if s == "matching"@ || s == "matching_question"@ {
        Some(QuestionType::Matching)
    } else if s == "fill_in_multiple_blanks"@ || s == "fill-in-multiple-blanks"@ || s == "fill_in_multiple_blanks_question"@ {
        Some(QuestionType::FillInMultipleBlanks)
    } else if s == "multiple_dropdowns"@ || s == "multiple-dropdowns"@ || s == "multiple_dropdowns_question"@ {
        Some(QuestionType::MultipleDropdowns)
    } else if s == "numerical"@ || s == "numerical_question"@ {
        Some(QuestionType::Numerical)
    } else if s == "calculated"@ || s == "calculated_question"@ {
        Some(QuestionType::Calculated)
    } else if s == "file_upload"@ || s == "file-upload"@ || s == "file_upload_question"@ {
        Some(QuestionType::FileUpload)
    } else if s == "text_only"@ || s == "text-only"@ || s == "text_only_question"@ {
        Some(QuestionType::TextOnly)
    } else {
        None
    }
}

impl QuestionType {
    /// The text of the question type as Canvas spells it.
    pub open spec fn text(self) -> Seq<char> {
        match self {
            QuestionType::MultipleChoice => "multiple_choice_question"@,
            QuestionType::MultipleAnswers => "multiple_answers_question"@,
            QuestionType::TrueFalse => "true_false_question"@,
            QuestionType::Essay => "essay_question"@,
            QuestionType::ShortAnswer => "short_answer_question"@,
            QuestionType::Matching => "matching_question"@,
            QuestionType::FillInMultipleBlanks => "fill_in_multiple_blanks_question"@,
            QuestionType::MultipleDropdowns => "multiple_dropdowns_question"@,
            QuestionType::Numerical => "numerical_question"@,
            QuestionType::Calculated => "calculated_question"@,
            QuestionType::FileUpload => "file_upload_question"@,
            QuestionType::TextOnly => "text_only_question"@,
        }
    }

    /// The text of the question type as Canvas spells it.
    pub fn as_str(&self) -> (r: &'static str)
        ensures
            r@ == self.text(),
    {
        match self {
            QuestionType::MultipleChoice => "multiple_choice_question",
            QuestionType::MultipleAnswers => "multiple_answers_question",
            QuestionType::TrueFalse => "true_false_question",
            QuestionType::Essay => "essay_question",
            QuestionType::ShortAnswer => "short_answer_question",
            QuestionType::Matching => "matching_question",
            QuestionType::FillInMultipleBlanks => "fill_in_multiple_blanks_question",
            QuestionType::MultipleDropdowns => "multiple_dropdowns_question",
            QuestionType::Numerical => "numerical_question",
            QuestionType::Calculated => "calculated_question",
            QuestionType::FileUpload => "file_upload_question",
            QuestionType::TextOnly => "text_only_question",
        }
    }

    /// Parses a question type, ignoring surrounding whitespace and ASCII case.
    pub fn parse(raw: &str) -> (r: Result<Self, QuestionTypeParseError>)
        ensures
            match r {
                Ok(v) => question_type_named(lower(trim(raw@))) == Some(v),
                Err(_) => question_type_named(lower(trim(raw@))) is None,
            },
    {
        let lowered = to_ascii_lower(trim_str(raw));
        let key = lowered.as_str();
        if str_eq(key, "mcq") || str_eq(key, "multiple_choice") || str_eq(key, "multiple-choice") || str_eq(key, "multiple_choice_question") {
            Ok(QuestionType::MultipleChoice)
        } else if str_eq(key, "multiple_answers") || str_eq(key, "multiple-answers") || str_eq(key, "multiple_answers_question") {
            Ok(QuestionType::MultipleAnswers)
        } else if str_eq(key, "true_false") || str_eq(key, "true-false") || str_eq(key, "true_false_question") {
            Ok(QuestionType::TrueFalse)
        } else if str_eq(key, "essay") || str_eq(key, "essay_question") {
            Ok(QuestionType::Essay)
        } else if str_eq(key, "short_answer") || str_eq(key, "short-answer") || str_eq(key, "short_answer_question") {
            Ok(QuestionType::ShortAnswer)
        } else if str_eq(key, "matching") || str_eq(key, "matching_question") {
            Ok(QuestionType::Matching)
        } else if str_eq(key, "fill_in_multiple_blanks") || str_eq(key, "fill-in-multiple-blanks") || str_eq(key, "fill_in_multiple_blanks_question") {
            Ok(QuestionType::FillInMultipleBlanks)
        } else if str_eq(key, "multiple_dropdowns") || str_eq(key, "multiple-dropdowns") || str_eq(key, "multiple_dropdowns_question") {
            Ok(QuestionType::MultipleDropdowns)
        } else if str_eq(key, "numerical") || str_eq(key, "numerical_question") {
            Ok(QuestionType::Numerical)
        } else if str_eq(key, "calculated") || str_eq(key, "calculated_question") {
            Ok(QuestionType::Calculated)
        } else if str_eq(key, "file_upload") || str_eq(key, "file-upload") || str_eq(key, "file_upload_question") {
            Ok(QuestionType::FileUpload)
        } else if str_eq(key, "text_only") || str_eq(key, "text-only") || str_eq(key, "text_only_question") {
            Ok(QuestionType::TextOnly)
        } else {
            Err(QuestionTypeParseError::Invalid)
        }
    }
}

impl core::str::FromStr for QuestionType {
    type Err = QuestionTypeParseError;

    fn from_str(raw: &str) -> (r: Result<Self, Self::Err>)
        ensures
            match r {
                Ok(v) => question_type_named(lower(trim(raw@))) == Some(v),
                Err(_) => question_type_named(lower(trim(raw@))) is None,
            },
    {
        Self::parse(raw)
    }
}

/// Each question type's text parses back to that question type.
pub proof fn lemma_question_type_roundtrip(v: QuestionType)
    ensures
        question_type_named(lower(trim(v.text()))) == Some(v),
{
    reveal_strlit("multiple_choice_question");
    reveal_strlit("mcq");
    reveal_strlit("multiple_choice");
    reveal_strlit("multiple-choice");
    reveal_strlit("multiple_answers_question");
    reveal_strlit("multiple_answers");
    reveal_strlit("multiple-answers");
    reveal_strlit("true_false_question");
    reveal_strlit("true_false");
    reveal_strlit("true-false");
    reveal_strlit("essay_question");
    reveal_strlit("essay");
    reveal_strlit("short_answer_question");
    reveal_strlit("short_answer");
    reveal_strlit("short-answer");
    reveal_strlit("matching_question");
    reveal_strlit("matching");
    reveal_strlit("fill_in_multiple_blanks_question");
    reveal_strlit("fill_in_multiple_blanks");
    reveal_strlit("fill-in-multiple-blanks");
    reveal_strlit("multiple_dropdowns_question");
    reveal_strlit("multiple_dropdowns");
    reveal_strlit("multiple-dropdowns");
    reveal_strlit("numerical_question");
    reveal_strlit("numerical");
    reveal_strlit("calculated_question");
    reveal_strlit("calculated");
    reveal_strlit("file_upload_question");
    reveal_strlit("file_upload");
    reveal_strlit("file-upload");
    reveal_strlit("text_only_question");
    reveal_strlit("text_only");
    reveal_strlit("text-only");
    lemma_keyword_normal(v.text());
    match v {
        QuestionType::MultipleChoice => {}
        QuestionType::MultipleAnswers => {
            assert("multiple_answers_question"@ != "mcq"@);
            assert("multiple_answers_question"@ != "multiple_choice"@);
            assert("multiple_answers_question"@ != "multiple-choice"@);
            assert("multiple_answers_question"@ != "multiple_choice_question"@);
        }
        QuestionType::TrueFalse => {
            assert("true_false_question"@ != "mcq"@);
            assert("true_false_question"@ != "multiple_choice"@);
            assert("true_false_question"@ != "multiple-choice"@);
            assert("true_false_question"@ != "multiple_choice_question"@);
            assert("true_false_question"@ != "multiple_answers"@);
            assert("true_false_question"@ != "multiple-answers"@);
            assert("true_false_question"@ != "multiple_answers_question"@);
        }
        QuestionType::Essay => {
            assert("essay_question"@ != "mcq"@);
            assert("essay_question"@ != "multiple_choice"@);
            assert("essay_question"@ != "multiple-choice"@);
            assert("essay_question"@ != "multiple_choice_question"@);
            assert("essay_question"@ != "multiple_answers"@);
            assert("essay_question"@ != "multiple-answers"@);
            assert("essay_question"@ != "multiple_answers_question"@);
            assert("essay_question"@ != "true_false"@);
            assert("essay_question"@ != "true-false"@);
            assert("essay_question"@ != "true_false_question"@);
        }
        QuestionType::ShortAnswer => {
            assert("short_answer_question"@ != "mcq"@);
            assert("short_answer_question"@ != "multiple_choice"@);
            assert("short_answer_question"@ != "multiple-choice"@);
            assert("short_answer_question"@ != "multiple_choice_question"@);
            assert("short_answer_question"@ != "multiple_answers"@);
            assert("short_answer_question"@ != "multiple-answers"@);
            assert("short_answer_question"@ != "multiple_answers_question"@);
            assert("short_answer_question"@ != "true_false"@);
            assert("short_answer_question"@ != "true-false"@);
            assert("short_answer_question"@ != "true_false_question"@);
            assert("short_answer_question"@ != "essay"@);
            assert("short_answer_question"@ != "essay_question"@);
        }
        QuestionType::Matching => {
            assert("matching_question"@ != "mcq"@);
            assert("matching_question"@ != "multiple_choice"@);
            assert("matching_question"@ != "multiple-choice"@);
            assert("matching_question"@ != "multiple_choice_question"@);
            assert("matching_question"@ != "multiple_answers"@);
            assert("matching_question"@ != "multiple-answers"@);
            assert("matching_question"@ != "multiple_answers_question"@);
            assert("matching_question"@ != "true_false"@);
            assert("matching_question"@ != "true-false"@);
            assert("matching_question"@ != "true_false_question"@);
            assert("matching_question"@ != "essay"@);
            assert("matching_question"@ != "essay_question"@);
            assert("matching_question"@ != "short_answer"@);
            assert("matching_question"@ != "short-answer"@);
            assert("matching_question"@ != "short_answer_question"@);
        }
        QuestionType::FillInMultipleBlanks => {
            assert("fill_in_multiple_blanks_question"@ != "mcq"@);
            assert("fill_in_multiple_blanks_question"@ != "multiple_choice"@);
            assert("fill_in_multiple_blanks_question"@ != "multiple-choice"@);
            assert("fill_in_multiple_blanks_question"@ != "multiple_choice_question"@);
            assert("fill_in_multiple_blanks_question"@ != "multiple_answers"@);
            assert("fill_in_multiple_blanks_question"@ != "multiple-answers"@);
            assert("fill_in_multiple_blanks_question"@ != "multiple_answers_question"@);
            assert("fill_in_multiple_blanks_question"@ != "true_false"@);
            assert("fill_in_multiple_blanks_question"@ != "true-false"@);
            assert("fill_in_multiple_blanks_question"@ != "true_false_question"@);
            assert("fill_in_multiple_blanks_question"@ != "essay"@);
            assert("fill_in_multiple_blanks_question"@ != "essay_question"@);
            assert("fill_in_multiple_blanks_question"@ != "short_answer"@);
            assert("fill_in_multiple_blanks_question"@ != "short-answer"@);
            assert("fill_in_multiple_blanks_question"@ != "short_answer_question"@);
            assert("fill_in_multiple_blanks_question"@ != "matching"@);
            assert("fill_in_multiple_blanks_question"@ != "matching_question"@);
        }
        QuestionType::MultipleDropdowns => {
            assert("multiple_dropdowns_question"@ != "mcq"@);
            assert("multiple_dropdowns_question"@ != "multiple_choice"@);
            assert("multiple_dropdowns_question"@ != "multiple-choice"@);
            assert("multiple_dropdowns_question"@ != "multiple_choice_question"@);
            assert("multiple_dropdowns_question"@ != "multiple_answers"@);
            assert("multiple_dropdowns_question"@ != "multiple-answers"@);
            assert("multiple_dropdowns_question"@ != "multiple_answers_question"@);
            assert("multiple_dropdowns_question"@ != "true_false"@);
            assert("multiple_dropdowns_question"@ != "true-false"@);
            assert("multiple_dropdowns_question"@ != "true_false_question"@);
            assert("multiple_dropdowns_question"@ != "essay"@);
            assert("multiple_dropdowns_question"@ != "essay_question"@);
            assert("multiple_dropdowns_question"@ != "short_answer"@);
            assert("multiple_dropdowns_question"@ != "short-answer"@);
            assert("multiple_dropdowns_question"@ != "short_answer_question"@);
            assert("multiple_dropdowns_question"@ != "matching"@);
            assert("multiple_dropdowns_question"@ != "matching_question"@);
            assert("multiple_dropdowns_question"@ != "fill_in_multiple_blanks"@);
            assert("multiple_dropdowns_question"@ != "fill-in-multiple-blanks"@);
            assert("multiple_dropdowns_question"@ != "fill_in_multiple_blanks_question"@);
        }
        QuestionType::Numerical => {
            assert("numerical_question"@ != "mcq"@);
            assert("numerical_question"@ != "multiple_choice"@);
            assert("numerical_question"@ != "multiple-choice"@);
            assert("numerical_question"@ != "multiple_choice_question"@);
            assert("numerical_question"@ != "multiple_answers"@);
            assert("numerical_question"@ != "multiple-answers"@);
            assert("numerical_question"@ != "multiple_answers_question"@);
            assert("numerical_question"@ != "true_false"@);
            assert("numerical_question"@ != "true-false"@);
            assert("numerical_question"@ != "true_false_question"@);
            assert("numerical_question"@ != "essay"@);
            assert("numerical_question"@ != "essay_question"@);
            assert("numerical_question"@ != "short_answer"@);
            assert("numerical_question"@ != "short-answer"@);
            assert("numerical_question"@ != "short_answer_question"@);
            assert("numerical_question"@ != "matching"@);
            assert("numerical_question"@ != "matching_question"@);
            assert("numerical_question"@ != "fill_in_multiple_blanks"@);
            assert("numerical_question"@ != "fill-in-multiple-blanks"@);
            assert("numerical_question"@ != "fill_in_multiple_blanks_question"@);
            assert("numerical_question"@ != "multiple_dropdowns"@);
            assert("numerical_question"@ != "multiple-dropdowns"@);
            assert("numerical_question"@ != "multiple_dropdowns_question"@);
        }
        QuestionType::Calculated => {
            assert("calculated_question"@ != "mcq"@);
            assert("calculated_question"@ != "multiple_choice"@);
            assert("calculated_question"@ != "multiple-choice"@);
            assert("calculated_question"@ != "multiple_choice_question"@);
            assert("calculated_question"@ != "multiple_answers"@);
            assert("calculated_question"@ != "multiple-answers"@);
            assert("calculated_question"@ != "multiple_answers_question"@);
            assert("calculated_question"@ != "true_false"@);
            assert("calculated_question"@ != "true-false"@);
            assert("calculated_question"@ != "true_false_question"@);
            assert("calculated_question"@ != "essay"@);
            assert("calculated_question"@ != "essay_question"@);
            assert("calculated_question"@ != "short_answer"@);
            assert("calculated_question"@ != "short-answer"@);
            assert("calculated_question"@ != "short_answer_question"@);
            assert("calculated_question"@ != "matching"@);
            assert("calculated_question"@ != "matching_question"@);
            assert("calculated_question"@ != "fill_in_multiple_blanks"@);
            assert("calculated_question"@ != "fill-in-multiple-blanks"@);
            assert("calculated_question"@ != "fill_in_multiple_blanks_question"@);
            assert("calculated_question"@ != "multiple_dropdowns"@);
            assert("calculated_question"@ != "multiple-dropdowns"@);
            assert("calculated_question"@ != "multiple_dropdowns_question"@);
            assert("calculated_question"@ != "numerical"@);
            assert("calculated_question"@ != "numerical_question"@);
        }
        QuestionType::FileUpload => {
            assert("file_upload_question"@ != "mcq"@);
            assert("file_upload_question"@ != "multiple_choice"@);
            assert("file_upload_question"@ != "multiple-choice"@);
            assert("file_upload_question"@ != "multiple_choice_question"@);
            assert("file_upload_question"@ != "multiple_answers"@);
            assert("file_upload_question"@ != "multiple-answers"@);
            assert("file_upload_question"@ != "multiple_answers_question"@);
            assert("file_upload_question"@ != "true_false"@);
            assert("file_upload_question"@ != "true-false"@);
            assert("file_upload_question"@ != "true_false_question"@);
            assert("file_upload_question"@ != "essay"@);
            assert("file_upload_question"@ != "essay_question"@);
            assert("file_upload_question"@ != "short_answer"@);
            assert("file_upload_question"@ != "short-answer"@);
            assert("file_upload_question"@ != "short_answer_question"@);
            assert("file_upload_question"@ != "matching"@);
            assert("file_upload_question"@ != "matching_question"@);
            assert("file_upload_question"@ != "fill_in_multiple_blanks"@);
            assert("file_upload_question"@ != "fill-in-multiple-blanks"@);
            assert("file_upload_question"@ != "fill_in_multiple_blanks_question"@);
            assert("file_upload_question"@ != "multiple_dropdowns"@);
            assert("file_upload_question"@ != "multiple-dropdowns"@);
            assert("file_upload_question"@ != "multiple_dropdowns_question"@);
            assert("file_upload_question"@ != "numerical"@);
            assert("file_upload_question"@ != "numerical_question"@);
            assert("file_upload_question"@ != "calculated"@);
            assert("file_upload_question"@ != "calculated_question"@);
        }
        QuestionType::TextOnly => {
            assert("text_only_question"@ != "mcq"@);
            assert("text_only_question"@ != "multiple_choice"@);
            assert("text_only_question"@ != "multiple-choice"@);
            assert("text_only_question"@ != "multiple_choice_question"@);
            assert("text_only_question"@ != "multiple_answers"@);
            assert("text_only_question"@ != "multiple-answers"@);
            assert("text_only_question"@ != "multiple_answers_question"@);
            assert("text_only_question"@ != "true_false"@);
            assert("text_only_question"@ != "true-false"@);
            assert("text_only_question"@ != "true_false_question"@);
            assert("text_only_question"@ != "essay"@);
            assert("text_only_question"@ != "essay_question"@);
            assert("text_only_question"@ != "short_answer"@);
            assert("text_only_question"@ != "short-answer"@);
            assert("text_only_question"@ != "short_answer_question"@);
            assert("text_only_question"@ != "matching"@);
            assert("text_only_question"@ != "matching_question"@);
            assert("text_only_question"@ != "fill_in_multiple_blanks"@);
            assert("text_only_question"@ != "fill-in-multiple-blanks"@);
            assert("text_only_question"@ != "fill_in_multiple_blanks_question"@);
            assert("text_only_question"@ != "multiple_dropdowns"@);
            assert("text_only_question"@ != "multiple-dropdowns"@);
            assert("text_only_question"@ != "multiple_dropdowns_question"@);
            assert("text_only_question"@ != "numerical"@);
            assert("text_only_question"@ != "numerical_question"@);
            assert("text_only_question"@ != "calculated"@);
            assert("text_only_question"@ != "calculated_question"@);
            assert("text_only_question"@ != "file_upload"@);
            assert("text_only_question"@ != "file-upload"@);
            assert("text_only_question"@ != "file_upload_question"@);
        }
    }
}

/// A publish state.
#[derive(Debug, Clone, Copy, PartialEq, Eq, Hash, Structural)]
pub enum PublishState {
    Published,
    Unpublished,
}

/// Why text is not a publish state.
#[derive(Debug, Clone, Copy, PartialEq, Eq, Structural)]
pub enum PublishStateParseError {
    Invalid,
}

impl PublishStateParseError {
    /// The error's message.
    pub fn message(&self) -> (r: &'static str)
        ensures
            r@ == "publish state must be 'published' or 'unpublished'"@,
    {
        "publish state must be 'published' or 'unpublished'"
    }
}

/// The publish state that a lower-case, trimmed text names, if any.
pub open spec fn publish_state_named(s: Seq<char>) -> Option<PublishState> {
    if s == "published"@ {
        Some(PublishState::Published)
    } else if s == "unpublished"@ {
        Some(PublishState::Unpublished)
    } else {
        None
    }
}

impl PublishState {
    /// The text of the publish state as Canvas spells it.
    pub open spec fn text(self) -> Seq<char> {
        match self {
            PublishState::Published => "published"@,
            PublishState::Unpublished => "unpublished"@,
        }
    }

    /// The text of the publish state as Canvas spells it.
    pub fn as_str(&self) -> (r: &'static str)
        ensures
            r@ == self.text(),
    {
        match self {
            PublishState::Published => "published",
            PublishState::Unpublished => "unpublished",
        }
    }

    /// Parses a publish state, ignoring surrounding whitespace and ASCII case.
    pub fn parse(raw: &str) -> (r: Result<Self, PublishStateParseError>)
        ensures
            match r {
                Ok(v) => publish_state_named(lower(trim(raw@))) == Some(v),
                Err(_) => publish_state_named(lower(trim(raw@))) is None,
            },
    {
        let lowered = to_ascii_lower(trim_str(raw));
        let key = lowered.as_str();
        if str_eq(key, "published") {
            Ok(PublishState::Published)
        } else if str_eq(key, "unpublished") {
            Ok(PublishState::Unpublished)
        } else {
            Err(PublishStateParseError::Invalid)
        }
    }
}

impl core::str::FromStr for PublishState {
    type Err = PublishStateParseError;

    fn from_str(raw: &str) -> (r: Result<Self, Self::Err>)
        ensures
            match r {
                Ok(v) => publish_state_named(lower(trim(raw@))) == Some(v),
                Err(_) => publish_state_named(lower(trim(raw@))) is None,
            },
    {
        Self::parse(raw)
    }
}

/// Each publish state's text parses back to that publish state.
pub proof fn lemma_publish_state_roundtrip(v: PublishState)
    ensures
        publish_state_named(lower(trim(v.text()))) == Some(v),
{
    reveal_strlit("published");
    reveal_strlit("unpublished");
    lemma_keyword_normal(v.text());
    match v {
        PublishState::Published => {}
        PublishState::Unpublished => {
            assert("unpublished"@ != "published"@);
        }
    }
}

/// A rubric selection.
#[derive(Debug, Clone, Copy, PartialEq, Eq, Hash, Structural)]
pub enum RubricSelection {
    NoRubric,
    Rubric,
}

/// Why text is not a rubric selection.
#[derive(Debug, Clone, Copy, PartialEq, Eq, Structural)]
pub enum RubricSelectionParseError {
    Invalid,
}

impl RubricSelectionParseError {
    /// The error's message.
    pub fn message(&self) -> (r: &'static str)
        ensures
            r@ == "rubric selection must be 'none' or 'rubric'"@,
    {
        "rubric selection must be 'none' or 'rubric'"
    }
}

/// The rubric selection that a lower-case, trimmed text names, if any.
pub open spec fn rubric_selection_named(s: Seq<char>) -> Option<RubricSelection> {
    if s == "none"@ {
        Some(RubricSelection::NoRubric)
    } else if s == "rubric"@ {
        Some(RubricSelection::Rubric)
    } else {
        None
    }
}

impl RubricSelection {
    /// The text of the rubric selection as Canvas spells it.
    pub open spec fn text(self) -> Seq<char> {
        match self {
            RubricSelection::NoRubric => "none"@,
            RubricSelection::Rubric => "rubric"@,
        }
    }

    /// The text of the rubric selection as Canvas spells it.
    pub fn as_str(&self) -> (r: &'static str)
        ensures
            r@ == self.text(),
    {
        match self {
            RubricSelection::NoRubric => "none",
            RubricSelection::Rubric => "rubric",
        }
    }

    /// Parses a rubric selection, ignoring surrounding whitespace and ASCII case.
    pub fn parse(raw: &str) -> (r: Result<Self, RubricSelectionParseError>)
        ensures
            match r {
                Ok(v) => rubric_selection_named(lower(trim(raw@))) == Some(v),
                Err(_) => rubric_selection_named(lower(trim(raw@))) is None,
            },
    {
        let lowered = to_ascii_lower(trim_str(raw));
        let key = lowered.as_str();
        if str_eq(key, "none") {
            Ok(RubricSelection::NoRubric)
        } else if str_eq(key, "rubric") {
            Ok(RubricSelection::Rubric)
        } else {
            Err(RubricSelectionParseError::Invalid)
        }
    }
}

impl core::str::FromStr for RubricSelection {
    type Err = RubricSelectionParseError;

    fn from_str(raw: &str) -> (r: Result<Self, Self::Err>)
        ensures
            match r {
                Ok(v) => rubric_selection_named(lower(trim(raw@))) == Some(v),
                Err(_) => rubric_selection_named(lower(trim(raw@))) is None,
            },
    {
        Self::parse(raw)
    }
}

/// Each rubric selection's text parses back to that rubric selection.
pub proof fn lemma_rubric_selection_roundtrip(v: RubricSelection)
    ensures
        rubric_selection_named(lower(trim(v.text()))) == Some(v),
{
    reveal_strlit("none");
    reveal_strlit("rubric");
    lemma_keyword_normal(v.text());
    match v {
        RubricSelection::NoRubric => {}
        RubricSelection::Rubric => {
            assert("rubric"@ != "none"@);
        }
    }
}

/// A course visibility.
#[derive(Debug, Clone, Copy, PartialEq, Eq, Hash, Structural)]
pub enum CourseVisibility {
    Public,
    Institution,
    Course,
}

/// Why text is not a course visibility.
#[derive(Debug, Clone, Copy, PartialEq, Eq, Structural)]
pub enum CourseVisibilityParseError {
    Invalid,
}

impl CourseVisibilityParseError {
    /// The error's message.
    pub fn message(&self) -> (r: &'static str)
        ensures
            r@ == "course visibility must be 'public', 'institution', or 'course'"@,
    {
        "course visibility must be 'public', 'institution', or 'course'"
    }
}

/// The course visibility that a lower-case, trimmed text names, if any.
pub open spec fn course_visibility_named(s: Seq<char>) -> Option<CourseVisibility> {
    if s == "public"@ {
        Some(CourseVisibility::Public)
    } else if s == "institution"@ {
        Some(CourseVisibility::Institution)
    } else if s == "course"@ {
        Some(CourseVisibility::Course)
    } else {
        None
    }
}

impl CourseVisibility {
    /// The text of the course visibility as Canvas spells it.
    pub open spec fn text(self) -> Seq<char> {
        match self {
            CourseVisibility::Public => "public"@,
            CourseVisibility::Institution => "institution"@,
            CourseVisibility::Course => "course"@,
        }
    }

    /// The text of the course visibility as Canvas spells it.
    pub fn as_str(&self) -> (r: &'static str)
        ensures
            r@ == self.text(),
    {
        match self {
            CourseVisibility::Public => "public",
            CourseVisibility::Institution => "institution",
            CourseVisibility::Course => "course",
        }
    }

    /// Parses a course visibility, ignoring surrounding whitespace and ASCII case.
    pub fn parse(raw: &str) -> (r: Result<Self, CourseVisibilityParseError>)
        ensures
            match r {
                Ok(v) => course_visibility_named(lower(trim(raw@))) == Some(v),
                Err(_) => course_visibility_named(lower(trim(raw@))) is None,
            },
    {
        let lowered = to_ascii_lower(trim_str(raw));
        let key = lowered.as_str();
        if str_eq(key, "public") {
            Ok(CourseVisibility::Public)
        } else if str_eq(key, "institution") {
            Ok(CourseVisibility::Institution)
        } else if str_eq(key, "course") {
            Ok(CourseVisibility::Course)
        } else {
            Err(CourseVisibilityParseError::Invalid)
        }
    }
}

impl core::str::FromStr for CourseVisibility {
    type Err = CourseVisibilityParseError;

    fn from_str(raw: &str) -> (r: Result<Self, Self::Err>)
        ensures
            match r {
                Ok(v) => course_visibility_named(lower(trim(raw@))) == Some(v),
                Err(_) => course_visibility_named(lower(trim(raw@))) is None,
            },
    {
        Self::parse(raw)
    }
}

/// Each course visibility's text parses back to that course visibility.
pub proof fn lemma_course_visibility_roundtrip(v: CourseVisibility)
    ensures
        course_visibility_named(lower(trim(v.text()))) == Some(v),
{
    reveal_strlit("public");
    reveal_strlit("institution");
    reveal_strlit("course");
    lemma_keyword_normal(v.text());
    match v {
        CourseVisibility::Public => {}
        CourseVisibility::Institution => {
            assert("institution"@ != "public"@);
        }
        CourseVisibility::Course => {
            assert("course"@ != "public"@);
            assert("course"@ != "institution"@);
        }
    }
}

/// A report type.
#[derive(Debug, Clone, Copy, PartialEq, Eq, Hash, Structural)]
pub enum ReportType {
    GradebookExport,
    MissingSubmissions,
    CourseActivity,
}

/// Why text is not a report type.
#[derive(Debug, Clone, Copy, PartialEq, Eq, Structural)]
pub enum ReportTypeParseError {
    Invalid,
}

impl ReportTypeParseError {
    /// The error's message.
    pub fn message(&self) -> (r: &'static str)
        ensures
            r@ == "report type must be gradebook, missing_submissions, or course_activity"@,
    {
        "report type must be gradebook, missing_submissions, or course_activity"
    }
}

/// The report type that a lower-case, trimmed text names, if any.
pub open spec fn report_type_named(s: Seq<char>) -> Option<ReportType> {
    if s == "gradebook"@ || s == "gradebook_export"@ || s == "grade_export"@ {
        Some(ReportType::GradebookExport)
    } else if s == "missing_submissions"@ || s == "submission_status"@ || s == "submission_status_summary"@ {
        Some(ReportType::MissingSubmissions)
    } else if s == "course_activity"@ || s == "activity"@ || s == "course_activity_summary"@ {
        Some(ReportType::CourseActivity)
    } else {
        None
    }
}

impl ReportType {
    /// The text of the report type as Canvas spells it.
    pub open spec fn text(self) -> Seq<char> {
        match self {
            ReportType::GradebookExport => "grade_export"@,
            ReportType::MissingSubmissions => "missing_submissions"@,
            ReportType::CourseActivity => "course_activity"@,
        }
    }

    /// The text of the report type as Canvas spells it.
    pub fn as_str(&self) -> (r: &'static str)
        ensures
            r@ == self.text(),
    {
        match self {
            ReportType::GradebookExport => "grade_export",
            ReportType::MissingSubmissions => "missing_submissions",
            ReportType::CourseActivity => "course_activity",
        }
    }

    /// Parses a report type, ignoring surrounding whitespace and ASCII case.
    pub fn parse(raw: &str) -> (r: Result<Self, ReportTypeParseError>)
        ensures
            match r {
                Ok(v) => report_type_named(lower(trim(raw@))) == Some(v),
                Err(_) => report_type_named(lower(trim(raw@))) is None,
            },
    {
        let lowered = to_ascii_lower(trim_str(raw));
        let key = lowered.as_str();
        if str_eq(key, "gradebook") || str_eq(key, "gradebook_export") || str_eq(key, "grade_export") {
            Ok(ReportType::GradebookExport)
        } else if str_eq(key, "missing_submissions") || str_eq(key, "submission_status") || str_eq(key, "submission_status_summary") {
            Ok(ReportType::MissingSubmissions)
        } else if str_eq(key, "course_activity") || str_eq(key, "activity") || str_eq(key, "course_activity_summary") {
            Ok(ReportType::CourseActivity)
        } else {
            Err(ReportTypeParseError::Invalid)
        }
    }
}

impl core::str::FromStr for ReportType {
    type Err = ReportTypeParseError;

    fn from_str(raw: &str) -> (r: Result<Self, Self::Err>)
        ensures
            match r {
                Ok(v) => report_type_named(lower(trim(raw@))) == Some(v),
                Err(_) => report_type_named(lower(trim(raw@))) is None,
            },
    {
        Self::parse(raw)
    }
}

/// Each report type's text parses back to that report type.
pub proof fn lemma_report_type_roundtrip(v: ReportType)
    ensures
        report_type_named(lower(trim(v.text()))) == Some(v),
{
    reveal_strlit("grade_export");
    reveal_strlit("gradebook");
    reveal_strlit("gradebook_export");
    reveal_strlit("missing_submissions");
    reveal_strlit("submission_status");
    reveal_strlit("submission_status_summary");
    reveal_strlit("course_activity");
    reveal_strlit("activity");
    reveal_strlit("course_activity_summary");
    lemma_keyword_normal(v.text());
    match v {
        ReportType::GradebookExport => {}
        ReportType::MissingSubmissions => {
            assert("missing_submissions"@ != "gradebook"@);
            assert("missing_submissions"@ != "gradebook_export"@);
            assert("missing_submissions"@ != "grade_export"@);
        }
        ReportType::CourseActivity => {
            assert("course_activity"@ != "gradebook"@);
            assert("course_activity"@ != "gradebook_export"@);
            assert("course_activity"@ != "grade_export"@);
            assert("course_activity"@ != "missing_submissions"@);
            assert("course_activity"@ != "submission_status"@);
            assert("course_activity"@ != "submission_status_summary"@);
        }
    }
}

/// A peer review mode.
#[derive(Debug, Clone, Copy, PartialEq, Eq, Hash, Structural)]
pub enum PeerReviewMode {
    Automatic,
    Manual,
}

/// Why text is not a peer review mode.
#[derive(Debug, Clone, Copy, PartialEq, Eq, Structural)]
pub enum PeerReviewModeParseError {
    Invalid,
}

impl PeerReviewModeParseError {
    /// The error's message.
    pub fn message(&self) -> (r: &'static str)
        ensures
            r@ == "peer review mode must be 'automatic' or 'manual'"@,
    {
        "peer review mode must be 'automatic' or 'manual'"
    }
}

/// The peer review mode that a lower-case, trimmed text names, if any.
pub open spec fn peer_review_mode_named(s: Seq<char>) -> Option<PeerReviewMode> {
    if s == "automatic"@ || s == "auto"@ {
        Some(PeerReviewMode::Automatic)
    } else if s == "manual"@ {
        Some(PeerReviewMode::Manual)
    } else {
        None
    }
}

impl PeerReviewMode {
    /// The text of the peer review mode as Canvas spells it.
    pub open spec fn text(self) -> Seq<char> {
        match self {
            PeerReviewMode::Automatic => "automatic"@,
            PeerReviewMode::Manual => "manual"@,
        }
    }

    /// The text of the peer review mode as Canvas spells it.
    pub fn as_str(&self) -> (r: &'static str)
        ensures
            r@ == self.text(),
    {
        match self {
            PeerReviewMode::Automatic => "automatic",
            PeerReviewMode::Manual => "manual",
        }
    }

    /// Parses a peer review mode, ignoring surrounding whitespace and ASCII case.
    pub fn parse(raw: &str) -> (r: Result<Self, PeerReviewModeParseError>)
        ensures
            match r {
                Ok(v) => peer_review_mode_named(lower(trim(raw@))) == Some(v),
                Err(_) => peer_review_mode_named(lower(trim(raw@))) is None,
            },
    {
        let lowered = to_ascii_lower(trim_str(raw));
        let key = lowered.as_str();
        if str_eq(key, "automatic") || str_eq(key, "auto") {
            Ok(PeerReviewMode::Automatic)
        } else if str_eq(key, "manual") {
            Ok(PeerReviewMode::Manual)
        } else {
            Err(PeerReviewModeParseError::Invalid)
        }
    }
}

impl core::str::FromStr for PeerReviewMode {
    type Err = PeerReviewModeParseError;

    fn from_str(raw: &str) -> (r: Result<Self, Self::Err>)
        ensures
            match r {
                Ok(v) => peer_review_mode_named(lower(trim(raw@))) == Some(v),
                Err(_) => peer_review_mode_named(lower(trim(raw@))) is None,
            },
    {
        Self::parse(raw)
    }
}

/// Each peer review mode's text parses back to that peer review mode.
pub proof fn lemma_peer_review_mode_roundtrip(v: PeerReviewMode)
    ensures
        peer_review_mode_named(lower(trim(v.text()))) == Some(v),
{
    reveal_strlit("automatic");
    reveal_strlit("auto");
    reveal_strlit("manual");
    lemma_keyword_normal(v.text());
    match v {
        PeerReviewMode::Automatic => {}
        PeerReviewMode::Manual => {
            assert("manual"@ != "automatic"@);
            assert("manual"@ != "auto"@);
        }
    }
}

/// A group assignment mode.
#[derive(Debug, Clone, Copy, PartialEq, Eq, Hash, Structural)]
pub enum GroupAssignmentMode {
    Group,
    Individual,
}

/// Why text is not a group assignment mode.
#[derive(Debug, Clone, Copy, PartialEq, Eq, Structural)]
pub enum GroupAssignmentModeParseError {
    Invalid,
}

impl GroupAssignmentModeParseError {
    /// The error's message.
    pub fn message(&self) -> (r: &'static str)
        ensures
            r@ == "group assignment mode must be 'group' or 'individual'"@,
    {
        "group assignment mode must be 'group' or 'individual'"
    }
}

/// The group assignment mode that a lower-case, trimmed text names, if any.
pub open spec fn group_assignment_mode_named(s: Seq<char>) -> Option<GroupAssignmentMode> {
    if s == "group"@ || s == "grouped"@ {
        Some(GroupAssignmentMode::Group)
    } else if s == "individual"@ || s == "solo"@ {
        Some(GroupAssignmentMode::Individual)
    } else {
        None
    }
}

impl GroupAssignmentMode {
    /// The text of the group assignment mode as Canvas spells it.
    pub open spec fn text(self) -> Seq<char> {
        match self {
            GroupAssignmentMode::Group => "group"@,
            GroupAssignmentMode::Individual => "individual"@,
        }
    }

    /// The text of the group assignment mode as Canvas spells it.
    pub fn as_str(&self) -> (r: &'static str)
        ensures
            r@ == self.text(),
    {
        match self {
            GroupAssignmentMode::Group => "group",
            GroupAssignmentMode::Individual => "individual",
        }
    }

    /// Parses a group assignment mode, ignoring surrounding whitespace and ASCII case.
    pub fn parse(raw: &str) -> (r: Result<Self, GroupAssignmentModeParseError>)
        ensures
            match r {
                Ok(v) => group_assignment_mode_named(lower(trim(raw@))) == Some(v),
                Err(_) => group_assignment_mode_named(lower(trim(raw@))) is None,
            },
    {
        let lowered = to_ascii_lower(trim_str(raw));
        let key = lowered.as_str();
        if str_eq(key, "group") || str_eq(key, "grouped") {
            Ok(GroupAssignmentMode::Group)
        } else if str_eq(key, "individual") || str_eq(key, "solo") {
            Ok(GroupAssignmentMode::Individual)
        } else {
            Err(GroupAssignmentModeParseError::Invalid)
        }
    }
}

impl core::str::FromStr for GroupAssignmentMode {
    type Err = GroupAssignmentModeParseError;

    fn from_str(raw: &str) -> (r: Result<Self, Self::Err>)
        ensures
            match r {
                Ok(v) => group_assignment_mode_named(lower(trim(raw@))) == Some(v),
                Err(_) => group_assignment_mode_named(lower(trim(raw@))) is None,
            },
    {
        Self::parse(raw)
    }
}

/// Each group assignment mode's text parses back to that group assignment mode.
pub proof fn lemma_group_assignment_mode_roundtrip(v: GroupAssignmentMode)
    ensures
        group_assignment_mode_named(lower(trim(v.text()))) == Some(v),
{
    reveal_strlit("group");
    reveal_strlit("grouped");
    reveal_strlit("individual");
    reveal_strlit("solo");
    lemma_keyword_normal(v.text());
    match v {
        GroupAssignmentMode::Group => {}
        GroupAssignmentMode::Individual => {
            assert("individual"@ != "group"@);
            assert("individual"@ != "grouped"@);
        }
    }
}

/// A grading posting policy.
#[derive(Debug, Clone, Copy, PartialEq, Eq, Hash, Structural)]
pub enum GradingPostingPolicy {
    Automatic,
    Manual,
}

/// Why text is not a grading posting policy.
#[derive(Debug, Clone, Copy, PartialEq, Eq, Structural)]
pub enum GradingPostingPolicyParseError {
    Invalid,
}

impl GradingPostingPolicyParseError {
    /// The error's message.
    pub fn message(&self) -> (r: &'static str)
        ensures
            r@ == "grading posting policy must be 'automatic' or 'manual'"@,
    {
        "grading posting policy must be 'automatic' or 'manual'"
    }
}

/// The grading posting policy that a lower-case, trimmed text names, if any.
pub open spec fn grading_posting_policy_named(s: Seq<char>) -> Option<GradingPostingPolicy> {
    if s == "automatic"@ || s == "auto"@ {
        Some(GradingPostingPolicy::Automatic)
    } else if s == "manual"@ {
        Some(GradingPostingPolicy::Manual)
    } else {
        None
    }
}

impl GradingPostingPolicy {
    /// The text of the grading posting policy as Canvas spells it.
    pub open spec fn text(self) -> Seq<char> {
        match self {
            GradingPostingPolicy::Automatic => "automatic"@,
            GradingPostingPolicy::Manual => "manual"@,
        }
    }

    /// The text of the grading posting policy as Canvas spells it.
    pub fn as_str(&self) -> (r: &'static str)
        ensures
            r@ == self.text(),
    {
        match self {
            GradingPostingPolicy::Automatic => "automatic",
            GradingPostingPolicy::Manual => "manual",
        }
    }

    /// Parses a grading posting policy, ignoring surrounding whitespace and ASCII case.
    pub fn parse(raw: &str) -> (r: Result<Self, GradingPostingPolicyParseError>)
        ensures
            match r {
                Ok(v) => grading_posting_policy_named(lower(trim(raw@))) == Some(v),
                Err(_) => grading_posting_policy_named(lower(trim(raw@))) is None,
            },
    {
        let lowered = to_ascii_lower(trim_str(raw));
        let key = lowered.as_str();
        if str_eq(key, "automatic") || str_eq(key, "auto") {
            Ok(GradingPostingPolicy::Automatic)
        } else if str_eq(key, "manual") {
            Ok(GradingPostingPolicy::Manual)
        } else {
            Err(GradingPostingPolicyParseError::Invalid)
        }
    }
}

impl core::str::FromStr for GradingPostingPolicy {
    type Err = GradingPostingPolicyParseError;

    fn from_str(raw: &str) -> (r: Result<Self, Self::Err>)
        ensures
            match r {
                Ok(v) => grading_posting_policy_named(lower(trim(raw@))) == Some(v),
                Err(_) => grading_posting_policy_named(lower(trim(raw@))) is None,
            },
    {
        Self::parse(raw)
    }
}

/// Each grading posting policy's text parses back to that grading posting policy.
pub proof fn lemma_grading_posting_policy_roundtrip(v: GradingPostingPolicy)
    ensures
        grading_posting_policy_named(lower(trim(v.text()))) == Some(v),
{
    reveal_strlit("automatic");
    reveal_strlit("auto");
    reveal_strlit("manual");
    lemma_keyword_normal(v.text());
    match v {
        GradingPostingPolicy::Automatic => {}
        GradingPostingPolicy::Manual => {
            assert("manual"@ != "automatic"@);
            assert("manual"@ != "auto"@);
        }
    }
}

/// A muted state.
#[derive(Debug, Clone, Copy, PartialEq, Eq, Hash, Structural)]
pub enum MutedState {
    Muted,
    Unmuted,
}

/// Why text is not a muted state.
#[derive(Debug, Clone, Copy, PartialEq, Eq, Structural)]
pub enum MutedStateParseError {
    Invalid,
}

impl MutedStateParseError {
    /// The error's message.
    pub fn message(&self) -> (r: &'static str)
        ensures
            r@ == "muted state must be 'muted' or 'unmuted'"@,
    {
        "muted state must be 'muted' or 'unmuted'"
    }
}

/// The muted state that a lower-case, trimmed text names, if any.
pub open spec fn muted_state_named(s: Seq<char>) -> Option<MutedState> {
    if s == "muted"@ {
        Some(MutedState::Muted)
    } else if s == "unmuted"@ {
        Some(MutedState::Unmuted)
    } else {
        None
    }
}

impl MutedState {
    /// The text of the muted state as Canvas spells it.
    pub open spec fn text(self) -> Seq<char> {
        match self {
            MutedState::Muted => "muted"@,
            MutedState::Unmuted => "unmuted"@,
        }
    }

    /// The text of the muted state as Canvas spells it.
    pub fn as_str(&self) -> (r: &'static str)
        ensures
            r@ == self.text(),
    {
        match self {
            MutedState::Muted => "muted",
            MutedState::Unmuted => "unmuted",
        }
    }

    /// Parses a muted state, ignoring surrounding whitespace and ASCII case.
    pub fn parse(raw: &str) -> (r: Result<Self, MutedStateParseError>)
        ensures
            match r {
                Ok(v) => muted_state_named(lower(trim(raw@))) == Some(v),
                Err(_) => muted_state_named(lower(trim(raw@))) is None,
            },
    {
        let lowered = to_ascii_lower(trim_str(raw));
        let key = lowered.as_str();
        if str_eq(key, "muted") {
            Ok(MutedState::Muted)
        } else if str_eq(key, "unmuted") {
            Ok(MutedState::Unmuted)
        } else {
            Err(MutedStateParseError::Invalid)
        }
    }
}

impl core::str::FromStr for MutedState {
    type Err = MutedStateParseError;

    fn from_str(raw: &str) -> (r: Result<Self, Self::Err>)
        ensures
            match r {
                Ok(v) => muted_state_named(lower(trim(raw@))) == Some(v),
                Err(_) => muted_state_named(lower(trim(raw@))) is None,
            },
    {
        Self::parse(raw)
    }
}

/// Each muted state's text parses back to that muted state.
pub proof fn lemma_muted_state_roundtrip(v: MutedState)
    ensures
        muted_state_named(lower(trim(v.text()))) == Some(v),
{
    reveal_strlit("muted");
    reveal_strlit("unmuted");
    lemma_keyword_normal(v.text());
    match v {
        MutedState::Muted => {}
        MutedState::Unmuted => {
            assert("unmuted"@ != "muted"@);
        }
    }
}

/// A content migration type.
#[derive(Debug, Clone, Copy, PartialEq, Eq, Hash, Structural)]
pub enum ContentMigrationType {
    CourseCopy,
    FileImport,
}

/// Why text is not a content migration type.
#[derive(Debug, Clone, Copy, PartialEq, Eq, Structural)]
pub enum ContentMigrationTypeParseError {
    Invalid,
}

impl ContentMigrationTypeParseError {
    /// The error's message.
    pub fn message(&self) -> (r: &'static str)
        ensures
            r@ == "content migration type must be course_copy or file_import"@,
    {
        "content migration type must be course_copy or file_import"
    }
}

/// The content migration type that a lower-case, trimmed text names, if any.
pub open spec fn content_migration_type_named(s: Seq<char>) -> Option<ContentMigrationType> {
    if s == "course_copy"@ || s == "course_copy_importer"@ {
        Some(ContentMigrationType::CourseCopy)
    } else if s == "file_import"@ || s == "zip_file_importer"@ {
        Some(ContentMigrationType::FileImport)
    } else {
        None
    }
}

impl ContentMigrationType {
    /// The text of the content migration type as Canvas spells it.
    pub open spec fn text(self) -> Seq<char> {
        match self {
            ContentMigrationType::CourseCopy => "course_copy_importer"@,
            ContentMigrationType::FileImport => "zip_file_importer"@,
        }
    }

    /// The text of the content migration type as Canvas spells it.
    pub fn as_str(&self) -> (r: &'static str)
        ensures
            r@ == self.text(),
    {
        match self {
            ContentMigrationType::CourseCopy => "course_copy_importer",
            ContentMigrationType::FileImport => "zip_file_importer",
        }
    }

    /// Parses a content migration type, ignoring surrounding whitespace and ASCII case.
    pub fn parse(raw: &str) -> (r: Result<Self, ContentMigrationTypeParseError>)
        ensures
            match r {
                Ok(v) => content_migration_type_named(lower(trim(raw@))) == Some(v),
                Err(_) => content_migration_type_named(lower(trim(raw@))) is None,
            },
    {
        let lowered = to_ascii_lower(trim_str(raw));
        let key = lowered.as_str();
        if str_eq(key, "course_copy") || str_eq(key, "course_copy_importer") {
            Ok(ContentMigrationType::CourseCopy)
        } else if str_eq(key, "file_import") || str_eq(key, "zip_file_importer") {
            Ok(ContentMigrationType::FileImport)
        } else {
            Err(ContentMigrationTypeParseError::Invalid)
        }
    }
}

impl core::str::FromStr for ContentMigrationType {
    type Err = ContentMigrationTypeParseError;

    fn from_str(raw: &str) -> (r: Result<Self, Self::Err>)
        ensures
            match r {
                Ok(v) => content_migration_type_named(lower(trim(raw@))) == Some(v),
                Err(_) => content_migration_type_named(lower(trim(raw@))) is None,
            },
    {
        Self::parse(raw)
    }
}

/// Each content migration type's text parses back to that content migration type.
pub proof fn lemma_content_migration_type_roundtrip(v: ContentMigrationType)
    ensures
        content_migration_type_named(lower(trim(v.text()))) == Some(v),
{
    reveal_strlit("course_copy_importer");
    reveal_strlit("course_copy");
    reveal_strlit("zip_file_importer");
    reveal_strlit("file_import");
    lemma_keyword_normal(v.text());
    match v {
        ContentMigrationType::CourseCopy => {}
        ContentMigrationType::FileImport => {
            assert("zip_file_importer"@ != "course_copy"@);
            assert("zip_file_importer"@ != "course_copy_importer"@);
        }
    }
}

/// A module requirement type.
#[derive(Debug, Clone, Copy, PartialEq, Eq, Hash, Structural)]
pub enum ModuleRequirementType {
    View,
    Submit,
    Contribute,
    Score,
}

/// Why text is not a module requirement type.
#[derive(Debug, Clone, Copy, PartialEq, Eq, Structural)]
pub enum ModuleRequirementTypeParseError {
    Invalid,
}

impl ModuleRequirementTypeParseError {
    /// The error's message.
    pub fn message(&self) -> (r: &'static str)
        ensures
            r@ == "module requirement type must be view, submit, contribute, or score"@,
    {
        "module requirement type must be view, submit, contribute, or score"
    }
}

/// The module requirement type that a lower-case, trimmed text names, if any.
pub open spec fn module_requirement_type_named(s: Seq<char>) -> Option<ModuleRequirementType> {
    if s == "view"@ || s == "must_view"@ {
        Some(ModuleRequirementType::View)
    } else if s == "submit"@ || s == "must_submit"@ {
        Some(ModuleRequirementType::Submit)
    } else if s == "contribute"@ || s == "must_contribute"@ {
        Some(ModuleRequirementType::Contribute)
    } else if s == "score"@ || s == "min_score"@ {
        Some(ModuleRequirementType::Score)
    } else {
        None
    }
}

impl ModuleRequirementType {
    /// The text of the module requirement type as Canvas spells it.
    pub open spec fn text(self) -> Seq<char> {
        match self {
            ModuleRequirementType::View => "must_view"@,
            ModuleRequirementType::Submit => "must_submit"@,
            ModuleRequirementType::Contribute => "must_contribute"@,
            ModuleRequirementType::Score => "min_score"@,
        }
    }

    /// The text of the module requirement type as Canvas spells it.
    pub fn as_str(&self) -> (r: &'static str)
        ensures
            r@ == self.text(),
    {
        match self {
            ModuleRequirementType::View => "must_view",
            ModuleRequirementType::Submit => "must_submit",
            ModuleRequirementType::Contribute => "must_contribute",
            ModuleRequirementType::Score => "min_score",
        }
    }

    /// Parses a module requirement type, ignoring surrounding whitespace and ASCII case.
    pub fn parse(raw: &str) -> (r: Result<Self, ModuleRequirementTypeParseError>)
        ensures
            match r {
                Ok(v) => module_requirement_type_named(lower(trim(raw@))) == Some(v),
                Err(_) => module_requirement_type_named(lower(trim(raw@))) is None,
            },
    {
        let lowered = to_ascii_lower(trim_str(raw));
        let key = lowered.as_str();
        if str_eq(key, "view") || str_eq(key, "must_view") {
            Ok(ModuleRequirementType::View)
        } else if str_eq(key, "submit") || str_eq(key, "must_submit") {
            Ok(ModuleRequirementType::Submit)
        } else if str_eq(key, "contribute") || str_eq(key, "must_contribute") {
            Ok(ModuleRequirementType::Contribute)
        } else if str_eq(key, "score") || str_eq(key, "min_score") {
            Ok(ModuleRequirementType::Score)
        } else {
            Err(ModuleRequirementTypeParseError::Invalid)
        }
    }
}

impl core::str::FromStr for ModuleRequirementType {
    type Err = ModuleRequirementTypeParseError;

    fn from_str(raw: &str) -> (r: Result<Self, Self::Err>)
        ensures
            match r {
                Ok(v) => module_requirement_type_named(lower(trim(raw@))) == Some(v),
                Err(_) => module_requirement_type_named(lower(trim(raw@))) is None,
            },
    {
        Self::parse(raw)
    }
}

/// Each module requirement type's text parses back to that module requirement type.
pub proof fn lemma_module_requirement_type_roundtrip(v: ModuleRequirementType)
    ensures
        module_requirement_type_named(lower(trim(v.text()))) == Some(v),
{
    reveal_strlit("must_view");
    reveal_strlit("view");
    reveal_strlit("must_submit");
    reveal_strlit("submit");
    reveal_strlit("must_contribute");
    reveal_strlit("contribute");
    reveal_strlit("min_score");
    reveal_strlit("score");
    lemma_keyword_normal(v.text());
    match v {
        ModuleRequirementType::View => {}
        ModuleRequirementType::Submit => {
            assert("must_submit"@ != "view"@);
            assert("must_submit"@ != "must_view"@);
        }
        ModuleRequirementType::Contribute => {
            assert("must_contribute"@ != "view"@);
            assert("must_contribute"@ != "must_view"@);
            assert("must_contribute"@ != "submit"@);
            assert("must_contribute"@ != "must_submit"@);
        }
        ModuleRequirementType::Score => {
            assert("min_score"@ != "view"@);
            assert("min_score"@ != "must_view"@);
            assert("min_score"@ != "submit"@);
            assert("min_score"@ != "must_submit"@);
            assert("min_score"@ != "contribute"@);
            assert("min_score"@ != "must_contribute"@);
        }
    }
}

/// The service that hosts a collaboration.
#[derive(Debug, Clone, Copy, PartialEq, Eq, Hash, Structural)]
pub enum CollaborationType {
    GoogleDocs,
    Office365,
}

/// Why text is not a collaboration type.
#[derive(Debug, Clone, Copy, PartialEq, Eq, Structural)]
pub enum CollaborationTypeParseError {
    Invalid,
}

impl CollaborationTypeParseError {
    /// The error's message.
    pub fn message(&self) -> (r: &'static str)
        ensures
            r@ == "collaboration type must be 'google_docs' or 'office365'"@,
    {
        "collaboration type must be 'google_docs' or 'office365'"
    }
}

/// The collaboration type that a lower-case, trimmed text names, if any.
pub open spec fn collaboration_type_named(s: Seq<char>) -> Option<CollaborationType> {
    if s == "google_docs"@ {
        Some(CollaborationType::GoogleDocs)
    } else if s == "office365"@ {
        Some(CollaborationType::Office365)
    } else {
        None
    }
}

impl CollaborationType {
    /// The text of the collaboration type as Canvas spells it.
    pub open spec fn text(self) -> Seq<char> {
        match self {
            CollaborationType::GoogleDocs => "google_docs"@,
            CollaborationType::Office365 => "office365"@,
        }
    }

    /// The text of the collaboration type as Canvas spells it.
    pub fn as_str(&self) -> (r: &'static str)
        ensures
            r@ == self.text(),
    {
        match self {
            CollaborationType::GoogleDocs => "google_docs",
            CollaborationType::Office365 => "office365",
        }
    }

    /// Parses a collaboration type, ignoring surrounding whitespace and ASCII
    /// case.
    pub fn parse(raw: &str) -> (r: Result<Self, CollaborationTypeParseError>)
        ensures
            match r {
                Ok(v) => collaboration_type_named(lower(trim(raw@))) == Some(v),
                Err(_) => collaboration_type_named(lower(trim(raw@))) is None,
            },
    {
        let lowered = to_ascii_lower(trim_str(raw));
        let key = lowered.as_str();
        if str_eq(key, "google_docs") {
            Ok(CollaborationType::GoogleDocs)
        } else if str_eq(key, "office365") {
            Ok(CollaborationType::Office365)
        } else {
            Err(CollaborationTypeParseError::Invalid)
        }
    }
}

impl core::str::FromStr for CollaborationType {
    type Err = CollaborationTypeParseError;

    fn from_str(raw: &str) -> (r: Result<Self, Self::Err>)
        ensures
            match r {
                Ok(v) => collaboration_type_named(lower(trim(raw@))) == Some(v),
                Err(_) => collaboration_type_named(lower(trim(raw@))) is None,
            },
    {
        Self::parse(raw)
    }
}

/// Each collaboration type's text parses back to that collaboration type.
pub proof fn lemma_collaboration_type_roundtrip(v: CollaborationType)
    ensures
        collaboration_type_named(lower(trim(v.text()))) == Some(v),
{
    reveal_strlit("google_docs");
    reveal_strlit("office365");
    lemma_keyword_normal(v.text());
    match v {
        CollaborationType::GoogleDocs => {}
        CollaborationType::Office365 => {
            assert("office365"@ != "google_docs"@) by {
                assert("office365"@[0] != "google_docs"@[0]);
            }
        }
    }
}

/// Each question type's text, also written in capitals, parses back to that
/// question type; no two question types share a text; and every text ends
/// with `_question`.
pub proof fn lemma_question_type_texts(v: QuestionType, w: QuestionType)
    ensures
        question_type_named(lower(trim(upper(v.text())))) == Some(v),
        v.text() == w.text() ==> v == w,
        v.text().len() >= 9 && v.text().subrange(v.text().len() - 9, v.text().len() as int)
            == "_question"@,
{
    reveal_strlit("multiple_choice_question");
    reveal_strlit("multiple_answers_question");
    reveal_strlit("true_false_question");
    reveal_strlit("essay_question");
    reveal_strlit("short_answer_question");
    reveal_strlit("matching_question");
    reveal_strlit("fill_in_multiple_blanks_question");
    reveal_strlit("multiple_dropdowns_question");
    reveal_strlit("numerical_question");
    reveal_strlit("calculated_question");
    reveal_strlit("file_upload_question");
    reveal_strlit("text_only_question");
    reveal_strlit("_question");
    lemma_question_type_roundtrip(v);
    lemma_question_type_roundtrip(w);
    lemma_keyword_normal(v.text());
    lemma_keyword_upper_normal(v.text());
    let t = v.text();
    assert(t.subrange(t.len() - 9, t.len() as int) =~= "_question"@);
}

/// Each user role is spelled as Canvas spells it, and that spelling is read back
/// as the same user role.
pub proof fn lemma_user_role_spellings()
    ensures
        UserRole::Student.text() == "student"@ && user_role_named(lower(trim("student"@))) == Some(UserRole::Student),
        UserRole::Ta.text() == "ta"@ && user_role_named(lower(trim("ta"@))) == Some(UserRole::Ta),
        UserRole::Teacher.text() == "teacher"@ && user_role_named(lower(trim("teacher"@))) == Some(UserRole::Teacher),
{
    lemma_user_role_roundtrip(UserRole::Student);
    lemma_user_role_roundtrip(UserRole::Ta);
    lemma_user_role_roundtrip(UserRole::Teacher);
}

/// Each question type is spelled as Canvas spells it, and that spelling is read back
/// as the same question type.
pub proof fn lemma_question_type_spellings()
    ensures
        QuestionType::MultipleChoice.text() == "multiple_choice_question"@ && question_type_named(lower(trim("multiple_choice_question"@))) == Some(QuestionType::MultipleChoice),
        QuestionType::MultipleAnswers.text() == "multiple_answers_question"@ && question_type_named(lower(trim("multiple_answers_question"@))) == Some(QuestionType::MultipleAnswers),
        QuestionType::TrueFalse.text() == "true_false_question"@ && question_type_named(lower(trim("true_false_question"@))) == Some(QuestionType::TrueFalse),
        QuestionType::Essay.text() == "essay_question"@ && question_type_named(lower(trim("essay_question"@))) == Some(QuestionType::Essay),
        QuestionType::ShortAnswer.text() == "short_answer_question"@ && question_type_named(lower(trim("short_answer_question"@))) == Some(QuestionType::ShortAnswer),
        QuestionType::Matching.text() == "matching_question"@ && question_type_named(lower(trim("matching_question"@))) == Some(QuestionType::Matching),
        QuestionType::FillInMultipleBlanks.text() == "fill_in_multiple_blanks_question"@ && question_type_named(lower(trim("fill_in_multiple_blanks_question"@))) == Some(QuestionType::FillInMultipleBlanks),
        QuestionType::MultipleDropdowns.text() == "multiple_dropdowns_question"@ && question_type_named(lower(trim("multiple_dropdowns_question"@))) == Some(QuestionType::MultipleDropdowns),
        QuestionType::Numerical.text() == "numerical_question"@ && question_type_named(lower(trim("numerical_question"@))) == Some(QuestionType::Numerical),
        QuestionType::Calculated.text() == "calculated_question"@ && question_type_named(lower(trim("calculated_question"@))) == Some(QuestionType::Calculated),
        QuestionType::FileUpload.text() == "file_upload_question"@ && question_type_named(lower(trim("file_upload_question"@))) == Some(QuestionType::FileUpload),
        QuestionType::TextOnly.text() == "text_only_question"@ && question_type_named(lower(trim("text_only_question"@))) == Some(QuestionType::TextOnly),
{
    lemma_question_type_roundtrip(QuestionType::MultipleChoice);
    lemma_question_type_roundtrip(QuestionType::MultipleAnswers);
    lemma_question_type_roundtrip(QuestionType::TrueFalse);
    lemma_question_type_roundtrip(QuestionType::Essay);
    lemma_question_type_roundtrip(QuestionType::ShortAnswer);
    lemma_question_type_roundtrip(QuestionType::Matching);
    lemma_question_type_roundtrip(QuestionType::FillInMultipleBlanks);
    lemma_question_type_roundtrip(QuestionType::MultipleDropdowns);
    lemma_question_type_roundtrip(QuestionType::Numerical);
    lemma_question_type_roundtrip(QuestionType::Calculated);
    lemma_question_type_roundtrip(QuestionType::FileUpload);
    lemma_question_type_roundtrip(QuestionType::TextOnly);
}

/// Each publish state is spelled as Canvas spells it, and that spelling is read back
/// as the same publish state.
pub proof fn lemma_publish_state_spellings()
    ensures
        PublishState::Published.text() == "published"@ && publish_state_named(lower(trim("published"@))) == Some(PublishState::Published),
        PublishState::Unpublished.text() == "unpublished"@ && publish_state_named(lower(trim("unpublished"@))) == Some(PublishState::Unpublished),
{
    lemma_publish_state_roundtrip(PublishState::Published);
    lemma_publish_state_roundtrip(PublishState::Unpublished);
}

/// Each rubric selection is spelled as Canvas spells it, and that spelling is read back
/// as the same rubric selection.
pub proof fn lemma_rubric_selection_spellings()
    ensures
        RubricSelection::NoRubric.text() == "none"@ && rubric_selection_named(lower(trim("none"@))) == Some(RubricSelection::NoRubric),
        RubricSelection::Rubric.text() == "rubric"@ && rubric_selection_named(lower(trim("rubric"@))) == Some(RubricSelection::Rubric),
{
    lemma_rubric_selection_roundtrip(RubricSelection::NoRubric);
    lemma_rubric_selection_roundtrip(RubricSelection::Rubric);
}

/// Each course visibility is spelled as Canvas spells it, and that spelling is read back
/// as the same course visibility.
pub proof fn lemma_course_visibility_spellings()
    ensures
        CourseVisibility::Public.text() == "public"@ && course_visibility_named(lower(trim("public"@))) == Some(CourseVisibility::Public),
        CourseVisibility::Institution.text() == "institution"@ && course_visibility_named(lower(trim("institution"@))) == Some(CourseVisibility::Institution),
        CourseVisibility::Course.text() == "course"@ && course_visibility_named(lower(trim("course"@))) == Some(CourseVisibility::Course),
{
    lemma_course_visibility_roundtrip(CourseVisibility::Public);
    lemma_course_visibility_roundtrip(CourseVisibility::Institution);
    lemma_course_visibility_roundtrip(CourseVisibility::Course);
}

/// Each report type is spelled as Canvas spells it, and that spelling is read back
/// as the same report type.
pub proof fn lemma_report_type_spellings()
    ensures
        ReportType::GradebookExport.text() == "grade_export"@ && report_type_named(lower(trim("grade_export"@))) == Some(ReportType::GradebookExport),
        ReportType::MissingSubmissions.text() == "missing_submissions"@ && report_type_named(lower(trim("missing_submissions"@))) == Some(ReportType::MissingSubmissions),
        ReportType::CourseActivity.text() == "course_activity"@ && report_type_named(lower(trim("course_activity"@))) == Some(ReportType::CourseActivity),
{
    lemma_report_type_roundtrip(ReportType::GradebookExport);
    lemma_report_type_roundtrip(ReportType::MissingSubmissions);
    lemma_report_type_roundtrip(ReportType::CourseActivity);
}

/// Each peer review mode is spelled as Canvas spells it, and that spelling is read back
/// as the same peer review mode.
pub proof fn lemma_peer_review_mode_spellings()
    ensures
        PeerReviewMode::Automatic.text() == "automatic"@ && peer_review_mode_named(lower(trim("automatic"@))) == Some(PeerReviewMode::Automatic),
        PeerReviewMode::Manual.text() == "manual"@ && peer_review_mode_named(lower(trim("manual"@))) == Some(PeerReviewMode::Manual),
{
    lemma_peer_review_mode_roundtrip(PeerReviewMode::Automatic);
    lemma_peer_review_mode_roundtrip(PeerReviewMode::Manual);
}

/// Each group assignment mode is spelled as Canvas spells it, and that spelling is read back
/// as the same group assignment mode.
pub proof fn lemma_group_assignment_mode_spellings()
    ensures
        GroupAssignmentMode::Group.text() == "group"@ && group_assignment_mode_named(lower(trim("group"@))) == Some(GroupAssignmentMode::Group),
        GroupAssignmentMode::Individual.text() == "individual"@ && group_assignment_mode_named(lower(trim("individual"@))) == Some(GroupAssignmentMode::Individual),
{
    lemma_group_assignment_mode_roundtrip(GroupAssignmentMode::Group);
    lemma_group_assignment_mode_roundtrip(GroupAssignmentMode::Individual);
}

/// Each grading posting policy is spelled as Canvas spells it, and that spelling is read back
/// as the same grading posting policy.
pub proof fn lemma_grading_posting_policy_spellings()
    ensures
        GradingPostingPolicy::Automatic.text() == "automatic"@ && grading_posting_policy_named(lower(trim("automatic"@))) == Some(GradingPostingPolicy::Automatic),
        GradingPostingPolicy::Manual.text() == "manual"@ && grading_posting_policy_named(lower(trim("manual"@))) == Some(GradingPostingPolicy::Manual),
{
    lemma_grading_posting_policy_roundtrip(GradingPostingPolicy::Automatic);
    lemma_grading_posting_policy_roundtrip(GradingPostingPolicy::Manual);
}

/// Each muted state is spelled as Canvas spells it, and that spelling is read back
/// as the same muted state.
pub proof fn lemma_muted_state_spellings()
    ensures
        MutedState::Muted.text() == "muted"@ && muted_state_named(lower(trim("muted"@))) == Some(MutedState::Muted),
        MutedState::Unmuted.text() == "unmuted"@ && muted_state_named(lower(trim("unmuted"@))) == Some(MutedState::Unmuted),
{
    lemma_muted_state_roundtrip(MutedState::Muted);
    lemma_muted_state_roundtrip(MutedState::Unmuted);
}

/// Each content migration type is spelled as Canvas spells it, and that spelling is read back
/// as the same content migration type.
pub proof fn lemma_content_migration_type_spellings()
    ensures
        ContentMigrationType::CourseCopy.text() == "course_copy_importer"@ && content_migration_type_named(lower(trim("course_copy_importer"@))) == Some(ContentMigrationType::CourseCopy),
        ContentMigrationType::FileImport.text() == "zip_file_importer"@ && content_migration_type_named(lower(trim("zip_file_importer"@))) == Some(ContentMigrationType::FileImport),
{
    lemma_content_migration_type_roundtrip(ContentMigrationType::CourseCopy);
    lemma_content_migration_type_roundtrip(ContentMigrationType::FileImport);
}

/// Each module requirement type is spelled as Canvas spells it, and that spelling is read back
/// as the same module requirement type.
pub proof fn lemma_module_requirement_type_spellings()
    ensures
        ModuleRequirementType::View.text() == "must_view"@ && module_requirement_type_named(lower(trim("must_view"@))) == Some(ModuleRequirementType::View),
        ModuleRequirementType::Submit.text() == "must_submit"@ && module_requirement_type_named(lower(trim("must_submit"@))) == Some(ModuleRequirementType::Submit),
        ModuleRequirementType::Contribute.text() == "must_contribute"@ && module_requirement_type_named(lower(trim("must_contribute"@))) == Some(ModuleRequirementType::Contribute),
        ModuleRequirementType::Score.text() == "min_score"@ && module_requirement_type_named(lower(trim("min_score"@))) == Some(ModuleRequirementType::Score),
{
    lemma_module_requirement_type_roundtrip(ModuleRequirementType::View);
    lemma_module_requirement_type_roundtrip(ModuleRequirementType::Submit);
    lemma_module_requirement_type_roundtrip(ModuleRequirementType::Contribute);
    lemma_module_requirement_type_roundtrip(ModuleRequirementType::Score);
}

/// Each collaboration type is spelled as Canvas spells it, and that spelling is read back
/// as the same collaboration type.
pub proof fn lemma_collaboration_type_spellings()
    ensures
        CollaborationType::GoogleDocs.text() == "google_docs"@ && collaboration_type_named(lower(trim("google_docs"@))) == Some(CollaborationType::GoogleDocs),
        CollaborationType::Office365.text() == "office365"@ && collaboration_type_named(lower(trim("office365"@))) == Some(CollaborationType::Office365),
{
    lemma_collaboration_type_roundtrip(CollaborationType::GoogleDocs);
    lemma_collaboration_type_roundtrip(CollaborationType::Office365);
}

} // verus!
