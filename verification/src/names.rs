//! Validated names and texts of Canvas objects. Each is the trimmed input,
//! which must not be empty.

use crate::text::{is_clean_text, parse_clean_text, trim};
use vstd::prelude::*;

verus! {

/// A external tool name: non-empty text without surrounding whitespace.
#[derive(Debug, PartialEq, Eq, Hash)]
pub struct ExternalToolName(String);

impl Clone for ExternalToolName {
    fn clone(&self) -> (r: Self)
        ensures
            r@ == self@,
    {
        proof {
            use_type_invariant(self);
        }
        ExternalToolName(self.0.clone())
    }
}

/// Why text is not a external tool name.
#[derive(Debug, Clone, Copy, PartialEq, Eq, Structural)]
pub enum ExternalToolNameParseError {
    Empty,
}

impl ExternalToolNameParseError {
    /// The error's message.
    pub fn message(&self) -> (r: &'static str)
        ensures
            r@ == "external tool name cannot be empty"@,
    {
        "external tool name cannot be empty"
    }
}

impl View for ExternalToolName {
    type V = Seq<char>;

    closed spec fn view(&self) -> Seq<char> {
        self.0@
    }
}

impl ExternalToolName {
    #[verifier::type_invariant]
    closed spec fn is_clean(self) -> bool {
        is_clean_text(self.0@)
    }

    /// The text.
    pub fn as_str(&self) -> (r: &str)
        ensures
            r@ == self@,
            is_clean_text(r@),
    {
        proof {
            use_type_invariant(self);
        }
        self.0.as_str()
    }

    /// Parses a external tool name: the trimmed input, which must not be empty.
    pub fn parse(raw: &str) -> (r: Result<Self, ExternalToolNameParseError>)
        ensures
            match r {
                Ok(v) => trim(raw@).len() > 0 && v@ == trim(raw@),
                Err(_) => trim(raw@).len() == 0,
            },
    {
        match parse_clean_text(raw) {
            Some(t) => Ok(ExternalToolName(t)),
            None => Err(ExternalToolNameParseError::Empty),
        }
    }
}

impl core::str::FromStr for ExternalToolName {
    type Err = ExternalToolNameParseError;

    fn from_str(raw: &str) -> (r: Result<Self, Self::Err>)
        ensures
            match r {
                Ok(v) => trim(raw@).len() > 0 && v@ == trim(raw@),
                Err(_) => trim(raw@).len() == 0,
            },
    {
        Self::parse(raw)
    }
}

/// A external tool placement: non-empty text without surrounding whitespace.
#[derive(Debug, PartialEq, Eq, Hash)]
pub struct ExternalToolPlacement(String);

impl Clone for ExternalToolPlacement {
    fn clone(&self) -> (r: Self)
        ensures
            r@ == self@,
    {
        proof {
            use_type_invariant(self);
        }
        ExternalToolPlacement(self.0.clone())
    }
}

/// Why text is not a external tool placement.
#[derive(Debug, Clone, Copy, PartialEq, Eq, Structural)]
pub enum ExternalToolPlacementParseError {
    Empty,
}

impl ExternalToolPlacementParseError {
    /// The error's message.
    pub fn message(&self) -> (r: &'static str)
        ensures
            r@ == "external tool placement cannot be empty"@,
    {
        "external tool placement cannot be empty"
    }
}

impl View for ExternalToolPlacement {
    type V = Seq<char>;

    closed spec fn view(&self) -> Seq<char> {
        self.0@
    }
}

impl ExternalToolPlacement {
    #[verifier::type_invariant]
    closed spec fn is_clean(self) -> bool {
        is_clean_text(self.0@)
    }

    /// The text.
    pub fn as_str(&self) -> (r: &str)
        ensures
            r@ == self@,
            is_clean_text(r@),
    {
        proof {
            use_type_invariant(self);
        }
        self.0.as_str()
    }

    /// Parses a external tool placement: the trimmed input, which must not be empty.
    pub fn parse(raw: &str) -> (r: Result<Self, ExternalToolPlacementParseError>)
        ensures
            match r {
                Ok(v) => trim(raw@).len() > 0 && v@ == trim(raw@),
                Err(_) => trim(raw@).len() == 0,
            },
    {
        match parse_clean_text(raw) {
            Some(t) => Ok(ExternalToolPlacement(t)),
            None => Err(ExternalToolPlacementParseError::Empty),
        }
    }
}

impl core::str::FromStr for ExternalToolPlacement {
    type Err = ExternalToolPlacementParseError;

    fn from_str(raw: &str) -> (r: Result<Self, Self::Err>)
        ensures
            match r {
                Ok(v) => trim(raw@).len() > 0 && v@ == trim(raw@),
                Err(_) => trim(raw@).len() == 0,
            },
    {
        Self::parse(raw)
    }
}

/// A assignment name: non-empty text without surrounding whitespace.
#[derive(Debug, PartialEq, Eq, Hash)]
pub struct AssignmentName(String);

impl Clone for AssignmentName {
    fn clone(&self) -> (r: Self)
        ensures
            r@ == self@,
    {
        proof {
            use_type_invariant(self);
        }
        AssignmentName(self.0.clone())
    }
}

/// Why text is not a assignment name.
#[derive(Debug, Clone, Copy, PartialEq, Eq, Structural)]
pub enum AssignmentNameParseError {
    Empty,
}

impl AssignmentNameParseError {
    /// The error's message.
    pub fn message(&self) -> (r: &'static str)
        ensures
            r@ == "assignment name must not be empty"@,
    {
        "assignment name must not be empty"
    }
}

impl View for AssignmentName {
    type V = Seq<char>;

    closed spec fn view(&self) -> Seq<char> {
        self.0@
    }
}

impl AssignmentName {
    #[verifier::type_invariant]
    closed spec fn is_clean(self) -> bool {
        is_clean_text(self.0@)
    }

    /// The text.
    pub fn as_str(&self) -> (r: &str)
        ensures
            r@ == self@,
            is_clean_text(r@),
    {
        proof {
            use_type_invariant(self);
        }
        self.0.as_str()
    }

    /// Parses a assignment name: the trimmed input, which must not be empty.
    pub fn parse(raw: &str) -> (r: Result<Self, AssignmentNameParseError>)
        ensures
            match r {
                Ok(v) => trim(raw@).len() > 0 && v@ == trim(raw@),
                Err(_) => trim(raw@).len() == 0,
            },
    {
        match parse_clean_text(raw) {
            Some(t) => Ok(AssignmentName(t)),
            None => Err(AssignmentNameParseError::Empty),
        }
    }
}

impl core::str::FromStr for AssignmentName {
    type Err = AssignmentNameParseError;

    fn from_str(raw: &str) -> (r: Result<Self, Self::Err>)
        ensures
            match r {
                Ok(v) => trim(raw@).len() > 0 && v@ == trim(raw@),
                Err(_) => trim(raw@).len() == 0,
            },
    {
        Self::parse(raw)
    }
}

/// A outcome title: non-empty text without surrounding whitespace.
#[derive(Debug, PartialEq, Eq, Hash)]
pub struct OutcomeTitle(String);

impl Clone for OutcomeTitle {
    fn clone(&self) -> (r: Self)
        ensures
            r@ == self@,
    {
        proof {
            use_type_invariant(self);
        }
        OutcomeTitle(self.0.clone())
    }
}

/// Why text is not a outcome title.
#[derive(Debug, Clone, Copy, PartialEq, Eq, Structural)]
pub enum OutcomeTitleParseError {
    Empty,
}

impl OutcomeTitleParseError {
    /// The error's message.
    pub fn message(&self) -> (r: &'static str)
        ensures
            r@ == "outcome title must not be empty"@,
    {
        "outcome title must not be empty"
    }
}

impl View for OutcomeTitle {
    type V = Seq<char>;

    closed spec fn view(&self) -> Seq<char> {
        self.0@
    }
}

impl OutcomeTitle {
    #[verifier::type_invariant]
    closed spec fn is_clean(self) -> bool {
        is_clean_text(self.0@)
    }

    /// The text.
    pub fn as_str(&self) -> (r: &str)
        ensures
            r@ == self@,
            is_clean_text(r@),
    {
        proof {
            use_type_invariant(self);
        }
        self.0.as_str()
    }

    /// Parses a outcome title: the trimmed input, which must not be empty.
    pub fn parse(raw: &str) -> (r: Result<Self, OutcomeTitleParseError>)
        ensures
            match r {
                Ok(v) => trim(raw@).len() > 0 && v@ == trim(raw@),
                Err(_) => trim(raw@).len() == 0,
            },
    {
        match parse_clean_text(raw) {
            Some(t) => Ok(OutcomeTitle(t)),
            None => Err(OutcomeTitleParseError::Empty),
        }
    }
}

impl core::str::FromStr for OutcomeTitle {
    type Err = OutcomeTitleParseError;

    fn from_str(raw: &str) -> (r: Result<Self, Self::Err>)
        ensures
            match r {
                Ok(v) => trim(raw@).len() > 0 && v@ == trim(raw@),
                Err(_) => trim(raw@).len() == 0,
            },
    {
        Self::parse(raw)
    }
}

/// A outcome description: non-empty text without surrounding whitespace.
#[derive(Debug, PartialEq, Eq, Hash)]
pub struct OutcomeDescription(String);

impl Clone for OutcomeDescription {
    fn clone(&self) -> (r: Self)
        ensures
            r@ == self@,
    {
        proof {
            use_type_invariant(self);
        }
        OutcomeDescription(self.0.clone())
    }
}

/// Why text is not a outcome description.
#[derive(Debug, Clone, Copy, PartialEq, Eq, Structural)]
pub enum OutcomeDescriptionParseError {
    Empty,
}

impl OutcomeDescriptionParseError {
    /// The error's message.
    pub fn message(&self) -> (r: &'static str)
        ensures
            r@ == "outcome description must not be empty"@,
    {
        "outcome description must not be empty"
    }
}

impl View for OutcomeDescription {
    type V = Seq<char>;

    closed spec fn view(&self) -> Seq<char> {
        self.0@
    }
}

impl OutcomeDescription {
    #[verifier::type_invariant]
    closed spec fn is_clean(self) -> bool {
        is_clean_text(self.0@)
    }

    /// The text.
    pub fn as_str(&self) -> (r: &str)
        ensures
            r@ == self@,
            is_clean_text(r@),
    {
        proof {
            use_type_invariant(self);
        }
        self.0.as_str()
    }

    /// Parses a outcome description: the trimmed input, which must not be empty.
    pub fn parse(raw: &str) -> (r: Result<Self, OutcomeDescriptionParseError>)
        ensures
            match r {
                Ok(v) => trim(raw@).len() > 0 && v@ == trim(raw@),
                Err(_) => trim(raw@).len() == 0,
            },
    {
        match parse_clean_text(raw) {
            Some(t) => Ok(OutcomeDescription(t)),
            None => Err(OutcomeDescriptionParseError::Empty),
        }
    }
}

impl core::str::FromStr for OutcomeDescription {
    type Err = OutcomeDescriptionParseError;

    fn from_str(raw: &str) -> (r: Result<Self, Self::Err>)
        ensures
            match r {
                Ok(v) => trim(raw@).len() > 0 && v@ == trim(raw@),
                Err(_) => trim(raw@).len() == 0,
            },
    {
        Self::parse(raw)
    }
}

/// A rubric title: non-empty text without surrounding whitespace.
#[derive(Debug, PartialEq, Eq, Hash)]
pub struct RubricTitle(String);

impl Clone for RubricTitle {
    fn clone(&self) -> (r: Self)
        ensures
            r@ == self@,
    {
        proof {
            use_type_invariant(self);
        }
        RubricTitle(self.0.clone())
    }
}

/// Why text is not a rubric title.
#[derive(Debug, Clone, Copy, PartialEq, Eq, Structural)]
pub enum RubricTitleParseError {
    Empty,
}

impl RubricTitleParseError {
    /// The error's message.
    pub fn message(&self) -> (r: &'static str)
        ensures
            r@ == "rubric title must not be empty"@,
    {
        "rubric title must not be empty"
    }
}

impl View for RubricTitle {
    type V = Seq<char>;

    closed spec fn view(&self) -> Seq<char> {
        self.0@
    }
}

impl RubricTitle {
    #[verifier::type_invariant]
    closed spec fn is_clean(self) -> bool {
        is_clean_text(self.0@)
    }

    /// The text.
    pub fn as_str(&self) -> (r: &str)
        ensures
            r@ == self@,
            is_clean_text(r@),
    {
        proof {
            use_type_invariant(self);
        }
        self.0.as_str()
    }

    /// Parses a rubric title: the trimmed input, which must not be empty.
    pub fn parse(raw: &str) -> (r: Result<Self, RubricTitleParseError>)
        ensures
            match r {
                Ok(v) => trim(raw@).len() > 0 && v@ == trim(raw@),
                Err(_) => trim(raw@).len() == 0,
            },
    {
        match parse_clean_text(raw) {
            Some(t) => Ok(RubricTitle(t)),
            None => Err(RubricTitleParseError::Empty),
        }
    }
}

impl core::str::FromStr for RubricTitle {
    type Err = RubricTitleParseError;

    fn from_str(raw: &str) -> (r: Result<Self, Self::Err>)
        ensures
            match r {
                Ok(v) => trim(raw@).len() > 0 && v@ == trim(raw@),
                Err(_) => trim(raw@).len() == 0,
            },
    {
        Self::parse(raw)
    }
}

/// A calendar event title: non-empty text without surrounding whitespace.
#[derive(Debug, PartialEq, Eq, Hash)]
pub struct CalendarEventTitle(String);

impl Clone for CalendarEventTitle {
    fn clone(&self) -> (r: Self)
        ensures
            r@ == self@,
    {
        proof {
            use_type_invariant(self);
        }
        CalendarEventTitle(self.0.clone())
    }
}

/// Why text is not a calendar event title.
#[derive(Debug, Clone, Copy, PartialEq, Eq, Structural)]
pub enum CalendarEventTitleParseError {
    Empty,
}

impl CalendarEventTitleParseError {
    /// The error's message.
    pub fn message(&self) -> (r: &'static str)
        ensures
            r@ == "calendar event title must not be empty"@,
    {
        "calendar event title must not be empty"
    }
}

impl View for CalendarEventTitle {
    type V = Seq<char>;

    closed spec fn view(&self) -> Seq<char> {
        self.0@
    }
}

impl CalendarEventTitle {
    #[verifier::type_invariant]
    closed spec fn is_clean(self) -> bool {
        is_clean_text(self.0@)
    }

    /// The text.
    pub fn as_str(&self) -> (r: &str)
        ensures
            r@ == self@,
            is_clean_text(r@),
    {
        proof {
            use_type_invariant(self);
        }
        self.0.as_str()
    }

    /// Parses a calendar event title: the trimmed input, which must not be empty.
    pub fn parse(raw: &str) -> (r: Result<Self, CalendarEventTitleParseError>)
        ensures
            match r {
                Ok(v) => trim(raw@).len() > 0 && v@ == trim(raw@),
                Err(_) => trim(raw@).len() == 0,
            },
    {
        match parse_clean_text(raw) {
            Some(t) => Ok(CalendarEventTitle(t)),
            None => Err(CalendarEventTitleParseError::Empty),
        }
    }
}

impl core::str::FromStr for CalendarEventTitle {
    type Err = CalendarEventTitleParseError;

    fn from_str(raw: &str) -> (r: Result<Self, Self::Err>)
        ensures
            match r {
                Ok(v) => trim(raw@).len() > 0 && v@ == trim(raw@),
                Err(_) => trim(raw@).len() == 0,
            },
    {
        Self::parse(raw)
    }
}

/// A quiz title: non-empty text without surrounding whitespace.
#[derive(Debug, PartialEq, Eq, Hash)]
pub struct QuizTitle(String);

impl Clone for QuizTitle {
    fn clone(&self) -> (r: Self)
        ensures
            r@ == self@,
    {
        proof {
            use_type_invariant(self);
        }
        QuizTitle(self.0.clone())
    }
}

/// Why text is not a quiz title.
#[derive(Debug, Clone, Copy, PartialEq, Eq, Structural)]
pub enum QuizTitleParseError {
    Empty,
}

impl QuizTitleParseError {
    /// The error's message.
    pub fn message(&self) -> (r: &'static str)
        ensures
            r@ == "quiz title must not be empty"@,
    {
        "quiz title must not be empty"
    }
}

impl View for QuizTitle {
    type V = Seq<char>;

    closed spec fn view(&self) -> Seq<char> {
        self.0@
    }
}

impl QuizTitle {
    #[verifier::type_invariant]
    closed spec fn is_clean(self) -> bool {
        is_clean_text(self.0@)
    }

    /// The text.
    pub fn as_str(&self) -> (r: &str)
        ensures
            r@ == self@,
            is_clean_text(r@),
    {
        proof {
            use_type_invariant(self);
        }
        self.0.as_str()
    }

    /// Parses a quiz title: the trimmed input, which must not be empty.
    pub fn parse(raw: &str) -> (r: Result<Self, QuizTitleParseError>)
        ensures
            match r {
                Ok(v) => trim(raw@).len() > 0 && v@ == trim(raw@),
                Err(_) => trim(raw@).len() == 0,
            },
    {
        match parse_clean_text(raw) {
            Some(t) => Ok(QuizTitle(t)),
            None => Err(QuizTitleParseError::Empty),
        }
    }
}

impl core::str::FromStr for QuizTitle {
    type Err = QuizTitleParseError;

    fn from_str(raw: &str) -> (r: Result<Self, Self::Err>)
        ensures
            match r {
                Ok(v) => trim(raw@).len() > 0 && v@ == trim(raw@),
                Err(_) => trim(raw@).len() == 0,
            },
    {
        Self::parse(raw)
    }
}

/// A question bank title: non-empty text without surrounding whitespace.
#[derive(Debug, PartialEq, Eq, Hash)]
pub struct QuestionBankTitle(String);

impl Clone for QuestionBankTitle {
    fn clone(&self) -> (r: Self)
        ensures
            r@ == self@,
    {
        proof {
            use_type_invariant(self);
        }
        QuestionBankTitle(self.0.clone())
    }
}

/// Why text is not a question bank title.
#[derive(Debug, Clone, Copy, PartialEq, Eq, Structural)]
pub enum QuestionBankTitleParseError {
    Empty,
}

impl QuestionBankTitleParseError {
    /// The error's message.
    pub fn message(&self) -> (r: &'static str)
        ensures
            r@ == "question bank title must not be empty"@,
    {
        "question bank title must not be empty"
    }
}

impl View for QuestionBankTitle {
    type V = Seq<char>;

    closed spec fn view(&self) -> Seq<char> {
        self.0@
    }
}

impl QuestionBankTitle {
    #[verifier::type_invariant]
    closed spec fn is_clean(self) -> bool {
        is_clean_text(self.0@)
    }

    /// The text.
    pub fn as_str(&self) -> (r: &str)
        ensures
            r@ == self@,
            is_clean_text(r@),
    {
        proof {
            use_type_invariant(self);
        }
        self.0.as_str()
    }

    /// Parses a question bank title: the trimmed input, which must not be empty.
    pub fn parse(raw: &str) -> (r: Result<Self, QuestionBankTitleParseError>)
        ensures
            match r {
                Ok(v) => trim(raw@).len() > 0 && v@ == trim(raw@),
                Err(_) => trim(raw@).len() == 0,
            },
    {
        match parse_clean_text(raw) {
            Some(t) => Ok(QuestionBankTitle(t)),
            None => Err(QuestionBankTitleParseError::Empty),
        }
    }
}

impl core::str::FromStr for QuestionBankTitle {
    type Err = QuestionBankTitleParseError;

    fn from_str(raw: &str) -> (r: Result<Self, Self::Err>)
        ensures
            match r {
                Ok(v) => trim(raw@).len() > 0 && v@ == trim(raw@),
                Err(_) => trim(raw@).len() == 0,
            },
    {
        Self::parse(raw)
    }
}

/// A question name: non-empty text without surrounding whitespace.
#[derive(Debug, PartialEq, Eq, Hash)]
pub struct QuestionName(String);

impl Clone for QuestionName {
    fn clone(&self) -> (r: Self)
        ensures
            r@ == self@,
    {
        proof {
            use_type_invariant(self);
        }
        QuestionName(self.0.clone())
    }
}

/// Why text is not a question name.
#[derive(Debug, Clone, Copy, PartialEq, Eq, Structural)]
pub enum QuestionNameParseError {
    Empty,
}

impl QuestionNameParseError {
    /// The error's message.
    pub fn message(&self) -> (r: &'static str)
        ensures
            r@ == "question name must not be empty"@,
    {
        "question name must not be empty"
    }
}

impl View for QuestionName {
    type V = Seq<char>;

    closed spec fn view(&self) -> Seq<char> {
        self.0@
    }
}

impl QuestionName {
    #[verifier::type_invariant]
    closed spec fn is_clean(self) -> bool {
        is_clean_text(self.0@)
    }

    /// The text.
    pub fn as_str(&self) -> (r: &str)
        ensures
            r@ == self@,
            is_clean_text(r@),
    {
        proof {
            use_type_invariant(self);
        }
        self.0.as_str()
    }

    /// Parses a question name: the trimmed input, which must not be empty.
    pub fn parse(raw: &str) -> (r: Result<Self, QuestionNameParseError>)
        ensures
            match r {
                Ok(v) => trim(raw@).len() > 0 && v@ == trim(raw@),
                Err(_) => trim(raw@).len() == 0,
            },
    {
        match parse_clean_text(raw) {
            Some(t) => Ok(QuestionName(t)),
            None => Err(QuestionNameParseError::Empty),
        }
    }
}

impl core::str::FromStr for QuestionName {
    type Err = QuestionNameParseError;

    fn from_str(raw: &str) -> (r: Result<Self, Self::Err>)
        ensures
            match r {
                Ok(v) => trim(raw@).len() > 0 && v@ == trim(raw@),
                Err(_) => trim(raw@).len() == 0,
            },
    {
        Self::parse(raw)
    }
}

/// A question text: non-empty text without surrounding whitespace.
#[derive(Debug, PartialEq, Eq, Hash)]
pub struct QuestionText(String);

impl Clone for QuestionText {
    fn clone(&self) -> (r: Self)
        ensures
            r@ == self@,
    {
        proof {
            use_type_invariant(self);
        }
        QuestionText(self.0.clone())
    }
}

/// Why text is not a question text.
#[derive(Debug, Clone, Copy, PartialEq, Eq, Structural)]
pub enum QuestionTextParseError {
    Empty,
}

impl QuestionTextParseError {
    /// The error's message.
    pub fn message(&self) -> (r: &'static str)
        ensures
            r@ == "question text must not be empty"@,
    {
        "question text must not be empty"
    }
}

impl View for QuestionText {
    type V = Seq<char>;

    closed spec fn view(&self) -> Seq<char> {
        self.0@
    }
}

impl QuestionText {
    #[verifier::type_invariant]
    closed spec fn is_clean(self) -> bool {
        is_clean_text(self.0@)
    }

    /// The text.
    pub fn as_str(&self) -> (r: &str)
        ensures
            r@ == self@,
            is_clean_text(r@),
    {
        proof {
            use_type_invariant(self);
        }
        self.0.as_str()
    }

    /// Parses a question text: the trimmed input, which must not be empty.
    pub fn parse(raw: &str) -> (r: Result<Self, QuestionTextParseError>)
        ensures
            match r {
                Ok(v) => trim(raw@).len() > 0 && v@ == trim(raw@),
                Err(_) => trim(raw@).len() == 0,
            },
    {
        match parse_clean_text(raw) {
            Some(t) => Ok(QuestionText(t)),
            None => Err(QuestionTextParseError::Empty),
        }
    }
}

impl core::str::FromStr for QuestionText {
    type Err = QuestionTextParseError;

    fn from_str(raw: &str) -> (r: Result<Self, Self::Err>)
        ensures
            match r {
                Ok(v) => trim(raw@).len() > 0 && v@ == trim(raw@),
                Err(_) => trim(raw@).len() == 0,
            },
    {
        Self::parse(raw)
    }
}

/// A page id: non-empty text without surrounding whitespace.
#[derive(Debug, PartialEq, Eq, Hash)]
pub struct PageId(String);

impl Clone for PageId {
    fn clone(&self) -> (r: Self)
        ensures
            r@ == self@,
    {
        proof {
            use_type_invariant(self);
        }
        PageId(self.0.clone())
    }
}

/// Why text is not a page id.
#[derive(Debug, Clone, Copy, PartialEq, Eq, Structural)]
pub enum PageIdParseError {
    Empty,
}

impl PageIdParseError {
    /// The error's message.
    pub fn message(&self) -> (r: &'static str)
        ensures
            r@ == "page id must not be empty"@,
    {
        "page id must not be empty"
    }
}

impl View for PageId {
    type V = Seq<char>;

    closed spec fn view(&self) -> Seq<char> {
        self.0@
    }
}

impl PageId {
    #[verifier::type_invariant]
    closed spec fn is_clean(self) -> bool {
        is_clean_text(self.0@)
    }

    /// The text.
    pub fn as_str(&self) -> (r: &str)
        ensures
            r@ == self@,
            is_clean_text(r@),
    {
        proof {
            use_type_invariant(self);
        }
        self.0.as_str()
    }

    /// Parses a page id: the trimmed input, which must not be empty.
    pub fn parse(raw: &str) -> (r: Result<Self, PageIdParseError>)
        ensures
            match r {
                Ok(v) => trim(raw@).len() > 0 && v@ == trim(raw@),
                Err(_) => trim(raw@).len() == 0,
            },
    {
        match parse_clean_text(raw) {
            Some(t) => Ok(PageId(t)),
            None => Err(PageIdParseError::Empty),
        }
    }
}

impl core::str::FromStr for PageId {
    type Err = PageIdParseError;

    fn from_str(raw: &str) -> (r: Result<Self, Self::Err>)
        ensures
            match r {
                Ok(v) => trim(raw@).len() > 0 && v@ == trim(raw@),
                Err(_) => trim(raw@).len() == 0,
            },
    {
        Self::parse(raw)
    }
}

/// A page title: non-empty text without surrounding whitespace.
#[derive(Debug, PartialEq, Eq, Hash)]
pub struct PageTitle(String);

impl Clone for PageTitle {
    fn clone(&self) -> (r: Self)
        ensures
            r@ == self@,
    {
        proof {
            use_type_invariant(self);
        }
        PageTitle(self.0.clone())
    }
}

/// Why text is not a page title.
#[derive(Debug, Clone, Copy, PartialEq, Eq, Structural)]
pub enum PageTitleParseError {
    Empty,
}

impl PageTitleParseError {
    /// The error's message.
    pub fn message(&self) -> (r: &'static str)
        ensures
            r@ == "page title must not be empty"@,
    {
        "page title must not be empty"
    }
}

impl View for PageTitle {
    type V = Seq<char>;

    closed spec fn view(&self) -> Seq<char> {
        self.0@
    }
}

impl PageTitle {
    #[verifier::type_invariant]
    closed spec fn is_clean(self) -> bool {
        is_clean_text(self.0@)
    }

    /// The text.
    pub fn as_str(&self) -> (r: &str)
        ensures
            r@ == self@,
            is_clean_text(r@),
    {
        proof {
            use_type_invariant(self);
        }
        self.0.as_str()
    }

    /// Parses a page title: the trimmed input, which must not be empty.
    pub fn parse(raw: &str) -> (r: Result<Self, PageTitleParseError>)
        ensures
            match r {
                Ok(v) => trim(raw@).len() > 0 && v@ == trim(raw@),
                Err(_) => trim(raw@).len() == 0,
            },
    {
        match parse_clean_text(raw) {
            Some(t) => Ok(PageTitle(t)),
            None => Err(PageTitleParseError::Empty),
        }
    }
}

impl core::str::FromStr for PageTitle {
    type Err = PageTitleParseError;

    fn from_str(raw: &str) -> (r: Result<Self, Self::Err>)
        ensures
            match r {
                Ok(v) => trim(raw@).len() > 0 && v@ == trim(raw@),
                Err(_) => trim(raw@).len() == 0,
            },
    {
        Self::parse(raw)
    }
}

/// A page body: non-empty text without surrounding whitespace.
#[derive(Debug, PartialEq, Eq, Hash)]
pub struct PageBody(String);

impl Clone for PageBody {
    fn clone(&self) -> (r: Self)
        ensures
            r@ == self@,
    {
        proof {
            use_type_invariant(self);
        }
        PageBody(self.0.clone())
    }
}

/// Why text is not a page body.
#[derive(Debug, Clone, Copy, PartialEq, Eq, Structural)]
pub enum PageBodyParseError {
    Empty,
}

impl PageBodyParseError {
    /// The error's message.
    pub fn message(&self) -> (r: &'static str)
        ensures
            r@ == "page body must not be empty"@,
    {
        "page body must not be empty"
    }
}

impl View for PageBody {
    type V = Seq<char>;

    closed spec fn view(&self) -> Seq<char> {
        self.0@
    }
}

impl PageBody {
    #[verifier::type_invariant]
    closed spec fn is_clean(self) -> bool {
        is_clean_text(self.0@)
    }

    /// The text.
    pub fn as_str(&self) -> (r: &str)
        ensures
            r@ == self@,
            is_clean_text(r@),
    {
        proof {
            use_type_invariant(self);
        }
        self.0.as_str()
    }

    /// Parses a page body: the trimmed input, which must not be empty.
    pub fn parse(raw: &str) -> (r: Result<Self, PageBodyParseError>)
        ensures
            match r {
                Ok(v) => trim(raw@).len() > 0 && v@ == trim(raw@),
                Err(_) => trim(raw@).len() == 0,
            },
    {
        match parse_clean_text(raw) {
            Some(t) => Ok(PageBody(t)),
            None => Err(PageBodyParseError::Empty),
        }
    }
}

impl core::str::FromStr for PageBody {
    type Err = PageBodyParseError;

    fn from_str(raw: &str) -> (r: Result<Self, Self::Err>)
        ensures
            match r {
                Ok(v) => trim(raw@).len() > 0 && v@ == trim(raw@),
                Err(_) => trim(raw@).len() == 0,
            },
    {
        Self::parse(raw)
    }
}

/// A message subject: non-empty text without surrounding whitespace.
#[derive(Debug, PartialEq, Eq, Hash)]
pub struct MessageSubject(String);

impl Clone for MessageSubject {
    fn clone(&self) -> (r: Self)
        ensures
            r@ == self@,
    {
        proof {
            use_type_invariant(self);
        }
        MessageSubject(self.0.clone())
    }
}

/// Why text is not a message subject.
#[derive(Debug, Clone, Copy, PartialEq, Eq, Structural)]
pub enum MessageSubjectParseError {
    Empty,
}

impl MessageSubjectParseError {
    /// The error's message.
    pub fn message(&self) -> (r: &'static str)
        ensures
            r@ == "message subject must not be empty"@,
    {
        "message subject must not be empty"
    }
}

impl View for MessageSubject {
    type V = Seq<char>;

    closed spec fn view(&self) -> Seq<char> {
        self.0@
    }
}

impl MessageSubject {
    #[verifier::type_invariant]
    closed spec fn is_clean(self) -> bool {
        is_clean_text(self.0@)
    }

    /// The text.
    pub fn as_str(&self) -> (r: &str)
        ensures
            r@ == self@,
            is_clean_text(r@),
    {
        proof {
            use_type_invariant(self);
        }
        self.0.as_str()
    }

    /// Parses a message subject: the trimmed input, which must not be empty.
    pub fn parse(raw: &str) -> (r: Result<Self, MessageSubjectParseError>)
        ensures
            match r {
                Ok(v) => trim(raw@).len() > 0 && v@ == trim(raw@),
                Err(_) => trim(raw@).len() == 0,
            },
    {
        match parse_clean_text(raw) {
            Some(t) => Ok(MessageSubject(t)),
            None => Err(MessageSubjectParseError::Empty),
        }
    }
}

impl core::str::FromStr for MessageSubject {
    type Err = MessageSubjectParseError;

    fn from_str(raw: &str) -> (r: Result<Self, Self::Err>)
        ensures
            match r {
                Ok(v) => trim(raw@).len() > 0 && v@ == trim(raw@),
                Err(_) => trim(raw@).len() == 0,
            },
    {
        Self::parse(raw)
    }
}

/// A message body: non-empty text without surrounding whitespace.
#[derive(Debug, PartialEq, Eq, Hash)]
pub struct MessageBody(String);

impl Clone for MessageBody {
    fn clone(&self) -> (r: Self)
        ensures
            r@ == self@,
    {
        proof {
            use_type_invariant(self);
        }
        MessageBody(self.0.clone())
    }
}

/// Why text is not a message body.
#[derive(Debug, Clone, Copy, PartialEq, Eq, Structural)]
pub enum MessageBodyParseError {
    Empty,
}

impl MessageBodyParseError {
    /// The error's message.
    pub fn message(&self) -> (r: &'static str)
        ensures
            r@ == "message body must not be empty"@,
    {
        "message body must not be empty"
    }
}

impl View for MessageBody {
    type V = Seq<char>;

    closed spec fn view(&self) -> Seq<char> {
        self.0@
    }
}

impl MessageBody {
    #[verifier::type_invariant]
    closed spec fn is_clean(self) -> bool {
        is_clean_text(self.0@)
    }

    /// The text.
    pub fn as_str(&self) -> (r: &str)
        ensures
            r@ == self@,
            is_clean_text(r@),
    {
        proof {
            use_type_invariant(self);
        }
        self.0.as_str()
    }

    /// Parses a message body: the trimmed input, which must not be empty.
    pub fn parse(raw: &str) -> (r: Result<Self, MessageBodyParseError>)
        ensures
            match r {
                Ok(v) => trim(raw@).len() > 0 && v@ == trim(raw@),
                Err(_) => trim(raw@).len() == 0,
            },
    {
        match parse_clean_text(raw) {
            Some(t) => Ok(MessageBody(t)),
            None => Err(MessageBodyParseError::Empty),
        }
    }
}

impl core::str::FromStr for MessageBody {
    type Err = MessageBodyParseError;

    fn from_str(raw: &str) -> (r: Result<Self, Self::Err>)
        ensures
            match r {
                Ok(v) => trim(raw@).len() > 0 && v@ == trim(raw@),
                Err(_) => trim(raw@).len() == 0,
            },
    {
        Self::parse(raw)
    }
}

/// A module name: non-empty text without surrounding whitespace.
#[derive(Debug, PartialEq, Eq, Hash)]
pub struct ModuleName(String);

impl Clone for ModuleName {
    fn clone(&self) -> (r: Self)
        ensures
            r@ == self@,
    {
        proof {
            use_type_invariant(self);
        }
        ModuleName(self.0.clone())
    }
}

/// Why text is not a module name.
#[derive(Debug, Clone, Copy, PartialEq, Eq, Structural)]
pub enum ModuleNameParseError {
    Empty,
}

impl ModuleNameParseError {
    /// The error's message.
    pub fn message(&self) -> (r: &'static str)
        ensures
            r@ == "module name must not be empty"@,
    {
        "module name must not be empty"
    }
}

impl View for ModuleName {
    type V = Seq<char>;

    closed spec fn view(&self) -> Seq<char> {
        self.0@
    }
}

impl ModuleName {
    #[verifier::type_invariant]
    closed spec fn is_clean(self) -> bool {
        is_clean_text(self.0@)
    }

    /// The text.
    pub fn as_str(&self) -> (r: &str)
        ensures
            r@ == self@,
            is_clean_text(r@),
    {
        proof {
            use_type_invariant(self);
        }
        self.0.as_str()
    }

    /// Parses a module name: the trimmed input, which must not be empty.
    pub fn parse(raw: &str) -> (r: Result<Self, ModuleNameParseError>)
        ensures
            match r {
                Ok(v) => trim(raw@).len() > 0 && v@ == trim(raw@),
                Err(_) => trim(raw@).len() == 0,
            },
    {
        match parse_clean_text(raw) {
            Some(t) => Ok(ModuleName(t)),
            None => Err(ModuleNameParseError::Empty),
        }
    }
}

impl core::str::FromStr for ModuleName {
    type Err = ModuleNameParseError;

    fn from_str(raw: &str) -> (r: Result<Self, Self::Err>)
        ensures
            match r {
                Ok(v) => trim(raw@).len() > 0 && v@ == trim(raw@),
                Err(_) => trim(raw@).len() == 0,
            },
    {
        Self::parse(raw)
    }
}

/// A folder name: non-empty text without surrounding whitespace.
#[derive(Debug, PartialEq, Eq, Hash)]
pub struct FolderName(String);

impl Clone for FolderName {
    fn clone(&self) -> (r: Self)
        ensures
            r@ == self@,
    {
        proof {
            use_type_invariant(self);
        }
        FolderName(self.0.clone())
    }
}

/// Why text is not a folder name.
#[derive(Debug, Clone, Copy, PartialEq, Eq, Structural)]
pub enum FolderNameParseError {
    Empty,
}

impl FolderNameParseError {
    /// The error's message.
    pub fn message(&self) -> (r: &'static str)
        ensures
            r@ == "folder name must not be empty"@,
    {
        "folder name must not be empty"
    }
}

impl View for FolderName {
    type V = Seq<char>;

    closed spec fn view(&self) -> Seq<char> {
        self.0@
    }
}

impl FolderName {
    #[verifier::type_invariant]
    closed spec fn is_clean(self) -> bool {
        is_clean_text(self.0@)
    }

    /// The text.
    pub fn as_str(&self) -> (r: &str)
        ensures
            r@ == self@,
            is_clean_text(r@),
    {
        proof {
            use_type_invariant(self);
        }
        self.0.as_str()
    }

    /// Parses a folder name: the trimmed input, which must not be empty.
    pub fn parse(raw: &str) -> (r: Result<Self, FolderNameParseError>)
        ensures
            match r {
                Ok(v) => trim(raw@).len() > 0 && v@ == trim(raw@),
                Err(_) => trim(raw@).len() == 0,
            },
    {
        match parse_clean_text(raw) {
            Some(t) => Ok(FolderName(t)),
            None => Err(FolderNameParseError::Empty),
        }
    }
}

impl core::str::FromStr for FolderName {
    type Err = FolderNameParseError;

    fn from_str(raw: &str) -> (r: Result<Self, Self::Err>)
        ensures
            match r {
                Ok(v) => trim(raw@).len() > 0 && v@ == trim(raw@),
                Err(_) => trim(raw@).len() == 0,
            },
    {
        Self::parse(raw)
    }
}

/// A group name: non-empty text without surrounding whitespace.
#[derive(Debug, PartialEq, Eq, Hash)]
pub struct GroupName(String);

impl Clone for GroupName {
    fn clone(&self) -> (r: Self)
        ensures
            r@ == self@,
    {
        proof {
            use_type_invariant(self);
        }
        GroupName(self.0.clone())
    }
}

/// Why text is not a group name.
#[derive(Debug, Clone, Copy, PartialEq, Eq, Structural)]
pub enum GroupNameParseError {
    Empty,
}

impl GroupNameParseError {
    /// The error's message.
    pub fn message(&self) -> (r: &'static str)
        ensures
            r@ == "group name must not be empty"@,
    {
        "group name must not be empty"
    }
}

impl View for GroupName {
    type V = Seq<char>;

    closed spec fn view(&self) -> Seq<char> {
        self.0@
    }
}

impl GroupName {
    #[verifier::type_invariant]
    closed spec fn is_clean(self) -> bool {
        is_clean_text(self.0@)
    }

    /// The text.
    pub fn as_str(&self) -> (r: &str)
        ensures
            r@ == self@,
            is_clean_text(r@),
    {
        proof {
            use_type_invariant(self);
        }
        self.0.as_str()
    }

    /// Parses a group name: the trimmed input, which must not be empty.
    pub fn parse(raw: &str) -> (r: Result<Self, GroupNameParseError>)
        ensures
            match r {
                Ok(v) => trim(raw@).len() > 0 && v@ == trim(raw@),
                Err(_) => trim(raw@).len() == 0,
            },
    {
        match parse_clean_text(raw) {
            Some(t) => Ok(GroupName(t)),
            None => Err(GroupNameParseError::Empty),
        }
    }
}

impl core::str::FromStr for GroupName {
    type Err = GroupNameParseError;

    fn from_str(raw: &str) -> (r: Result<Self, Self::Err>)
        ensures
            match r {
                Ok(v) => trim(raw@).len() > 0 && v@ == trim(raw@),
                Err(_) => trim(raw@).len() == 0,
            },
    {
        Self::parse(raw)
    }
}

/// A quiz access code: non-empty text without surrounding whitespace.
#[derive(Debug, PartialEq, Eq, Hash)]
pub struct QuizAccessCode(String);

impl Clone for QuizAccessCode {
    fn clone(&self) -> (r: Self)
        ensures
            r@ == self@,
    {
        proof {
            use_type_invariant(self);
        }
        QuizAccessCode(self.0.clone())
    }
}

/// Why text is not a quiz access code.
#[derive(Debug, Clone, Copy, PartialEq, Eq, Structural)]
pub enum QuizAccessCodeParseError {
    Empty,
}

impl QuizAccessCodeParseError {
    /// The error's message.
    pub fn message(&self) -> (r: &'static str)
        ensures
            r@ == "quiz access code must not be empty"@,
    {
        "quiz access code must not be empty"
    }
}

impl View for QuizAccessCode {
    type V = Seq<char>;

    closed spec fn view(&self) -> Seq<char> {
        self.0@
    }
}

impl QuizAccessCode {
    #[verifier::type_invariant]
    closed spec fn is_clean(self) -> bool {
        is_clean_text(self.0@)
    }

    /// The text.
    pub fn as_str(&self) -> (r: &str)
        ensures
            r@ == self@,
            is_clean_text(r@),
    {
        proof {
            use_type_invariant(self);
        }
        self.0.as_str()
    }

    /// Parses a quiz access code: the trimmed input, which must not be empty.
    pub fn parse(raw: &str) -> (r: Result<Self, QuizAccessCodeParseError>)
        ensures
            match r {
                Ok(v) => trim(raw@).len() > 0 && v@ == trim(raw@),
                Err(_) => trim(raw@).len() == 0,
            },
    {
        match parse_clean_text(raw) {
            Some(t) => Ok(QuizAccessCode(t)),
            None => Err(QuizAccessCodeParseError::Empty),
        }
    }
}

impl core::str::FromStr for QuizAccessCode {
    type Err = QuizAccessCodeParseError;

    fn from_str(raw: &str) -> (r: Result<Self, Self::Err>)
        ensures
            match r {
                Ok(v) => trim(raw@).len() > 0 && v@ == trim(raw@),
                Err(_) => trim(raw@).len() == 0,
            },
    {
        Self::parse(raw)
    }
}

/// A section name: non-empty text without surrounding whitespace.
#[derive(Debug, PartialEq, Eq, Hash)]
pub struct SectionName(String);

impl Clone for SectionName {
    fn clone(&self) -> (r: Self)
        ensures
            r@ == self@,
    {
        proof {
            use_type_invariant(self);
        }
        SectionName(self.0.clone())
    }
}

/// Why text is not a section name.
#[derive(Debug, Clone, Copy, PartialEq, Eq, Structural)]
pub enum SectionNameParseError {
    Empty,
}

impl SectionNameParseError {
    /// The error's message.
    pub fn message(&self) -> (r: &'static str)
        ensures
            r@ == "section name must not be empty"@,
    {
        "section name must not be empty"
    }
}

impl View for SectionName {
    type V = Seq<char>;

    closed spec fn view(&self) -> Seq<char> {
        self.0@
    }
}

impl SectionName {
    #[verifier::type_invariant]
    closed spec fn is_clean(self) -> bool {
        is_clean_text(self.0@)
    }

    /// The text.
    pub fn as_str(&self) -> (r: &str)
        ensures
            r@ == self@,
            is_clean_text(r@),
    {
        proof {
            use_type_invariant(self);
        }
        self.0.as_str()
    }

    /// Parses a section name: the trimmed input, which must not be empty.
    pub fn parse(raw: &str) -> (r: Result<Self, SectionNameParseError>)
        ensures
            match r {
                Ok(v) => trim(raw@).len() > 0 && v@ == trim(raw@),
                Err(_) => trim(raw@).len() == 0,
            },
    {
        match parse_clean_text(raw) {
            Some(t) => Ok(SectionName(t)),
            None => Err(SectionNameParseError::Empty),
        }
    }
}

impl core::str::FromStr for SectionName {
    type Err = SectionNameParseError;

    fn from_str(raw: &str) -> (r: Result<Self, Self::Err>)
        ensures
            match r {
                Ok(v) => trim(raw@).len() > 0 && v@ == trim(raw@),
                Err(_) => trim(raw@).len() == 0,
            },
    {
        Self::parse(raw)
    }
}

/// A conference title: non-empty text without surrounding whitespace.
#[derive(Debug, PartialEq, Eq, Hash)]
pub struct ConferenceTitle(String);

impl Clone for ConferenceTitle {
    fn clone(&self) -> (r: Self)
        ensures
            r@ == self@,
    {
        proof {
            use_type_invariant(self);
        }
        ConferenceTitle(self.0.clone())
    }
}

/// Why text is not a conference title.
#[derive(Debug, Clone, Copy, PartialEq, Eq, Structural)]
pub enum ConferenceTitleParseError {
    Empty,
}

impl ConferenceTitleParseError {
    /// The error's message.
    pub fn message(&self) -> (r: &'static str)
        ensures
            r@ == "conference title must not be empty"@,
    {
        "conference title must not be empty"
    }
}

impl View for ConferenceTitle {
    type V = Seq<char>;

    closed spec fn view(&self) -> Seq<char> {
        self.0@
    }
}

impl ConferenceTitle {
    #[verifier::type_invariant]
    closed spec fn is_clean(self) -> bool {
        is_clean_text(self.0@)
    }

    /// The text.
    pub fn as_str(&self) -> (r: &str)
        ensures
            r@ == self@,
            is_clean_text(r@),
    {
        proof {
            use_type_invariant(self);
        }
        self.0.as_str()
    }

    /// Parses a conference title: the trimmed input, which must not be empty.
    pub fn parse(raw: &str) -> (r: Result<Self, ConferenceTitleParseError>)
        ensures
            match r {
                Ok(v) => trim(raw@).len() > 0 && v@ == trim(raw@),
                Err(_) => trim(raw@).len() == 0,
            },
    {
        match parse_clean_text(raw) {
            Some(t) => Ok(ConferenceTitle(t)),
            None => Err(ConferenceTitleParseError::Empty),
        }
    }
}

impl core::str::FromStr for ConferenceTitle {
    type Err = ConferenceTitleParseError;

    fn from_str(raw: &str) -> (r: Result<Self, Self::Err>)
        ensures
            match r {
                Ok(v) => trim(raw@).len() > 0 && v@ == trim(raw@),
                Err(_) => trim(raw@).len() == 0,
            },
    {
        Self::parse(raw)
    }
}

/// A conference description: non-empty text without surrounding whitespace.
#[derive(Debug, PartialEq, Eq, Hash)]
pub struct ConferenceDescription(String);

impl Clone for ConferenceDescription {
    fn clone(&self) -> (r: Self)
        ensures
            r@ == self@,
    {
        proof {
            use_type_invariant(self);
        }
        ConferenceDescription(self.0.clone())
    }
}

/// Why text is not a conference description.
#[derive(Debug, Clone, Copy, PartialEq, Eq, Structural)]
pub enum ConferenceDescriptionParseError {
    Empty,
}

impl ConferenceDescriptionParseError {
    /// The error's message.
    pub fn message(&self) -> (r: &'static str)
        ensures
            r@ == "conference description must not be empty"@,
    {
        "conference description must not be empty"
    }
}

impl View for ConferenceDescription {
    type V = Seq<char>;

    closed spec fn view(&self) -> Seq<char> {
        self.0@
    }
}

impl ConferenceDescription {
    #[verifier::type_invariant]
    closed spec fn is_clean(self) -> bool {
        is_clean_text(self.0@)
    }

    /// The text.
    pub fn as_str(&self) -> (r: &str)
        ensures
            r@ == self@,
            is_clean_text(r@),
    {
        proof {
            use_type_invariant(self);
        }
        self.0.as_str()
    }

    /// Parses a conference description: the trimmed input, which must not be empty.
    pub fn parse(raw: &str) -> (r: Result<Self, ConferenceDescriptionParseError>)
        ensures
            match r {
                Ok(v) => trim(raw@).len() > 0 && v@ == trim(raw@),
                Err(_) => trim(raw@).len() == 0,
            },
    {
        match parse_clean_text(raw) {
            Some(t) => Ok(ConferenceDescription(t)),
            None => Err(ConferenceDescriptionParseError::Empty),
        }
    }
}

impl core::str::FromStr for ConferenceDescription {
    type Err = ConferenceDescriptionParseError;

    fn from_str(raw: &str) -> (r: Result<Self, Self::Err>)
        ensures
            match r {
                Ok(v) => trim(raw@).len() > 0 && v@ == trim(raw@),
                Err(_) => trim(raw@).len() == 0,
            },
    {
        Self::parse(raw)
    }
}

/// A collaboration title: non-empty text without surrounding whitespace.
#[derive(Debug, PartialEq, Eq, Hash)]
pub struct CollaborationTitle(String);

impl Clone for CollaborationTitle {
    fn clone(&self) -> (r: Self)
        ensures
            r@ == self@,
    {
        proof {
            use_type_invariant(self);
        }
        CollaborationTitle(self.0.clone())
    }
}

/// Why text is not a collaboration title.
#[derive(Debug, Clone, Copy, PartialEq, Eq, Structural)]
pub enum CollaborationTitleParseError {
    Empty,
}

impl CollaborationTitleParseError {
    /// The error's message.
    pub fn message(&self) -> (r: &'static str)
        ensures
            r@ == "collaboration title must not be empty"@,
    {
        "collaboration title must not be empty"
    }
}

impl View for CollaborationTitle {
    type V = Seq<char>;

    closed spec fn view(&self) -> Seq<char> {
        self.0@
    }
}

impl CollaborationTitle {
    #[verifier::type_invariant]
    closed spec fn is_clean(self) -> bool {
        is_clean_text(self.0@)
    }

    /// The text.
    pub fn as_str(&self) -> (r: &str)
        ensures
            r@ == self@,
            is_clean_text(r@),
    {
        proof {
            use_type_invariant(self);
        }
        self.0.as_str()
    }

    /// Parses a collaboration title: the trimmed input, which must not be empty.
    pub fn parse(raw: &str) -> (r: Result<Self, CollaborationTitleParseError>)
        ensures
            match r {
                Ok(v) => trim(raw@).len() > 0 && v@ == trim(raw@),
                Err(_) => trim(raw@).len() == 0,
            },
    {
        match parse_clean_text(raw) {
            Some(t) => Ok(CollaborationTitle(t)),
            None => Err(CollaborationTitleParseError::Empty),
        }
    }
}

impl core::str::FromStr for CollaborationTitle {
    type Err = CollaborationTitleParseError;

    fn from_str(raw: &str) -> (r: Result<Self, Self::Err>)
        ensures
            match r {
                Ok(v) => trim(raw@).len() > 0 && v@ == trim(raw@),
                Err(_) => trim(raw@).len() == 0,
            },
    {
        Self::parse(raw)
    }
}

} // verus!
