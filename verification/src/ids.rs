//! Positive integer identifiers of Canvas objects. Each is parsed from text
//! the way `u64::from_str` reads the trimmed input, and zero is refused.

use crate::text::{parse_positive_id, parse_positive_u32, positive_id_spec, positive_u32_spec};
use vstd::prelude::*;

verus! {

/// A course id: a positive integer.
#[derive(Debug, Clone, Copy, PartialEq, Eq, Hash, Structural)]
pub struct CourseId(u64);

/// Why text is not a course id.
#[derive(Debug, Clone, Copy, PartialEq, Eq, Structural)]
pub enum CourseIdParseError {
    Invalid,
}

impl CourseIdParseError {
    /// The error's message.
    pub fn message(&self) -> (r: &'static str)
        ensures
            r@ == "course id must be a positive integer"@,
    {
        "course id must be a positive integer"
    }
}

impl View for CourseId {
    type V = u64;

    closed spec fn view(&self) -> u64 {
        self.0
    }
}

impl CourseId {
    #[verifier::type_invariant]
    closed spec fn is_positive(self) -> bool {
        self.0 > 0
    }

    /// The identifier's value.
    pub fn get(self) -> (r: u64)
        ensures
            r == self@,
            r > 0,
    {
        proof {
            use_type_invariant(self);
        }
        self.0
    }

    /// Parses a course id: a positive integer, surrounding whitespace ignored.
    pub fn parse(raw: &str) -> (r: Result<Self, CourseIdParseError>)
        ensures
            match r {
                Ok(id) => positive_id_spec(raw@) == Some(id@),
                Err(_) => positive_id_spec(raw@) is None,
            },
    {
        match parse_positive_id(raw) {
            Some(v) => Ok(CourseId(v)),
            None => Err(CourseIdParseError::Invalid),
        }
    }

    /// Two identifiers with the same value are the same identifier.
    pub proof fn lemma_view_injective(a: Self, b: Self)
        requires
            a@ == b@,
        ensures
            a == b,
    {
    }
}

impl core::str::FromStr for CourseId {
    type Err = CourseIdParseError;

    fn from_str(raw: &str) -> (r: Result<Self, Self::Err>)
        ensures
            match r {
                Ok(id) => positive_id_spec(raw@) == Some(id@),
                Err(_) => positive_id_spec(raw@) is None,
            },
    {
        Self::parse(raw)
    }
}

/// A assignment id: a positive integer.
#[derive(Debug, Clone, Copy, PartialEq, Eq, Hash, Structural)]
pub struct AssignmentId(u64);

/// Why text is not a assignment id.
#[derive(Debug, Clone, Copy, PartialEq, Eq, Structural)]
pub enum AssignmentIdParseError {
    Invalid,
}

impl AssignmentIdParseError {
    /// The error's message.
    pub fn message(&self) -> (r: &'static str)
        ensures
            r@ == "assignment id must be a positive integer"@,
    {
        "assignment id must be a positive integer"
    }
}

impl View for AssignmentId {
    type V = u64;

    closed spec fn view(&self) -> u64 {
        self.0
    }
}

impl AssignmentId {
    #[verifier::type_invariant]
    closed spec fn is_positive(self) -> bool {
        self.0 > 0
    }

    /// The identifier's value.
    pub fn get(self) -> (r: u64)
        ensures
            r == self@,
            r > 0,
    {
        proof {
            use_type_invariant(self);
        }
        self.0
    }

    /// Parses a assignment id: a positive integer, surrounding whitespace ignored.
    pub fn parse(raw: &str) -> (r: Result<Self, AssignmentIdParseError>)
        ensures
            match r {
                Ok(id) => positive_id_spec(raw@) == Some(id@),
                Err(_) => positive_id_spec(raw@) is None,
            },
    {
        match parse_positive_id(raw) {
            Some(v) => Ok(AssignmentId(v)),
            None => Err(AssignmentIdParseError::Invalid),
        }
    }

    /// Two identifiers with the same value are the same identifier.
    pub proof fn lemma_view_injective(a: Self, b: Self)
        requires
            a@ == b@,
        ensures
            a == b,
    {
    }
}

impl core::str::FromStr for AssignmentId {
    type Err = AssignmentIdParseError;

    fn from_str(raw: &str) -> (r: Result<Self, Self::Err>)
        ensures
            match r {
                Ok(id) => positive_id_spec(raw@) == Some(id@),
                Err(_) => positive_id_spec(raw@) is None,
            },
    {
        Self::parse(raw)
    }
}

/// A outcome id: a positive integer.
#[derive(Debug, Clone, Copy, PartialEq, Eq, Hash, Structural)]
pub struct OutcomeId(u64);

/// Why text is not a outcome id.
#[derive(Debug, Clone, Copy, PartialEq, Eq, Structural)]
pub enum OutcomeIdParseError {
    Invalid,
}

impl OutcomeIdParseError {
    /// The error's message.
    pub fn message(&self) -> (r: &'static str)
        ensures
            r@ == "outcome id must be a positive integer"@,
    {
        "outcome id must be a positive integer"
    }
}

impl View for OutcomeId {
    type V = u64;

    closed spec fn view(&self) -> u64 {
        self.0
    }
}

impl OutcomeId {
    #[verifier::type_invariant]
    closed spec fn is_positive(self) -> bool {
        self.0 > 0
    }

    /// The identifier's value.
    pub fn get(self) -> (r: u64)
        ensures
            r == self@,
            r > 0,
    {
        proof {
            use_type_invariant(self);
        }
        self.0
    }

    /// Parses a outcome id: a positive integer, surrounding whitespace ignored.
    pub fn parse(raw: &str) -> (r: Result<Self, OutcomeIdParseError>)
        ensures
            match r {
                Ok(id) => positive_id_spec(raw@) == Some(id@),
                Err(_) => positive_id_spec(raw@) is None,
            },
    {
        match parse_positive_id(raw) {
            Some(v) => Ok(OutcomeId(v)),
            None => Err(OutcomeIdParseError::Invalid),
        }
    }

    /// Two identifiers with the same value are the same identifier.
    pub proof fn lemma_view_injective(a: Self, b: Self)
        requires
            a@ == b@,
        ensures
            a == b,
    {
    }
}

impl core::str::FromStr for OutcomeId {
    type Err = OutcomeIdParseError;

    fn from_str(raw: &str) -> (r: Result<Self, Self::Err>)
        ensures
            match r {
                Ok(id) => positive_id_spec(raw@) == Some(id@),
                Err(_) => positive_id_spec(raw@) is None,
            },
    {
        Self::parse(raw)
    }
}

/// A outcome group id: a positive integer.
#[derive(Debug, Clone, Copy, PartialEq, Eq, Hash, Structural)]
pub struct OutcomeGroupId(u64);

/// Why text is not a outcome group id.
#[derive(Debug, Clone, Copy, PartialEq, Eq, Structural)]
pub enum OutcomeGroupIdParseError {
    Invalid,
}

impl OutcomeGroupIdParseError {
    /// The error's message.
    pub fn message(&self) -> (r: &'static str)
        ensures
            r@ == "outcome group id must be a positive integer"@,
    {
        "outcome group id must be a positive integer"
    }
}

impl View for OutcomeGroupId {
    type V = u64;

    closed spec fn view(&self) -> u64 {
        self.0
    }
}

impl OutcomeGroupId {
    #[verifier::type_invariant]
    closed spec fn is_positive(self) -> bool {
        self.0 > 0
    }

    /// The identifier's value.
    pub fn get(self) -> (r: u64)
        ensures
            r == self@,
            r > 0,
    {
        proof {
            use_type_invariant(self);
        }
        self.0
    }

    /// Parses a outcome group id: a positive integer, surrounding whitespace ignored.
    pub fn parse(raw: &str) -> (r: Result<Self, OutcomeGroupIdParseError>)
        ensures
            match r {
                Ok(id) => positive_id_spec(raw@) == Some(id@),
                Err(_) => positive_id_spec(raw@) is None,
            },
    {
        match parse_positive_id(raw) {
            Some(v) => Ok(OutcomeGroupId(v)),
            None => Err(OutcomeGroupIdParseError::Invalid),
        }
    }

    /// Two identifiers with the same value are the same identifier.
    pub proof fn lemma_view_injective(a: Self, b: Self)
        requires
            a@ == b@,
        ensures
            a == b,
    {
    }
}

impl core::str::FromStr for OutcomeGroupId {
    type Err = OutcomeGroupIdParseError;

    fn from_str(raw: &str) -> (r: Result<Self, Self::Err>)
        ensures
            match r {
                Ok(id) => positive_id_spec(raw@) == Some(id@),
                Err(_) => positive_id_spec(raw@) is None,
            },
    {
        Self::parse(raw)
    }
}

/// A rubric id: a positive integer.
#[derive(Debug, Clone, Copy, PartialEq, Eq, Hash, Structural)]
pub struct RubricId(u64);

/// Why text is not a rubric id.
#[derive(Debug, Clone, Copy, PartialEq, Eq, Structural)]
pub enum RubricIdParseError {
    Invalid,
}

impl RubricIdParseError {
    /// The error's message.
    pub fn message(&self) -> (r: &'static str)
        ensures
            r@ == "rubric id must be a positive integer"@,
    {
        "rubric id must be a positive integer"
    }
}

impl View for RubricId {
    type V = u64;

    closed spec fn view(&self) -> u64 {
        self.0
    }
}

impl RubricId {
    #[verifier::type_invariant]
    closed spec fn is_positive(self) -> bool {
        self.0 > 0
    }

    /// The identifier's value.
    pub fn get(self) -> (r: u64)
        ensures
            r == self@,
            r > 0,
    {
        proof {
            use_type_invariant(self);
        }
        self.0
    }

    /// Parses a rubric id: a positive integer, surrounding whitespace ignored.
    pub fn parse(raw: &str) -> (r: Result<Self, RubricIdParseError>)
        ensures
            match r {
                Ok(id) => positive_id_spec(raw@) == Some(id@),
                Err(_) => positive_id_spec(raw@) is None,
            },
    {
        match parse_positive_id(raw) {
            Some(v) => Ok(RubricId(v)),
            None => Err(RubricIdParseError::Invalid),
        }
    }

    /// Two identifiers with the same value are the same identifier.
    pub proof fn lemma_view_injective(a: Self, b: Self)
        requires
            a@ == b@,
        ensures
            a == b,
    {
    }
}

impl core::str::FromStr for RubricId {
    type Err = RubricIdParseError;

    fn from_str(raw: &str) -> (r: Result<Self, Self::Err>)
        ensures
            match r {
                Ok(id) => positive_id_spec(raw@) == Some(id@),
                Err(_) => positive_id_spec(raw@) is None,
            },
    {
        Self::parse(raw)
    }
}

/// A rubric association id: a positive integer.
#[derive(Debug, Clone, Copy, PartialEq, Eq, Hash, Structural)]
pub struct RubricAssociationId(u64);

/// Why text is not a rubric association id.
#[derive(Debug, Clone, Copy, PartialEq, Eq, Structural)]
pub enum RubricAssociationIdParseError {
    Invalid,
}

impl RubricAssociationIdParseError {
    /// The error's message.
    pub fn message(&self) -> (r: &'static str)
        ensures
            r@ == "rubric association id must be a positive integer"@,
    {
        "rubric association id must be a positive integer"
    }
}

impl View for RubricAssociationId {
    type V = u64;

    closed spec fn view(&self) -> u64 {
        self.0
    }
}

impl RubricAssociationId {
    #[verifier::type_invariant]
    closed spec fn is_positive(self) -> bool {
        self.0 > 0
    }

    /// The identifier's value.
    pub fn get(self) -> (r: u64)
        ensures
            r == self@,
            r > 0,
    {
        proof {
            use_type_invariant(self);
        }
        self.0
    }

    /// Parses a rubric association id: a positive integer, surrounding whitespace ignored.
    pub fn parse(raw: &str) -> (r: Result<Self, RubricAssociationIdParseError>)
        ensures
            match r {
                Ok(id) => positive_id_spec(raw@) == Some(id@),
                Err(_) => positive_id_spec(raw@) is None,
            },
    {
        match parse_positive_id(raw) {
            Some(v) => Ok(RubricAssociationId(v)),
            None => Err(RubricAssociationIdParseError::Invalid),
        }
    }

    /// Two identifiers with the same value are the same identifier.
    pub proof fn lemma_view_injective(a: Self, b: Self)
        requires
            a@ == b@,
        ensures
            a == b,
    {
    }
}

impl core::str::FromStr for RubricAssociationId {
    type Err = RubricAssociationIdParseError;

    fn from_str(raw: &str) -> (r: Result<Self, Self::Err>)
        ensures
            match r {
                Ok(id) => positive_id_spec(raw@) == Some(id@),
                Err(_) => positive_id_spec(raw@) is None,
            },
    {
        Self::parse(raw)
    }
}

/// A quiz id: a positive integer.
#[derive(Debug, Clone, Copy, PartialEq, Eq, Hash, Structural)]
pub struct QuizId(u64);

/// Why text is not a quiz id.
#[derive(Debug, Clone, Copy, PartialEq, Eq, Structural)]
pub enum QuizIdParseError {
    Invalid,
}

impl QuizIdParseError {
    /// The error's message.
    pub fn message(&self) -> (r: &'static str)
        ensures
            r@ == "quiz id must be a positive integer"@,
    {
        "quiz id must be a positive integer"
    }
}

impl View for QuizId {
    type V = u64;

    closed spec fn view(&self) -> u64 {
        self.0
    }
}

impl QuizId {
    #[verifier::type_invariant]
    closed spec fn is_positive(self) -> bool {
        self.0 > 0
    }

    /// The identifier's value.
    pub fn get(self) -> (r: u64)
        ensures
            r == self@,
            r > 0,
    {
        proof {
            use_type_invariant(self);
        }
        self.0
    }

    /// Parses a quiz id: a positive integer, surrounding whitespace ignored.
    pub fn parse(raw: &str) -> (r: Result<Self, QuizIdParseError>)
        ensures
            match r {
                Ok(id) => positive_id_spec(raw@) == Some(id@),
                Err(_) => positive_id_spec(raw@) is None,
            },
    {
        match parse_positive_id(raw) {
            Some(v) => Ok(QuizId(v)),
            None => Err(QuizIdParseError::Invalid),
        }
    }

    /// Two identifiers with the same value are the same identifier.
    pub proof fn lemma_view_injective(a: Self, b: Self)
        requires
            a@ == b@,
        ensures
            a == b,
    {
    }
}

impl core::str::FromStr for QuizId {
    type Err = QuizIdParseError;

    fn from_str(raw: &str) -> (r: Result<Self, Self::Err>)
        ensures
            match r {
                Ok(id) => positive_id_spec(raw@) == Some(id@),
                Err(_) => positive_id_spec(raw@) is None,
            },
    {
        Self::parse(raw)
    }
}

/// A quiz submission id: a positive integer.
#[derive(Debug, Clone, Copy, PartialEq, Eq, Hash, Structural)]
pub struct QuizSubmissionId(u64);

/// Why text is not a quiz submission id.
#[derive(Debug, Clone, Copy, PartialEq, Eq, Structural)]
pub enum QuizSubmissionIdParseError {
    Invalid,
}

impl QuizSubmissionIdParseError {
    /// The error's message.
    pub fn message(&self) -> (r: &'static str)
        ensures
            r@ == "quiz submission id must be a positive integer"@,
    {
        "quiz submission id must be a positive integer"
    }
}

impl View for QuizSubmissionId {
    type V = u64;

    closed spec fn view(&self) -> u64 {
        self.0
    }
}

impl QuizSubmissionId {
    #[verifier::type_invariant]
    closed spec fn is_positive(self) -> bool {
        self.0 > 0
    }

    /// The identifier's value.
    pub fn get(self) -> (r: u64)
        ensures
            r == self@,
            r > 0,
    {
        proof {
            use_type_invariant(self);
        }
        self.0
    }

    /// Parses a quiz submission id: a positive integer, surrounding whitespace ignored.
    pub fn parse(raw: &str) -> (r: Result<Self, QuizSubmissionIdParseError>)
        ensures
            match r {
                Ok(id) => positive_id_spec(raw@) == Some(id@),
                Err(_) => positive_id_spec(raw@) is None,
            },
    {
        match parse_positive_id(raw) {
            Some(v) => Ok(QuizSubmissionId(v)),
            None => Err(QuizSubmissionIdParseError::Invalid),
        }
    }

    /// Two identifiers with the same value are the same identifier.
    pub proof fn lemma_view_injective(a: Self, b: Self)
        requires
            a@ == b@,
        ensures
            a == b,
    {
    }
}

impl core::str::FromStr for QuizSubmissionId {
    type Err = QuizSubmissionIdParseError;

    fn from_str(raw: &str) -> (r: Result<Self, Self::Err>)
        ensures
            match r {
                Ok(id) => positive_id_spec(raw@) == Some(id@),
                Err(_) => positive_id_spec(raw@) is None,
            },
    {
        Self::parse(raw)
    }
}

/// A question bank id: a positive integer.
#[derive(Debug, Clone, Copy, PartialEq, Eq, Hash, Structural)]
pub struct QuestionBankId(u64);

/// Why text is not a question bank id.
#[derive(Debug, Clone, Copy, PartialEq, Eq, Structural)]
pub enum QuestionBankIdParseError {
    Invalid,
}

impl QuestionBankIdParseError {
    /// The error's message.
    pub fn message(&self) -> (r: &'static str)
        ensures
            r@ == "question bank id must be a positive integer"@,
    {
        "question bank id must be a positive integer"
    }
}

impl View for QuestionBankId {
    type V = u64;

    closed spec fn view(&self) -> u64 {
        self.0
    }
}

impl QuestionBankId {
    #[verifier::type_invariant]
    closed spec fn is_positive(self) -> bool {
        self.0 > 0
    }

    /// The identifier's value.
    pub fn get(self) -> (r: u64)
        ensures
            r == self@,
            r > 0,
    {
        proof {
            use_type_invariant(self);
        }
        self.0
    }

    /// Parses a question bank id: a positive integer, surrounding whitespace ignored.
    pub fn parse(raw: &str) -> (r: Result<Self, QuestionBankIdParseError>)
        ensures
            match r {
                Ok(id) => positive_id_spec(raw@) == Some(id@),
                Err(_) => positive_id_spec(raw@) is None,
            },
    {
        match parse_positive_id(raw) {
            Some(v) => Ok(QuestionBankId(v)),
            None => Err(QuestionBankIdParseError::Invalid),
        }
    }

    /// Two identifiers with the same value are the same identifier.
    pub proof fn lemma_view_injective(a: Self, b: Self)
        requires
            a@ == b@,
        ensures
            a == b,
    {
    }
}

impl core::str::FromStr for QuestionBankId {
    type Err = QuestionBankIdParseError;

    fn from_str(raw: &str) -> (r: Result<Self, Self::Err>)
        ensures
            match r {
                Ok(id) => positive_id_spec(raw@) == Some(id@),
                Err(_) => positive_id_spec(raw@) is None,
            },
    {
        Self::parse(raw)
    }
}

/// A question id: a positive integer.
#[derive(Debug, Clone, Copy, PartialEq, Eq, Hash, Structural)]
pub struct QuestionId(u64);

/// Why text is not a question id.
#[derive(Debug, Clone, Copy, PartialEq, Eq, Structural)]
pub enum QuestionIdParseError {
    Invalid,
}

impl QuestionIdParseError {
    /// The error's message.
    pub fn message(&self) -> (r: &'static str)
        ensures
            r@ == "question id must be a positive integer"@,
    {
        "question id must be a positive integer"
    }
}

impl View for QuestionId {
    type V = u64;

    closed spec fn view(&self) -> u64 {
        self.0
    }
}

impl QuestionId {
    #[verifier::type_invariant]
    closed spec fn is_positive(self) -> bool {
        self.0 > 0
    }

    /// The identifier's value.
    pub fn get(self) -> (r: u64)
        ensures
            r == self@,
            r > 0,
    {
        proof {
            use_type_invariant(self);
        }
        self.0
    }

    /// Parses a question id: a positive integer, surrounding whitespace ignored.
    pub fn parse(raw: &str) -> (r: Result<Self, QuestionIdParseError>)
        ensures
            match r {
                Ok(id) => positive_id_spec(raw@) == Some(id@),
                Err(_) => positive_id_spec(raw@) is None,
            },
    {
        match parse_positive_id(raw) {
            Some(v) => Ok(QuestionId(v)),
            None => Err(QuestionIdParseError::Invalid),
        }
    }

    /// Two identifiers with the same value are the same identifier.
    pub proof fn lemma_view_injective(a: Self, b: Self)
        requires
            a@ == b@,
        ensures
            a == b,
    {
    }
}

impl core::str::FromStr for QuestionId {
    type Err = QuestionIdParseError;

    fn from_str(raw: &str) -> (r: Result<Self, Self::Err>)
        ensures
            match r {
                Ok(id) => positive_id_spec(raw@) == Some(id@),
                Err(_) => positive_id_spec(raw@) is None,
            },
    {
        Self::parse(raw)
    }
}

/// A calendar event id: a positive integer.
#[derive(Debug, Clone, Copy, PartialEq, Eq, Hash, Structural)]
pub struct CalendarEventId(u64);

/// Why text is not a calendar event id.
#[derive(Debug, Clone, Copy, PartialEq, Eq, Structural)]
pub enum CalendarEventIdParseError {
    Invalid,
}

impl CalendarEventIdParseError {
    /// The error's message.
    pub fn message(&self) -> (r: &'static str)
        ensures
            r@ == "calendar event id must be a positive integer"@,
    {
        "calendar event id must be a positive integer"
    }
}

impl View for CalendarEventId {
    type V = u64;

    closed spec fn view(&self) -> u64 {
        self.0
    }
}

impl CalendarEventId {
    #[verifier::type_invariant]
    closed spec fn is_positive(self) -> bool {
        self.0 > 0
    }

    /// The identifier's value.
    pub fn get(self) -> (r: u64)
        ensures
            r == self@,
            r > 0,
    {
        proof {
            use_type_invariant(self);
        }
        self.0
    }

    /// Parses a calendar event id: a positive integer, surrounding whitespace ignored.
    pub fn parse(raw: &str) -> (r: Result<Self, CalendarEventIdParseError>)
        ensures
            match r {
                Ok(id) => positive_id_spec(raw@) == Some(id@),
                Err(_) => positive_id_spec(raw@) is None,
            },
    {
        match parse_positive_id(raw) {
            Some(v) => Ok(CalendarEventId(v)),
            None => Err(CalendarEventIdParseError::Invalid),
        }
    }

    /// Two identifiers with the same value are the same identifier.
    pub proof fn lemma_view_injective(a: Self, b: Self)
        requires
            a@ == b@,
        ensures
            a == b,
    {
    }
}

impl core::str::FromStr for CalendarEventId {
    type Err = CalendarEventIdParseError;

    fn from_str(raw: &str) -> (r: Result<Self, Self::Err>)
        ensures
            match r {
                Ok(id) => positive_id_spec(raw@) == Some(id@),
                Err(_) => positive_id_spec(raw@) is None,
            },
    {
        Self::parse(raw)
    }
}

/// A section id: a positive integer.
#[derive(Debug, Clone, Copy, PartialEq, Eq, Hash, Structural)]
pub struct SectionId(u64);

/// Why text is not a section id.
#[derive(Debug, Clone, Copy, PartialEq, Eq, Structural)]
pub enum SectionIdParseError {
    Invalid,
}

impl SectionIdParseError {
    /// The error's message.
    pub fn message(&self) -> (r: &'static str)
        ensures
            r@ == "section id must be a positive integer"@,
    {
        "section id must be a positive integer"
    }
}

impl View for SectionId {
    type V = u64;

    closed spec fn view(&self) -> u64 {
        self.0
    }
}

impl SectionId {
    #[verifier::type_invariant]
    closed spec fn is_positive(self) -> bool {
        self.0 > 0
    }

    /// The identifier's value.
    pub fn get(self) -> (r: u64)
        ensures
            r == self@,
            r > 0,
    {
        proof {
            use_type_invariant(self);
        }
        self.0
    }

    /// Parses a section id: a positive integer, surrounding whitespace ignored.
    pub fn parse(raw: &str) -> (r: Result<Self, SectionIdParseError>)
        ensures
            match r {
                Ok(id) => positive_id_spec(raw@) == Some(id@),
                Err(_) => positive_id_spec(raw@) is None,
            },
    {
        match parse_positive_id(raw) {
            Some(v) => Ok(SectionId(v)),
            None => Err(SectionIdParseError::Invalid),
        }
    }

    /// Two identifiers with the same value are the same identifier.
    pub proof fn lemma_view_injective(a: Self, b: Self)
        requires
            a@ == b@,
        ensures
            a == b,
    {
    }
}

impl core::str::FromStr for SectionId {
    type Err = SectionIdParseError;

    fn from_str(raw: &str) -> (r: Result<Self, Self::Err>)
        ensures
            match r {
                Ok(id) => positive_id_spec(raw@) == Some(id@),
                Err(_) => positive_id_spec(raw@) is None,
            },
    {
        Self::parse(raw)
    }
}

/// A external tool id: a positive integer.
#[derive(Debug, Clone, Copy, PartialEq, Eq, Hash, Structural)]
pub struct ExternalToolId(u64);

/// Why text is not a external tool id.
#[derive(Debug, Clone, Copy, PartialEq, Eq, Structural)]
pub enum ExternalToolIdParseError {
    Invalid,
}

impl ExternalToolIdParseError {
    /// The error's message.
    pub fn message(&self) -> (r: &'static str)
        ensures
            r@ == "external tool id must be a positive integer"@,
    {
        "external tool id must be a positive integer"
    }
}

impl View for ExternalToolId {
    type V = u64;

    closed spec fn view(&self) -> u64 {
        self.0
    }
}

impl ExternalToolId {
    #[verifier::type_invariant]
    closed spec fn is_positive(self) -> bool {
        self.0 > 0
    }

    /// The identifier's value.
    pub fn get(self) -> (r: u64)
        ensures
            r == self@,
            r > 0,
    {
        proof {
            use_type_invariant(self);
        }
        self.0
    }

    /// Parses a external tool id: a positive integer, surrounding whitespace ignored.
    pub fn parse(raw: &str) -> (r: Result<Self, ExternalToolIdParseError>)
        ensures
            match r {
                Ok(id) => positive_id_spec(raw@) == Some(id@),
                Err(_) => positive_id_spec(raw@) is None,
            },
    {
        match parse_positive_id(raw) {
            Some(v) => Ok(ExternalToolId(v)),
            None => Err(ExternalToolIdParseError::Invalid),
        }
    }

    /// Two identifiers with the same value are the same identifier.
    pub proof fn lemma_view_injective(a: Self, b: Self)
        requires
            a@ == b@,
        ensures
            a == b,
    {
    }
}

impl core::str::FromStr for ExternalToolId {
    type Err = ExternalToolIdParseError;

    fn from_str(raw: &str) -> (r: Result<Self, Self::Err>)
        ensures
            match r {
                Ok(id) => positive_id_spec(raw@) == Some(id@),
                Err(_) => positive_id_spec(raw@) is None,
            },
    {
        Self::parse(raw)
    }
}

/// A user id: a positive integer.
#[derive(Debug, Clone, Copy, PartialEq, Eq, Hash, Structural)]
pub struct UserId(u64);

/// Why text is not a user id.
#[derive(Debug, Clone, Copy, PartialEq, Eq, Structural)]
pub enum UserIdParseError {
    Invalid,
}

impl UserIdParseError {
    /// The error's message.
    pub fn message(&self) -> (r: &'static str)
        ensures
            r@ == "user id must be a positive integer"@,
    {
        "user id must be a positive integer"
    }
}

impl View for UserId {
    type V = u64;

    closed spec fn view(&self) -> u64 {
        self.0
    }
}

impl UserId {
    #[verifier::type_invariant]
    closed spec fn is_positive(self) -> bool {
        self.0 > 0
    }

    /// The identifier's value.
    pub fn get(self) -> (r: u64)
        ensures
            r == self@,
            r > 0,
    {
        proof {
            use_type_invariant(self);
        }
        self.0
    }

    /// Parses a user id: a positive integer, surrounding whitespace ignored.
    pub fn parse(raw: &str) -> (r: Result<Self, UserIdParseError>)
        ensures
            match r {
                Ok(id) => positive_id_spec(raw@) == Some(id@),
                Err(_) => positive_id_spec(raw@) is None,
            },
    {
        match parse_positive_id(raw) {
            Some(v) => Ok(UserId(v)),
            None => Err(UserIdParseError::Invalid),
        }
    }

    /// Two identifiers with the same value are the same identifier.
    pub proof fn lemma_view_injective(a: Self, b: Self)
        requires
            a@ == b@,
        ensures
            a == b,
    {
    }
}

impl core::str::FromStr for UserId {
    type Err = UserIdParseError;

    fn from_str(raw: &str) -> (r: Result<Self, Self::Err>)
        ensures
            match r {
                Ok(id) => positive_id_spec(raw@) == Some(id@),
                Err(_) => positive_id_spec(raw@) is None,
            },
    {
        Self::parse(raw)
    }
}

/// A submission id: a positive integer.
#[derive(Debug, Clone, Copy, PartialEq, Eq, Hash, Structural)]
pub struct SubmissionId(u64);

/// Why text is not a submission id.
#[derive(Debug, Clone, Copy, PartialEq, Eq, Structural)]
pub enum SubmissionIdParseError {
    Invalid,
}

impl SubmissionIdParseError {
    /// The error's message.
    pub fn message(&self) -> (r: &'static str)
        ensures
            r@ == "submission id must be a positive integer"@,
    {
        "submission id must be a positive integer"
    }
}

impl View for SubmissionId {
    type V = u64;

    closed spec fn view(&self) -> u64 {
        self.0
    }
}

impl SubmissionId {
    #[verifier::type_invariant]
    closed spec fn is_positive(self) -> bool {
        self.0 > 0
    }

    /// The identifier's value.
    pub fn get(self) -> (r: u64)
        ensures
            r == self@,
            r > 0,
    {
        proof {
            use_type_invariant(self);
        }
        self.0
    }

    /// Parses a submission id: a positive integer, surrounding whitespace ignored.
    pub fn parse(raw: &str) -> (r: Result<Self, SubmissionIdParseError>)
        ensures
            match r {
                Ok(id) => positive_id_spec(raw@) == Some(id@),
                Err(_) => positive_id_spec(raw@) is None,
            },
    {
        match parse_positive_id(raw) {
            Some(v) => Ok(SubmissionId(v)),
            None => Err(SubmissionIdParseError::Invalid),
        }
    }

    /// Two identifiers with the same value are the same identifier.
    pub proof fn lemma_view_injective(a: Self, b: Self)
        requires
            a@ == b@,
        ensures
            a == b,
    {
    }
}

impl core::str::FromStr for SubmissionId {
    type Err = SubmissionIdParseError;

    fn from_str(raw: &str) -> (r: Result<Self, Self::Err>)
        ensures
            match r {
                Ok(id) => positive_id_spec(raw@) == Some(id@),
                Err(_) => positive_id_spec(raw@) is None,
            },
    {
        Self::parse(raw)
    }
}

/// A module id: a positive integer.
#[derive(Debug, Clone, Copy, PartialEq, Eq, Hash, Structural)]
pub struct ModuleId(u64);

/// Why text is not a module id.
#[derive(Debug, Clone, Copy, PartialEq, Eq, Structural)]
pub enum ModuleIdParseError {
    Invalid,
}

impl ModuleIdParseError {
    /// The error's message.
    pub fn message(&self) -> (r: &'static str)
        ensures
            r@ == "module id must be a positive integer"@,
    {
        "module id must be a positive integer"
    }
}

impl View for ModuleId {
    type V = u64;

    closed spec fn view(&self) -> u64 {
        self.0
    }
}

impl ModuleId {
    #[verifier::type_invariant]
    closed spec fn is_positive(self) -> bool {
        self.0 > 0
    }

    /// The identifier's value.
    pub fn get(self) -> (r: u64)
        ensures
            r == self@,
            r > 0,
    {
        proof {
            use_type_invariant(self);
        }
        self.0
    }

    /// Parses a module id: a positive integer, surrounding whitespace ignored.
    pub fn parse(raw: &str) -> (r: Result<Self, ModuleIdParseError>)
        ensures
            match r {
                Ok(id) => positive_id_spec(raw@) == Some(id@),
                Err(_) => positive_id_spec(raw@) is None,
            },
    {
        match parse_positive_id(raw) {
            Some(v) => Ok(ModuleId(v)),
            None => Err(ModuleIdParseError::Invalid),
        }
    }

    /// Two identifiers with the same value are the same identifier.
    pub proof fn lemma_view_injective(a: Self, b: Self)
        requires
            a@ == b@,
        ensures
            a == b,
    {
    }
}

impl core::str::FromStr for ModuleId {
    type Err = ModuleIdParseError;

    fn from_str(raw: &str) -> (r: Result<Self, Self::Err>)
        ensures
            match r {
                Ok(id) => positive_id_spec(raw@) == Some(id@),
                Err(_) => positive_id_spec(raw@) is None,
            },
    {
        Self::parse(raw)
    }
}

/// A file id: a positive integer.
#[derive(Debug, Clone, Copy, PartialEq, Eq, Hash, Structural)]
pub struct FileId(u64);

/// Why text is not a file id.
#[derive(Debug, Clone, Copy, PartialEq, Eq, Structural)]
pub enum FileIdParseError {
    Invalid,
}

impl FileIdParseError {
    /// The error's message.
    pub fn message(&self) -> (r: &'static str)
        ensures
            r@ == "file id must be a positive integer"@,
    {
        "file id must be a positive integer"
    }
}

impl View for FileId {
    type V = u64;

    closed spec fn view(&self) -> u64 {
        self.0
    }
}

impl FileId {
    #[verifier::type_invariant]
    closed spec fn is_positive(self) -> bool {
        self.0 > 0
    }

    /// The identifier's value.
    pub fn get(self) -> (r: u64)
        ensures
            r == self@,
            r > 0,
    {
        proof {
            use_type_invariant(self);
        }
        self.0
    }

    /// Parses a file id: a positive integer, surrounding whitespace ignored.
    pub fn parse(raw: &str) -> (r: Result<Self, FileIdParseError>)
        ensures
            match r {
                Ok(id) => positive_id_spec(raw@) == Some(id@),
                Err(_) => positive_id_spec(raw@) is None,
            },
    {
        match parse_positive_id(raw) {
            Some(v) => Ok(FileId(v)),
            None => Err(FileIdParseError::Invalid),
        }
    }

    /// Two identifiers with the same value are the same identifier.
    pub proof fn lemma_view_injective(a: Self, b: Self)
        requires
            a@ == b@,
        ensures
            a == b,
    {
    }
}

impl core::str::FromStr for FileId {
    type Err = FileIdParseError;

    fn from_str(raw: &str) -> (r: Result<Self, Self::Err>)
        ensures
            match r {
                Ok(id) => positive_id_spec(raw@) == Some(id@),
                Err(_) => positive_id_spec(raw@) is None,
            },
    {
        Self::parse(raw)
    }
}

/// A folder id: a positive integer.
#[derive(Debug, Clone, Copy, PartialEq, Eq, Hash, Structural)]
pub struct FolderId(u64);

/// Why text is not a folder id.
#[derive(Debug, Clone, Copy, PartialEq, Eq, Structural)]
pub enum FolderIdParseError {
    Invalid,
}

impl FolderIdParseError {
    /// The error's message.
    pub fn message(&self) -> (r: &'static str)
        ensures
            r@ == "folder id must be a positive integer"@,
    {
        "folder id must be a positive integer"
    }
}

impl View for FolderId {
    type V = u64;

    closed spec fn view(&self) -> u64 {
        self.0
    }
}

impl FolderId {
    #[verifier::type_invariant]
    closed spec fn is_positive(self) -> bool {
        self.0 > 0
    }

    /// The identifier's value.
    pub fn get(self) -> (r: u64)
        ensures
            r == self@,
            r > 0,
    {
        proof {
            use_type_invariant(self);
        }
        self.0
    }

    /// Parses a folder id: a positive integer, surrounding whitespace ignored.
    pub fn parse(raw: &str) -> (r: Result<Self, FolderIdParseError>)
        ensures
            match r {
                Ok(id) => positive_id_spec(raw@) == Some(id@),
                Err(_) => positive_id_spec(raw@) is None,
            },
    {
        match parse_positive_id(raw) {
            Some(v) => Ok(FolderId(v)),
            None => Err(FolderIdParseError::Invalid),
        }
    }

    /// Two identifiers with the same value are the same identifier.
    pub proof fn lemma_view_injective(a: Self, b: Self)
        requires
            a@ == b@,
        ensures
            a == b,
    {
    }
}

impl core::str::FromStr for FolderId {
    type Err = FolderIdParseError;

    fn from_str(raw: &str) -> (r: Result<Self, Self::Err>)
        ensures
            match r {
                Ok(id) => positive_id_spec(raw@) == Some(id@),
                Err(_) => positive_id_spec(raw@) is None,
            },
    {
        Self::parse(raw)
    }
}

/// A group id: a positive integer.
#[derive(Debug, Clone, Copy, PartialEq, Eq, Hash, Structural)]
pub struct GroupId(u64);

/// Why text is not a group id.
#[derive(Debug, Clone, Copy, PartialEq, Eq, Structural)]
pub enum GroupIdParseError {
    Invalid,
}

impl GroupIdParseError {
    /// The error's message.
    pub fn message(&self) -> (r: &'static str)
        ensures
            r@ == "group id must be a positive integer"@,
    {
        "group id must be a positive integer"
    }
}

impl View for GroupId {
    type V = u64;

    closed spec fn view(&self) -> u64 {
        self.0
    }
}

impl GroupId {
    #[verifier::type_invariant]
    closed spec fn is_positive(self) -> bool {
        self.0 > 0
    }

    /// The identifier's value.
    pub fn get(self) -> (r: u64)
        ensures
            r == self@,
            r > 0,
    {
        proof {
            use_type_invariant(self);
        }
        self.0
    }

    /// Parses a group id: a positive integer, surrounding whitespace ignored.
    pub fn parse(raw: &str) -> (r: Result<Self, GroupIdParseError>)
        ensures
            match r {
                Ok(id) => positive_id_spec(raw@) == Some(id@),
                Err(_) => positive_id_spec(raw@) is None,
            },
    {
        match parse_positive_id(raw) {
            Some(v) => Ok(GroupId(v)),
            None => Err(GroupIdParseError::Invalid),
        }
    }

    /// Two identifiers with the same value are the same identifier.
    pub proof fn lemma_view_injective(a: Self, b: Self)
        requires
            a@ == b@,
        ensures
            a == b,
    {
    }
}

impl core::str::FromStr for GroupId {
    type Err = GroupIdParseError;

    fn from_str(raw: &str) -> (r: Result<Self, Self::Err>)
        ensures
            match r {
                Ok(id) => positive_id_spec(raw@) == Some(id@),
                Err(_) => positive_id_spec(raw@) is None,
            },
    {
        Self::parse(raw)
    }
}

/// A discussion id: a positive integer.
#[derive(Debug, Clone, Copy, PartialEq, Eq, Hash, Structural)]
pub struct DiscussionId(u64);

/// Why text is not a discussion id.
#[derive(Debug, Clone, Copy, PartialEq, Eq, Structural)]
pub enum DiscussionIdParseError {
    Invalid,
}

impl DiscussionIdParseError {
    /// The error's message.
    pub fn message(&self) -> (r: &'static str)
        ensures
            r@ == "discussion id must be a positive integer"@,
    {
        "discussion id must be a positive integer"
    }
}

impl View for DiscussionId {
    type V = u64;

    closed spec fn view(&self) -> u64 {
        self.0
    }
}

impl DiscussionId {
    #[verifier::type_invariant]
    closed spec fn is_positive(self) -> bool {
        self.0 > 0
    }

    /// The identifier's value.
    pub fn get(self) -> (r: u64)
        ensures
            r == self@,
            r > 0,
    {
        proof {
            use_type_invariant(self);
        }
        self.0
    }

    /// Parses a discussion id: a positive integer, surrounding whitespace ignored.
    pub fn parse(raw: &str) -> (r: Result<Self, DiscussionIdParseError>)
        ensures
            match r {
                Ok(id) => positive_id_spec(raw@) == Some(id@),
                Err(_) => positive_id_spec(raw@) is None,
            },
    {
        match parse_positive_id(raw) {
            Some(v) => Ok(DiscussionId(v)),
            None => Err(DiscussionIdParseError::Invalid),
        }
    }

    /// Two identifiers with the same value are the same identifier.
    pub proof fn lemma_view_injective(a: Self, b: Self)
        requires
            a@ == b@,
        ensures
            a == b,
    {
    }
}

impl core::str::FromStr for DiscussionId {
    type Err = DiscussionIdParseError;

    fn from_str(raw: &str) -> (r: Result<Self, Self::Err>)
        ensures
            match r {
                Ok(id) => positive_id_spec(raw@) == Some(id@),
                Err(_) => positive_id_spec(raw@) is None,
            },
    {
        Self::parse(raw)
    }
}

/// A grading scheme id: a positive integer.
#[derive(Debug, Clone, Copy, PartialEq, Eq, Hash, Structural)]
pub struct GradingSchemeId(u64);

/// Why text is not a grading scheme id.
#[derive(Debug, Clone, Copy, PartialEq, Eq, Structural)]
pub enum GradingSchemeIdParseError {
    Invalid,
}

impl GradingSchemeIdParseError {
    /// The error's message.
    pub fn message(&self) -> (r: &'static str)
        ensures
            r@ == "grading scheme id must be a positive integer"@,
    {
        "grading scheme id must be a positive integer"
    }
}

impl View for GradingSchemeId {
    type V = u64;

    closed spec fn view(&self) -> u64 {
        self.0
    }
}

impl GradingSchemeId {
    #[verifier::type_invariant]
    closed spec fn is_positive(self) -> bool {
        self.0 > 0
    }

    /// The identifier's value.
    pub fn get(self) -> (r: u64)
        ensures
            r == self@,
            r > 0,
    {
        proof {
            use_type_invariant(self);
        }
        self.0
    }

    /// Parses a grading scheme id: a positive integer, surrounding whitespace ignored.
    pub fn parse(raw: &str) -> (r: Result<Self, GradingSchemeIdParseError>)
        ensures
            match r {
                Ok(id) => positive_id_spec(raw@) == Some(id@),
                Err(_) => positive_id_spec(raw@) is None,
            },
    {
        match parse_positive_id(raw) {
            Some(v) => Ok(GradingSchemeId(v)),
            None => Err(GradingSchemeIdParseError::Invalid),
        }
    }

    /// Two identifiers with the same value are the same identifier.
    pub proof fn lemma_view_injective(a: Self, b: Self)
        requires
            a@ == b@,
        ensures
            a == b,
    {
    }
}

impl core::str::FromStr for GradingSchemeId {
    type Err = GradingSchemeIdParseError;

    fn from_str(raw: &str) -> (r: Result<Self, Self::Err>)
        ensures
            match r {
                Ok(id) => positive_id_spec(raw@) == Some(id@),
                Err(_) => positive_id_spec(raw@) is None,
            },
    {
        Self::parse(raw)
    }
}

/// A group category id: a positive integer.
#[derive(Debug, Clone, Copy, PartialEq, Eq, Hash, Structural)]
pub struct GroupCategoryId(u64);

/// Why text is not a group category id.
#[derive(Debug, Clone, Copy, PartialEq, Eq, Structural)]
pub enum GroupCategoryIdParseError {
    Invalid,
}

impl GroupCategoryIdParseError {
    /// The error's message.
    pub fn message(&self) -> (r: &'static str)
        ensures
            r@ == "group category id must be a positive integer"@,
    {
        "group category id must be a positive integer"
    }
}

impl View for GroupCategoryId {
    type V = u64;

    closed spec fn view(&self) -> u64 {
        self.0
    }
}

impl GroupCategoryId {
    #[verifier::type_invariant]
    closed spec fn is_positive(self) -> bool {
        self.0 > 0
    }

    /// The identifier's value.
    pub fn get(self) -> (r: u64)
        ensures
            r == self@,
            r > 0,
    {
        proof {
            use_type_invariant(self);
        }
        self.0
    }

    /// Parses a group category id: a positive integer, surrounding whitespace ignored.
    pub fn parse(raw: &str) -> (r: Result<Self, GroupCategoryIdParseError>)
        ensures
            match r {
                Ok(id) => positive_id_spec(raw@) == Some(id@),
                Err(_) => positive_id_spec(raw@) is None,
            },
    {
        match parse_positive_id(raw) {
            Some(v) => Ok(GroupCategoryId(v)),
            None => Err(GroupCategoryIdParseError::Invalid),
        }
    }

    /// Two identifiers with the same value are the same identifier.
    pub proof fn lemma_view_injective(a: Self, b: Self)
        requires
            a@ == b@,
        ensures
            a == b,
    {
    }
}

impl core::str::FromStr for GroupCategoryId {
    type Err = GroupCategoryIdParseError;

    fn from_str(raw: &str) -> (r: Result<Self, Self::Err>)
        ensures
            match r {
                Ok(id) => positive_id_spec(raw@) == Some(id@),
                Err(_) => positive_id_spec(raw@) is None,
            },
    {
        Self::parse(raw)
    }
}

/// A grading period id: a positive integer.
#[derive(Debug, Clone, Copy, PartialEq, Eq, Hash, Structural)]
pub struct GradingPeriodId(u64);

/// Why text is not a grading period id.
#[derive(Debug, Clone, Copy, PartialEq, Eq, Structural)]
pub enum GradingPeriodIdParseError {
    Invalid,
}

impl GradingPeriodIdParseError {
    /// The error's message.
    pub fn message(&self) -> (r: &'static str)
        ensures
            r@ == "grading period id must be a positive integer"@,
    {
        "grading period id must be a positive integer"
    }
}

impl View for GradingPeriodId {
    type V = u64;

    closed spec fn view(&self) -> u64 {
        self.0
    }
}

impl GradingPeriodId {
    #[verifier::type_invariant]
    closed spec fn is_positive(self) -> bool {
        self.0 > 0
    }

    /// The identifier's value.
    pub fn get(self) -> (r: u64)
        ensures
            r == self@,
            r > 0,
    {
        proof {
            use_type_invariant(self);
        }
        self.0
    }

    /// Parses a grading period id: a positive integer, surrounding whitespace ignored.
    pub fn parse(raw: &str) -> (r: Result<Self, GradingPeriodIdParseError>)
        ensures
            match r {
                Ok(id) => positive_id_spec(raw@) == Some(id@),
                Err(_) => positive_id_spec(raw@) is None,
            },
    {
        match parse_positive_id(raw) {
            Some(v) => Ok(GradingPeriodId(v)),
            None => Err(GradingPeriodIdParseError::Invalid),
        }
    }

    /// Two identifiers with the same value are the same identifier.
    pub proof fn lemma_view_injective(a: Self, b: Self)
        requires
            a@ == b@,
        ensures
            a == b,
    {
    }
}

impl core::str::FromStr for GradingPeriodId {
    type Err = GradingPeriodIdParseError;

    fn from_str(raw: &str) -> (r: Result<Self, Self::Err>)
        ensures
            match r {
                Ok(id) => positive_id_spec(raw@) == Some(id@),
                Err(_) => positive_id_spec(raw@) is None,
            },
    {
        Self::parse(raw)
    }
}

/// A content migration id: a positive integer.
#[derive(Debug, Clone, Copy, PartialEq, Eq, Hash, Structural)]
pub struct ContentMigrationId(u64);

/// Why text is not a content migration id.
#[derive(Debug, Clone, Copy, PartialEq, Eq, Structural)]
pub enum ContentMigrationIdParseError {
    Invalid,
}

impl ContentMigrationIdParseError {
    /// The error's message.
    pub fn message(&self) -> (r: &'static str)
        ensures
            r@ == "content migration id must be a positive integer"@,
    {
        "content migration id must be a positive integer"
    }
}

impl View for ContentMigrationId {
    type V = u64;

    closed spec fn view(&self) -> u64 {
        self.0
    }
}

impl ContentMigrationId {
    #[verifier::type_invariant]
    closed spec fn is_positive(self) -> bool {
        self.0 > 0
    }

    /// The identifier's value.
    pub fn get(self) -> (r: u64)
        ensures
            r == self@,
            r > 0,
    {
        proof {
            use_type_invariant(self);
        }
        self.0
    }

    /// Parses a content migration id: a positive integer, surrounding whitespace ignored.
    pub fn parse(raw: &str) -> (r: Result<Self, ContentMigrationIdParseError>)
        ensures
            match r {
                Ok(id) => positive_id_spec(raw@) == Some(id@),
                Err(_) => positive_id_spec(raw@) is None,
            },
    {
        match parse_positive_id(raw) {
            Some(v) => Ok(ContentMigrationId(v)),
            None => Err(ContentMigrationIdParseError::Invalid),
        }
    }

    /// Two identifiers with the same value are the same identifier.
    pub proof fn lemma_view_injective(a: Self, b: Self)
        requires
            a@ == b@,
        ensures
            a == b,
    {
    }
}

impl core::str::FromStr for ContentMigrationId {
    type Err = ContentMigrationIdParseError;

    fn from_str(raw: &str) -> (r: Result<Self, Self::Err>)
        ensures
            match r {
                Ok(id) => positive_id_spec(raw@) == Some(id@),
                Err(_) => positive_id_spec(raw@) is None,
            },
    {
        Self::parse(raw)
    }
}

/// A conference id: a positive integer.
#[derive(Debug, Clone, Copy, PartialEq, Eq, Hash, Structural)]
pub struct ConferenceId(u64);

/// Why text is not a conference id.
#[derive(Debug, Clone, Copy, PartialEq, Eq, Structural)]
pub enum ConferenceIdParseError {
    Invalid,
}

impl ConferenceIdParseError {
    /// The error's message.
    pub fn message(&self) -> (r: &'static str)
        ensures
            r@ == "conference id must be a positive integer"@,
    {
        "conference id must be a positive integer"
    }
}

impl View for ConferenceId {
    type V = u64;

    closed spec fn view(&self) -> u64 {
        self.0
    }
}

impl ConferenceId {
    #[verifier::type_invariant]
    closed spec fn is_positive(self) -> bool {
        self.0 > 0
    }

    /// The identifier's value.
    pub fn get(self) -> (r: u64)
        ensures
            r == self@,
            r > 0,
    {
        proof {
            use_type_invariant(self);
        }
        self.0
    }

    /// Parses a conference id: a positive integer, surrounding whitespace ignored.
    pub fn parse(raw: &str) -> (r: Result<Self, ConferenceIdParseError>)
        ensures
            match r {
                Ok(id) => positive_id_spec(raw@) == Some(id@),
                Err(_) => positive_id_spec(raw@) is None,
            },
    {
        match parse_positive_id(raw) {
            Some(v) => Ok(ConferenceId(v)),
            None => Err(ConferenceIdParseError::Invalid),
        }
    }

    /// Two identifiers with the same value are the same identifier.
    pub proof fn lemma_view_injective(a: Self, b: Self)
        requires
            a@ == b@,
        ensures
            a == b,
    {
    }
}

impl core::str::FromStr for ConferenceId {
    type Err = ConferenceIdParseError;

    fn from_str(raw: &str) -> (r: Result<Self, Self::Err>)
        ensures
            match r {
                Ok(id) => positive_id_spec(raw@) == Some(id@),
                Err(_) => positive_id_spec(raw@) is None,
            },
    {
        Self::parse(raw)
    }
}

/// A collaboration id: a positive integer.
#[derive(Debug, Clone, Copy, PartialEq, Eq, Hash, Structural)]
pub struct CollaborationId(u64);

/// Why text is not a collaboration id.
#[derive(Debug, Clone, Copy, PartialEq, Eq, Structural)]
pub enum CollaborationIdParseError {
    Invalid,
}

impl CollaborationIdParseError {
    /// The error's message.
    pub fn message(&self) -> (r: &'static str)
        ensures
            r@ == "collaboration id must be a positive integer"@,
    {
        "collaboration id must be a positive integer"
    }
}

impl View for CollaborationId {
    type V = u64;

    closed spec fn view(&self) -> u64 {
        self.0
    }
}

impl CollaborationId {
    #[verifier::type_invariant]
    closed spec fn is_positive(self) -> bool {
        self.0 > 0
    }

    /// The identifier's value.
    pub fn get(self) -> (r: u64)
        ensures
            r == self@,
            r > 0,
    {
        proof {
            use_type_invariant(self);
        }
        self.0
    }

    /// Parses a collaboration id: a positive integer, surrounding whitespace ignored.
    pub fn parse(raw: &str) -> (r: Result<Self, CollaborationIdParseError>)
        ensures
            match r {
                Ok(id) => positive_id_spec(raw@) == Some(id@),
                Err(_) => positive_id_spec(raw@) is None,
            },
    {
        match parse_positive_id(raw) {
            Some(v) => Ok(CollaborationId(v)),
            None => Err(CollaborationIdParseError::Invalid),
        }
    }

    /// Two identifiers with the same value are the same identifier.
    pub proof fn lemma_view_injective(a: Self, b: Self)
        requires
            a@ == b@,
        ensures
            a == b,
    {
    }
}

impl core::str::FromStr for CollaborationId {
    type Err = CollaborationIdParseError;

    fn from_str(raw: &str) -> (r: Result<Self, Self::Err>)
        ensures
            match r {
                Ok(id) => positive_id_spec(raw@) == Some(id@),
                Err(_) => positive_id_spec(raw@) is None,
            },
    {
        Self::parse(raw)
    }
}

/// A module item id: a positive integer.
#[derive(Debug, Clone, Copy, PartialEq, Eq, Hash, Structural)]
pub struct ModuleItemId(u64);

/// Why text is not a module item id.
#[derive(Debug, Clone, Copy, PartialEq, Eq, Structural)]
pub enum ModuleItemIdParseError {
    Invalid,
}

impl ModuleItemIdParseError {
    /// The error's message.
    pub fn message(&self) -> (r: &'static str)
        ensures
            r@ == "module item id must be a positive integer"@,
    {
        "module item id must be a positive integer"
    }
}

impl View for ModuleItemId {
    type V = u64;

    closed spec fn view(&self) -> u64 {
        self.0
    }
}

impl ModuleItemId {
    #[verifier::type_invariant]
    closed spec fn is_positive(self) -> bool {
        self.0 > 0
    }

    /// The identifier's value.
    pub fn get(self) -> (r: u64)
        ensures
            r == self@,
            r > 0,
    {
        proof {
            use_type_invariant(self);
        }
        self.0
    }

    /// Parses a module item id: a positive integer, surrounding whitespace ignored.
    pub fn parse(raw: &str) -> (r: Result<Self, ModuleItemIdParseError>)
        ensures
            match r {
                Ok(id) => positive_id_spec(raw@) == Some(id@),
                Err(_) => positive_id_spec(raw@) is None,
            },
    {
        match parse_positive_id(raw) {
            Some(v) => Ok(ModuleItemId(v)),
            None => Err(ModuleItemIdParseError::Invalid),
        }
    }

    /// Two identifiers with the same value are the same identifier.
    pub proof fn lemma_view_injective(a: Self, b: Self)
        requires
            a@ == b@,
        ensures
            a == b,
    {
    }
}

impl core::str::FromStr for ModuleItemId {
    type Err = ModuleItemIdParseError;

    fn from_str(raw: &str) -> (r: Result<Self, Self::Err>)
        ensures
            match r {
                Ok(id) => positive_id_spec(raw@) == Some(id@),
                Err(_) => positive_id_spec(raw@) is None,
            },
    {
        Self::parse(raw)
    }
}

/// A enrollment id: a positive integer.
#[derive(Debug, Clone, Copy, PartialEq, Eq, Hash, Structural)]
pub struct EnrollmentId(u64);

/// Why text is not a enrollment id.
#[derive(Debug, Clone, Copy, PartialEq, Eq, Structural)]
pub enum EnrollmentIdParseError {
    Invalid,
}

impl EnrollmentIdParseError {
    /// The error's message.
    pub fn message(&self) -> (r: &'static str)
        ensures
            r@ == "enrollment id must be a positive integer"@,
    {
        "enrollment id must be a positive integer"
    }
}

impl View for EnrollmentId {
    type V = u64;

    closed spec fn view(&self) -> u64 {
        self.0
    }
}

impl EnrollmentId {
    #[verifier::type_invariant]
    closed spec fn is_positive(self) -> bool {
        self.0 > 0
    }

    /// The identifier's value.
    pub fn get(self) -> (r: u64)
        ensures
            r == self@,
            r > 0,
    {
        proof {
            use_type_invariant(self);
        }
        self.0
    }

    /// Parses a enrollment id: a positive integer, surrounding whitespace ignored.
    pub fn parse(raw: &str) -> (r: Result<Self, EnrollmentIdParseError>)
        ensures
            match r {
                Ok(id) => positive_id_spec(raw@) == Some(id@),
                Err(_) => positive_id_spec(raw@) is None,
            },
    {
        match parse_positive_id(raw) {
            Some(v) => Ok(EnrollmentId(v)),
            None => Err(EnrollmentIdParseError::Invalid),
        }
    }

    /// Two identifiers with the same value are the same identifier.
    pub proof fn lemma_view_injective(a: Self, b: Self)
        requires
            a@ == b@,
        ensures
            a == b,
    {
    }
}

impl core::str::FromStr for EnrollmentId {
    type Err = EnrollmentIdParseError;

    fn from_str(raw: &str) -> (r: Result<Self, Self::Err>)
        ensures
            match r {
                Ok(id) => positive_id_spec(raw@) == Some(id@),
                Err(_) => positive_id_spec(raw@) is None,
            },
    {
        Self::parse(raw)
    }
}

/// A quiz time limit: a positive number of minutes.
#[derive(Debug, Clone, Copy, PartialEq, Eq, Hash, Structural)]
pub struct QuizTimeLimit(u32);

/// Why text is not a quiz time limit.
#[derive(Debug, Clone, Copy, PartialEq, Eq, Structural)]
pub enum QuizTimeLimitParseError {
    Invalid,
}

impl QuizTimeLimitParseError {
    /// The error's message.
    pub fn message(&self) -> (r: &'static str)
        ensures
            r@ == "quiz time limit must be a positive integer of minutes"@,
    {
        "quiz time limit must be a positive integer of minutes"
    }
}

impl View for QuizTimeLimit {
    type V = u32;

    closed spec fn view(&self) -> u32 {
        self.0
    }
}

impl QuizTimeLimit {
    #[verifier::type_invariant]
    closed spec fn is_positive(self) -> bool {
        self.0 > 0
    }

    /// The number of minutes.
    pub fn minutes(self) -> (r: u32)
        ensures
            r == self@,
            r > 0,
    {
        proof {
            use_type_invariant(self);
        }
        self.0
    }

    /// Parses a quiz time limit: a positive integer, surrounding whitespace ignored.
    pub fn parse(raw: &str) -> (r: Result<Self, QuizTimeLimitParseError>)
        ensures
            match r {
                Ok(v) => positive_u32_spec(raw@) == Some(v@),
                Err(_) => positive_u32_spec(raw@) is None,
            },
    {
        match parse_positive_u32(raw) {
            Some(v) => Ok(QuizTimeLimit(v)),
            None => Err(QuizTimeLimitParseError::Invalid),
        }
    }
}

impl core::str::FromStr for QuizTimeLimit {
    type Err = QuizTimeLimitParseError;

    fn from_str(raw: &str) -> (r: Result<Self, Self::Err>)
        ensures
            match r {
                Ok(v) => positive_u32_spec(raw@) == Some(v@),
                Err(_) => positive_u32_spec(raw@) is None,
            },
    {
        Self::parse(raw)
    }
}

/// A conference duration: a positive number of minutes.
#[derive(Debug, Clone, Copy, PartialEq, Eq, Hash, Structural)]
pub struct ConferenceDuration(u32);

/// Why text is not a conference duration.
#[derive(Debug, Clone, Copy, PartialEq, Eq, Structural)]
pub enum ConferenceDurationParseError {
    Invalid,
}

impl ConferenceDurationParseError {
    /// The error's message.
    pub fn message(&self) -> (r: &'static str)
        ensures
            r@ == "conference duration must be a positive integer of minutes"@,
    {
        "conference duration must be a positive integer of minutes"
    }
}

impl View for ConferenceDuration {
    type V = u32;

    closed spec fn view(&self) -> u32 {
        self.0
    }
}

impl ConferenceDuration {
    #[verifier::type_invariant]
    closed spec fn is_positive(self) -> bool {
        self.0 > 0
    }

    /// The number of minutes.
    pub fn minutes(self) -> (r: u32)
        ensures
            r == self@,
            r > 0,
    {
        proof {
            use_type_invariant(self);
        }
        self.0
    }

    /// Parses a conference duration: a positive integer, surrounding whitespace ignored.
    pub fn parse(raw: &str) -> (r: Result<Self, ConferenceDurationParseError>)
        ensures
            match r {
                Ok(v) => positive_u32_spec(raw@) == Some(v@),
                Err(_) => positive_u32_spec(raw@) is None,
            },
    {
        match parse_positive_u32(raw) {
            Some(v) => Ok(ConferenceDuration(v)),
            None => Err(ConferenceDurationParseError::Invalid),
        }
    }
}

impl core::str::FromStr for ConferenceDuration {
    type Err = ConferenceDurationParseError;

    fn from_str(raw: &str) -> (r: Result<Self, Self::Err>)
        ensures
            match r {
                Ok(v) => positive_u32_spec(raw@) == Some(v@),
                Err(_) => positive_u32_spec(raw@) is None,
            },
    {
        Self::parse(raw)
    }
}

impl UserId {
    /// A user id from its value, refusing zero.
    pub fn from_value(value: u64) -> (r: Result<Self, UserIdParseError>)
        ensures
            match r {
                Ok(id) => value > 0 && id@ == value,
                Err(_) => value == 0,
            },
    {
        if value == 0 {
            return Err(UserIdParseError::Invalid);
        }
        Ok(UserId(value))
    }
}

impl vstd::std_specs::convert::TryFromSpecImpl<u64> for UserId {
    open spec fn obeys_try_from_spec() -> bool {
        true
    }

    closed spec fn try_from_spec(v: u64) -> Result<Self, UserIdParseError> {
        if v == 0 {
            Err(UserIdParseError::Invalid)
        } else {
            Ok(UserId(v))
        }
    }
}

impl TryFrom<u64> for UserId {
    type Error = UserIdParseError;

    fn try_from(value: u64) -> (r: Result<Self, Self::Error>)
        ensures
            match r {
                Ok(id) => value > 0 && id@ == value,
                Err(_) => value == 0,
            },
    {
        if value == 0 {
            Err(UserIdParseError::Invalid)
        } else {
            Ok(UserId(value))
        }
    }
}

} // verus!
