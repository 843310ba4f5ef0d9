//! What a calendar event or a rubric is attached to, and the configuration
//! of an external tool.

use crate::ids::{AssignmentId, CourseId, OutcomeId, SectionId};
use crate::names::ExternalToolPlacement;
use crate::text::{dec, push_decimal, push_str, trim};
use vstd::prelude::*;

verus! {

/// The course or section a calendar event belongs to.
#[derive(Debug, Clone, Copy, PartialEq, Eq, Structural)]
pub enum CalendarEventContext {
    Course(CourseId),
    Section(SectionId),
}

impl CalendarEventContext {
    /// The context code Canvas uses: `course_<id>` or `section_<id>`.
    pub open spec fn code_text(self) -> Seq<char> {
        match self {
            CalendarEventContext::Course(c) => "course_"@ + dec(c@ as nat),
            CalendarEventContext::Section(s) => "section_"@ + dec(s@ as nat),
        }
    }

    /// The context code Canvas uses: `course_<id>` or `section_<id>`.
    pub fn context_code(self) -> (r: String)
        ensures
            r@ == self.code_text(),
    {
        let mut out = String::new();
        match self {
            CalendarEventContext::Course(course_id) => {
                push_str(&mut out, "course_");
                push_decimal(&mut out, course_id.get());
            },
            CalendarEventContext::Section(section_id) => {
                push_str(&mut out, "section_");
                push_decimal(&mut out, section_id.get());
            },
        }
        assert(out@ =~= self.code_text());
        out
    }

    /// The kind of context: `course` or `section`.
    pub fn context_type(self) -> (r: &'static str)
        ensures
            r@ == (match self {
                CalendarEventContext::Course(_) => "course"@,
                CalendarEventContext::Section(_) => "section"@,
            }),
    {
        match self {
            CalendarEventContext::Course(_) => "course",
            CalendarEventContext::Section(_) => "section",
        }
    }

    /// The id of the course or section.
    pub fn context_id(self) -> (r: u64)
        ensures
            r == (match self {
                CalendarEventContext::Course(c) => c@,
                CalendarEventContext::Section(s) => s@,
            }),
    {
        match self {
            CalendarEventContext::Course(course_id) => course_id.get(),
            CalendarEventContext::Section(section_id) => section_id.get(),
        }
    }
}

/// What a rubric is associated with: an assignment or an outcome.
#[derive(Debug, Clone, Copy, PartialEq, Eq, Structural)]
pub enum RubricAssociationTarget {
    Assignment(AssignmentId),
    Outcome(OutcomeId),
}

/// An external tool's XML configuration: text that is not blank.
#[derive(Debug, Clone, PartialEq, Eq)]
pub struct ExternalToolConfigXml(String);

/// Why an XML configuration is refused.
#[derive(Debug, Clone, Copy, PartialEq, Eq, Structural)]
pub enum ExternalToolConfigXmlError {
    Empty,
}

impl View for ExternalToolConfigXml {
    type V = Seq<char>;

    closed spec fn view(&self) -> Seq<char> {
        self.0@
    }
}

impl ExternalToolConfigXml {
    /// An XML configuration; it must not be blank.
    pub fn new(raw: String) -> (r: Result<Self, ExternalToolConfigXmlError>)
        ensures
            match r {
                Ok(x) => trim(raw@).len() > 0 && x@ == raw@,
                Err(_) => trim(raw@).len() == 0,
            },
    {
        if crate::text::trim_str(raw.as_str()).unicode_len() == 0 {
            return Err(ExternalToolConfigXmlError::Empty);
        }
        Ok(ExternalToolConfigXml(raw))
    }

    /// The XML text.
    pub fn as_str(&self) -> (r: &str)
        ensures
            r@ == self@,
    {
        self.0.as_str()
    }
}

/// The placements of an external tool: at least one.
#[derive(Debug, Clone, PartialEq, Eq)]
pub struct ExternalToolPlacementList(Vec<ExternalToolPlacement>);

/// Why a placement list is refused.
#[derive(Debug, Clone, Copy, PartialEq, Eq, Structural)]
pub enum ExternalToolPlacementListError {
    Empty,
}

impl View for ExternalToolPlacementList {
    type V = Seq<ExternalToolPlacement>;

    closed spec fn view(&self) -> Seq<ExternalToolPlacement> {
        self.0@
    }
}

impl ExternalToolPlacementList {
    /// A placement list; it must not be empty.
    pub fn new(placements: Vec<ExternalToolPlacement>) -> (r: Result<
        Self,
        ExternalToolPlacementListError,
    >)
        ensures
            match r {
                Ok(l) => placements@.len() > 0 && l@ == placements@,
                Err(_) => placements@.len() == 0,
            },
    {
        if placements.len() == 0 {
            return Err(ExternalToolPlacementListError::Empty);
        }
        Ok(ExternalToolPlacementList(placements))
    }

    /// The placements, in order.
    pub fn placements(&self) -> (r: &[ExternalToolPlacement])
        ensures
            r@ == self@,
    {
        self.0.as_slice()
    }
}

} // verus!
