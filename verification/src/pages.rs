//! Wiki pages: the inputs that create or change them, and the typed requests
//! that page commands stand for.

use crate::cli::{course_choice, course_for, course_refusal, GlobalOptions};
use crate::errors::{CanvasError, CliError};
use crate::ids::CourseId;
use crate::kinds::{publish_state_named, PublishState};
use crate::names::{PageBody, PageId, PageTitle};
use crate::parse::{parse_page_body, parse_page_id, parse_page_title, parse_publish_state};
use crate::text::{lower, to_owned_string, trim};
use vstd::prelude::*;

verus! {

/// What creates a page.
#[derive(Debug, Clone)]
pub struct PageCreateInput {
    pub title: PageTitle,
    pub body: PageBody,
    pub publish_state: Option<PublishState>,
}

impl PageCreateInput {
    /// A page with `title` and `body`, published or not where said.
    pub fn new(title: PageTitle, body: PageBody, publish_state: Option<PublishState>) -> (r: Self)
        ensures
            r.title@ == title@,
            r.body@ == body@,
            r.publish_state == publish_state,
    {
        PageCreateInput { title, body, publish_state }
    }
}

/// What changes a page: at least one field.
#[derive(Debug, Clone)]
pub struct PageUpdateInput {
    pub title: Option<PageTitle>,
    pub body: Option<PageBody>,
    pub publish_state: Option<PublishState>,
}

impl PageUpdateInput {
    /// A change of the given fields; at least one must be given.
    pub fn new(
        title: Option<PageTitle>,
        body: Option<PageBody>,
        publish_state: Option<PublishState>,
    ) -> (r: Result<Self, CanvasError>)
        ensures
            match r {
                Ok(u) => !(title is None && body is None && publish_state is None) && u == (
                PageUpdateInput { title, body, publish_state }),
                Err(e) => title is None && body is None && publish_state is None && (
                e matches CanvasError::InvalidPageUpdate(s) && s@ == "no_fields"@),
            },
    {
        if title.is_none() && body.is_none() && publish_state.is_none() {
            return Err(CanvasError::InvalidPageUpdate(to_owned_string("no_fields")));
        }
        Ok(PageUpdateInput { title, body, publish_state })
    }
}

/// A page command as given on the command line, unvalidated.
#[derive(Debug, Clone, PartialEq, Eq)]
pub enum PageCommand {
    List { course: Option<String> },
    Create { course: Option<String>, title: String, body: String, publish_state: Option<String> },
    Update {
        course: Option<String>,
        page: String,
        title: Option<String>,
        body: Option<String>,
        publish_state: Option<String>,
    },
    Publish { course: Option<String>, page: String, publish_state: String },
}

/// A validated page command.
#[derive(Debug, Clone)]
pub enum PageRequest {
    List { course_id: CourseId },
    Create { course_id: CourseId, input: PageCreateInput },
    Update { course_id: CourseId, page_id: PageId, input: PageUpdateInput },
    Publish { course_id: CourseId, page_id: PageId, publish_state: PublishState },
}

/// The model of a page's fields.
pub ghost struct PageFields {
    pub title: Option<Seq<char>>,
    pub body: Option<Seq<char>>,
    pub publish_state: Option<PublishState>,
}

/// Why a page's fields were refused, with the text refused.
pub ghost enum PageRefusal {
    Title(Seq<char>),
    Body(Seq<char>),
    PublishState(Seq<char>),
}

/// Whether `e` is the error for `f`.
pub open spec fn reports_page(f: PageRefusal, e: CliError) -> bool {
    match f {
        PageRefusal::Title(t) => e matches CliError::Canvas(CanvasError::InvalidPageTitle(s)) && s@
            == t,
        PageRefusal::Body(t) => e matches CliError::Canvas(CanvasError::InvalidPageBody(s)) && s@
            == t,
        PageRefusal::PublishState(t) => e matches CliError::Canvas(CanvasError::InvalidPublishState(s))
            && s@ == t,
    }
}

/// The fields of a page command, read in order: title, body, publish state.
pub open spec fn page_fields_spec(
    title: Option<String>,
    body: Option<String>,
    publish_state: Option<String>,
) -> Result<PageFields, PageRefusal> {
    let t: Result<Option<Seq<char>>, PageRefusal> = match title {
        Some(x) => if trim(x@).len() > 0 {
            Ok(Some(trim(x@)))
        } else {
            Err(PageRefusal::Title(x@))
        },
        None => Ok(None),
    };
    let b: Result<Option<Seq<char>>, PageRefusal> = match body {
        Some(x) => if trim(x@).len() > 0 {
            Ok(Some(trim(x@)))
        } else {
            Err(PageRefusal::Body(x@))
        },
        None => Ok(None),
    };
    let p: Result<Option<PublishState>, PageRefusal> = match publish_state {
        Some(x) => match publish_state_named(lower(trim(x@))) {
            Some(v) => Ok(Some(v)),
            None => Err(PageRefusal::PublishState(x@)),
        },
        None => Ok(None),
    };
    match (t, b, p) {
        (Err(f), _, _) => Err(f),
        (Ok(_), Err(f), _) => Err(f),
        (Ok(_), Ok(_), Err(f)) => Err(f),
        (Ok(t), Ok(b), Ok(p)) => Ok(PageFields { title: t, body: b, publish_state: p }),
    }
}

/// The text of an optional title.
pub open spec fn title_text(t: Option<PageTitle>) -> Option<Seq<char>> {
    match t {
        Some(t) => Some(t@),
        None => None,
    }
}

/// The text of an optional body.
pub open spec fn body_text(b: Option<PageBody>) -> Option<Seq<char>> {
    match b {
        Some(b) => Some(b@),
        None => None,
    }
}

struct Fields {
    title: Option<PageTitle>,
    body: Option<PageBody>,
    publish_state: Option<PublishState>,
}

fn read_page_fields(title: Option<String>, body: Option<String>, publish_state: Option<String>) -> (r:
    Result<Fields, CliError>)
    ensures
        match r {
            Ok(v) => page_fields_spec(title, body, publish_state) == Ok::<PageFields, PageRefusal>(
                PageFields {
                    title: title_text(v.title),
                    body: body_text(v.body),
                    publish_state: v.publish_state,
                },
            ),
            Err(e) => page_fields_spec(title, body, publish_state) matches Err(f) && reports_page(
                f,
                e,
            ),
        },
{
    let title = match title {
        Some(raw) => match parse_page_title(raw.as_str()) {
            Ok(t) => Some(t),
            Err(e) => return Err(CliError::Canvas(e)),
        },
        None => None,
    };
    let body = match body {
        Some(raw) => match parse_page_body(raw.as_str()) {
            Ok(b) => Some(b),
            Err(e) => return Err(CliError::Canvas(e)),
        },
        None => None,
    };
    let publish_state = match publish_state {
        Some(raw) => match parse_publish_state(raw.as_str()) {
            Ok(p) => Some(p),
            Err(e) => return Err(CliError::Canvas(e)),
        },
        None => None,
    };
    Ok(Fields { title, body, publish_state })
}

/// Whether `e` is the error for the page id text `t`.
pub open spec fn bad_page(t: String, e: CliError) -> bool {
    trim(t@).len() == 0 && (e matches CliError::Canvas(CanvasError::InvalidPageId(s)) && s@ == t@)
}

/// Whether `r` is what the page command `command` stands for: the course,
/// then the page, then the fields in order.
pub open spec fn page_outcome(
    command: PageCommand,
    default: Option<CourseId>,
    r: Result<PageRequest, CliError>,
) -> bool {
    match command {
        PageCommand::List { course } => match r {
            Ok(req) => req matches PageRequest::List { course_id }
                && course_choice(course, default) == Some(course_id@),
            Err(e) => course_choice(course, default) is None && course_refusal(course, e),
        },
        PageCommand::Create { course, title, body, publish_state } => {
            let spec = page_fields_spec(Some(title), Some(body), publish_state);
            match r {
                Ok(req) => req matches PageRequest::Create { course_id, input }
                    && course_choice(course, default) == Some(course_id@) && spec == Ok::<
                    PageFields,
                    PageRefusal,
                >(
                    PageFields {
                        title: Some(input.title@),
                        body: Some(input.body@),
                        publish_state: input.publish_state,
                    },
                ),
                Err(e) => if course_choice(course, default) is None {
                    course_refusal(course, e)
                } else {
                    spec matches Err(f) && reports_page(f, e)
                },
            }
        },
        PageCommand::Update { course, page, title, body, publish_state } => {
            let spec = page_fields_spec(title, body, publish_state);
            match r {
                Ok(req) => req matches PageRequest::Update { course_id, page_id, input }
                    && course_choice(course, default) == Some(course_id@) && trim(page@).len() > 0
                    && page_id@ == trim(page@) && spec == Ok::<PageFields, PageRefusal>(
                    PageFields {
                        title: title_text(input.title),
                        body: body_text(input.body),
                        publish_state: input.publish_state,
                    },
                ) && !(input.title is None && input.body is None && input.publish_state is None),
                Err(e) => if course_choice(course, default) is None {
                    course_refusal(course, e)
                } else if trim(page@).len() == 0 {
                    bad_page(page, e)
                } else {
                    match spec {
                        Err(f) => reports_page(f, e),
                        Ok(f) => f.title is None && f.body is None && f.publish_state is None && (
                        e matches CliError::Canvas(CanvasError::InvalidPageUpdate(s)) && s@
                            == "no_fields"@),
                    }
                },
            }
        },
        PageCommand::Publish { course, page, publish_state } => match r {
            Ok(req) => req matches PageRequest::Publish { course_id, page_id, publish_state: p }
                && course_choice(course, default) == Some(course_id@) && trim(page@).len() > 0
                && page_id@ == trim(page@) && publish_state_named(lower(trim(publish_state@)))
                == Some(p),
            Err(e) => if course_choice(course, default) is None {
                course_refusal(course, e)
            } else if trim(page@).len() == 0 {
                bad_page(page, e)
            } else {
                publish_state_named(lower(trim(publish_state@))) is None && (e matches CliError::Canvas(
                    CanvasError::InvalidPublishState(s),
                ) && s@ == publish_state@)
            },
        },
    }
}

/// The validated request that a page command stands for.
pub fn page_request(command: PageCommand, global: &GlobalOptions) -> (r: Result<
    PageRequest,
    CliError,
>)
    ensures
        page_outcome(command, global.course, r),
{
    match command {
        PageCommand::List { course } => {
            let course_id = course_for(course, global)?;
            Ok(PageRequest::List { course_id })
        },
        PageCommand::Create { course, title, body, publish_state } => {
            let course_id = course_for(course, global)?;
            let title = match parse_page_title(title.as_str()) {
                Ok(t) => t,
                Err(e) => return Err(CliError::Canvas(e)),
            };
            let body = match parse_page_body(body.as_str()) {
                Ok(b) => b,
                Err(e) => return Err(CliError::Canvas(e)),
            };
            let fields = read_page_fields(None, None, publish_state)?;
            let input = PageCreateInput::new(title, body, fields.publish_state);
            Ok(PageRequest::Create { course_id, input })
        },
        PageCommand::Update { course, page, title, body, publish_state } => {
            let course_id = course_for(course, global)?;
            let page_id = match parse_page_id(page.as_str()) {
                Ok(p) => p,
                Err(e) => return Err(CliError::Canvas(e)),
            };
            let fields = read_page_fields(title, body, publish_state)?;
            match PageUpdateInput::new(fields.title, fields.body, fields.publish_state) {
                Ok(input) => Ok(PageRequest::Update { course_id, page_id, input }),
                Err(e) => Err(CliError::Canvas(e)),
            }
        },
        PageCommand::Publish { course, page, publish_state } => {
            let course_id = course_for(course, global)?;
            let page_id = match parse_page_id(page.as_str()) {
                Ok(p) => p,
                Err(e) => return Err(CliError::Canvas(e)),
            };
            match parse_publish_state(publish_state.as_str()) {
                Ok(p) => Ok(PageRequest::Publish { course_id, page_id, publish_state: p }),
                Err(e) => Err(CliError::Canvas(e)),
            }
        },
    }
}

} // verus!
