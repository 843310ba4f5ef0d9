//! Content migrations: their states and types as Canvas reports them, the
//! inputs that create one, and the polling that waits for one to finish.

use crate::envelopes::{member, named, number_is, number_value, text_is, text_value};
use crate::errors::CanvasError;
use crate::json::JsonValue;
use crate::ids::CourseId;
use crate::kinds::{lemma_content_migration_type_roundtrip, content_migration_type_named, ContentMigrationType};
use crate::net::backoff_delay_ms;
use crate::net::backoff_ms;
use crate::text::{is_ws, lemma_trim_clean, lemma_trim_idempotent, lower, str_eq, to_owned_string, trim, trim_str};
use vstd::prelude::*;

verus! {

/// The workflow state of a content migration.
#[derive(Debug, Clone, PartialEq, Eq)]
pub enum ContentMigrationState {
    PreProcessing,
    PreProcessed,
    Running,
    WaitingForSelect,
    Completed,
    Failed,
    Other(String),
}

/// The state a trimmed workflow text names, where it names a known one.
pub open spec fn known_state(t: Seq<char>) -> bool {
    t == "pre_processing"@ || t == "pre_processed"@ || t == "running"@ || t
        == "waiting_for_select"@ || t == "completed"@ || t == "failed"@
}

/// The text a reported workflow state reads as: trimmed, `unknown` where
/// missing or blank.
pub open spec fn state_reading(raw: Option<Seq<char>>) -> Seq<char> {
    let t = match raw {
        Some(s) => trim(s),
        None => Seq::empty(),
    };
    if t.len() == 0 {
        "unknown"@
    } else {
        t
    }
}

/// Reading a state's text again gives the same text: a reported state
/// survives being printed and read back.
pub proof fn lemma_state_reading_idempotent(raw: Option<Seq<char>>)
    ensures
        state_reading(Some(state_reading(raw))) == state_reading(raw),
{
    let t = match raw {
        Some(s) => trim(s),
        None => Seq::<char>::empty(),
    };
    if t.len() == 0 {
        reveal_strlit("unknown");
        assert(!is_ws('u'));
        assert(!is_ws('n'));
        lemma_trim_clean("unknown"@);
    } else {
        match raw {
            Some(s) => lemma_trim_idempotent(s),
            None => {},
        }
    }
}

/// The text a reported workflow state reads as (see [`state_reading`]).
pub open spec fn raw_reading(raw: Option<&str>) -> Seq<char> {
    state_reading(
        match raw {
            Some(s) => Some(s@),
            None => None,
        },
    )
}

/// The six known workflow states are told apart by their texts,
/// `pre_processing`, `pre_processed`, `running`, `waiting_for_select`,
/// `completed` and `failed`; each such text is a known state's, and reads
/// back as itself, so a state printed and read again is the same state.
pub proof fn lemma_known_states(s: ContentMigrationState, t: ContentMigrationState)
    ensures
        ContentMigrationState::PreProcessing.text() == "pre_processing"@,
        ContentMigrationState::PreProcessed.text() == "pre_processed"@,
        ContentMigrationState::Running.text() == "running"@,
        ContentMigrationState::WaitingForSelect.text() == "waiting_for_select"@,
        ContentMigrationState::Completed.text() == "completed"@,
        ContentMigrationState::Failed.text() == "failed"@,
        !(s is Other) ==> known_state(s.text()) && state_reading(Some(s.text())) == s.text(),
        !(s is Other) && !(t is Other) && s.text() == t.text() ==> s == t,
{
    reveal_strlit("pre_processing");
    reveal_strlit("pre_processed");
    reveal_strlit("running");
    reveal_strlit("waiting_for_select");
    reveal_strlit("completed");
    reveal_strlit("failed");
    if !(s is Other) {
        let x = s.text();
        assert(!is_ws(x[0]) && !is_ws(x.last()));
        lemma_trim_clean(x);
    }
    if !(s is Other) && !(t is Other) && s.text() == t.text() {
        let x = s.text();
        let y = t.text();
        assert(x.len() == y.len() && x[0] == y[0] && x[1] == y[1] && x[5] == y[5] && x[7] == y[7]);
    }
}

impl ContentMigrationState {
    /// The state's text.
    pub open spec fn text(&self) -> Seq<char> {
        match self {
            ContentMigrationState::PreProcessing => "pre_processing"@,
            ContentMigrationState::PreProcessed => "pre_processed"@,
            ContentMigrationState::Running => "running"@,
            ContentMigrationState::WaitingForSelect => "waiting_for_select"@,
            ContentMigrationState::Completed => "completed"@,
            ContentMigrationState::Failed => "failed"@,
            ContentMigrationState::Other(raw) => raw@,
        }
    }

    /// The state Canvas reported: a known state where the trimmed text is
    /// one, else the text itself (`unknown` where missing or blank). Its text
    /// is what was read.
    pub fn from_raw(raw: Option<&str>) -> (r: Self)
        ensures
            r.text() == state_reading(match raw {
                Some(s) => Some(s@),
                None => None,
            }),
            (r is Other) <==> !known_state(r.text()),
            raw_reading(raw) == "pre_processing"@ ==> r == ContentMigrationState::PreProcessing,
            raw_reading(raw) == "pre_processed"@ ==> r == ContentMigrationState::PreProcessed,
            raw_reading(raw) == "running"@ ==> r == ContentMigrationState::Running,
            raw_reading(raw) == "waiting_for_select"@ ==> r
                == ContentMigrationState::WaitingForSelect,
            raw_reading(raw) == "completed"@ ==> r == ContentMigrationState::Completed,
            raw_reading(raw) == "failed"@ ==> r == ContentMigrationState::Failed,
    {
        let value: &str = match raw {
            Some(s) => trim_str(s),
            None => "",
        };
        proof {
            reveal_strlit("");
            reveal_strlit("unknown");
            reveal_strlit("pre_processing");
            reveal_strlit("pre_processed");
            reveal_strlit("running");
            reveal_strlit("waiting_for_select");
            reveal_strlit("completed");
            reveal_strlit("failed");
        }
        if value.unicode_len() == 0 {
            proof {
                reveal_strlit("unknown");
                reveal_strlit("running");
                reveal_strlit("failed");
                reveal_strlit("completed");
                reveal_strlit("pre_processed");
                reveal_strlit("pre_processing");
                reveal_strlit("waiting_for_select");
                assert("unknown"@[0] != "running"@[0]);
                assert("unknown"@ != "running"@);
                assert("unknown"@ != "failed"@);
                assert("unknown"@ != "completed"@);
                assert("unknown"@ != "pre_processed"@);
                assert("unknown"@ != "pre_processing"@);
                assert("unknown"@ != "waiting_for_select"@);
            }
            return ContentMigrationState::Other(to_owned_string("unknown"));
        }
        if str_eq(value, "pre_processing") {
            ContentMigrationState::PreProcessing
        } else if str_eq(value, "pre_processed") {
            ContentMigrationState::PreProcessed
        } else if str_eq(value, "running") {
            ContentMigrationState::Running
        } else if str_eq(value, "waiting_for_select") {
            ContentMigrationState::WaitingForSelect
        } else if str_eq(value, "completed") {
            ContentMigrationState::Completed
        } else if str_eq(value, "failed") {
            ContentMigrationState::Failed
        } else {
            ContentMigrationState::Other(to_owned_string(value))
        }
    }

    /// The state's text.
    pub fn as_str(&self) -> (r: &str)
        ensures
            r@ == self.text(),
    {
        match self {
            ContentMigrationState::PreProcessing => "pre_processing",
            ContentMigrationState::PreProcessed => "pre_processed",
            ContentMigrationState::Running => "running",
            ContentMigrationState::WaitingForSelect => "waiting_for_select",
            ContentMigrationState::Completed => "completed",
            ContentMigrationState::Failed => "failed",
            ContentMigrationState::Other(raw) => raw.as_str(),
        }
    }

    /// Whether the migration has finished.
    pub fn is_complete(&self) -> (r: bool)
        ensures
            r == (self is Completed),
    {
        match self {
            ContentMigrationState::Completed => true,
            _ => false,
        }
    }

    /// Whether the migration has failed.
    pub fn is_failed(&self) -> (r: bool)
        ensures
            r == (self is Failed),
    {
        match self {
            ContentMigrationState::Failed => true,
            _ => false,
        }
    }
}

/// Whether `r` is the reading of the reported migration type `raw`: none
/// where none was reported, a known type where the text names one, else the
/// text as reported.
pub open spec fn reads_type(raw: Option<String>, r: Option<ContentMigrationTypeValue>) -> bool {
    match raw {
        None => r is None,
        Some(t) => match r {
            None => false,
            Some(ContentMigrationTypeValue::Known(k)) => content_migration_type_named(
                lower(trim(t@)),
            ) == Some(k),
            Some(ContentMigrationTypeValue::Other(s)) => content_migration_type_named(
                lower(trim(t@)),
            ) is None && s@ == t@,
        },
    }
}

/// The type of a content migration as Canvas reports it.
#[derive(Debug, Clone, PartialEq, Eq)]
pub enum ContentMigrationTypeValue {
    Known(ContentMigrationType),
    Other(String),
}

impl ContentMigrationTypeValue {
    /// The type's text: the canonical one for a known type, else as reported.
    pub open spec fn text(&self) -> Seq<char> {
        match self {
            ContentMigrationTypeValue::Known(k) => k.text(),
            ContentMigrationTypeValue::Other(raw) => raw@,
        }
    }

    /// The reported type, if any: known where it parses as a type, else kept
    /// as reported.
    pub fn from_raw(raw: Option<String>) -> (r: Option<Self>)
        ensures
            reads_type(raw, r),
    {
        let raw = match raw {
            Some(r) => r,
            None => return None,
        };
        match ContentMigrationType::parse(raw.as_str()) {
            Ok(kind) => Some(ContentMigrationTypeValue::Known(kind)),
            Err(_) => Some(ContentMigrationTypeValue::Other(raw)),
        }
    }

    /// The type's text.
    pub fn as_str(&self) -> (r: &str)
        ensures
            r@ == self.text(),
    {
        match self {
            ContentMigrationTypeValue::Known(kind) => kind.as_str(),
            ContentMigrationTypeValue::Other(raw) => raw.as_str(),
        }
    }
}

/// A content migration as Canvas reports it.
#[derive(Debug, Clone)]
pub struct ContentMigrationSummary {
    pub id: u64,
    pub migration_type: Option<ContentMigrationTypeValue>,
    pub migration_type_title: Option<String>,
    pub workflow_state: ContentMigrationState,
    pub progress_url: Option<String>,
    pub started_at: Option<String>,
    pub finished_at: Option<String>,
    pub user_id: Option<u64>,
}

impl ContentMigrationSummary {
    /// The summary of a migration record: its type and state read as above,
    /// every other field as reported.
    pub fn from_api(
        id: u64,
        migration_type: Option<String>,
        migration_type_title: Option<String>,
        workflow_state: Option<String>,
        progress_url: Option<String>,
        started_at: Option<String>,
        finished_at: Option<String>,
        user_id: Option<u64>,
    ) -> (r: Self)
        ensures
            r.id == id,
            reads_type(migration_type, r.migration_type),
            r.migration_type_title == migration_type_title,
            r.workflow_state.text() == state_reading(match workflow_state {
                Some(s) => Some(s@),
                None => None,
            }),
            r.progress_url == progress_url,
            r.started_at == started_at,
            r.finished_at == finished_at,
            r.user_id == user_id,
    {
        let state = match &workflow_state {
            Some(s) => ContentMigrationState::from_raw(Some(s.as_str())),
            None => ContentMigrationState::from_raw(None),
        };
        ContentMigrationSummary {
            id,
            migration_type: ContentMigrationTypeValue::from_raw(migration_type),
            migration_type_title,
            workflow_state: state,
            progress_url,
            started_at,
            finished_at,
            user_id,
        }
    }
}

/// What a content migration copies or imports.
#[derive(Debug, Clone, PartialEq, Eq)]
pub enum ContentMigrationCreateInput {
    CourseCopy { source_course_id: CourseId },
    FileImport { file: String },
}

impl ContentMigrationCreateInput {
    /// The migration type Canvas is asked for.
    pub fn migration_type(&self) -> (r: ContentMigrationType)
        ensures
            r == (match self {
                ContentMigrationCreateInput::CourseCopy { .. } => ContentMigrationType::CourseCopy,
                ContentMigrationCreateInput::FileImport { .. } => ContentMigrationType::FileImport,
            }),
    {
        match self {
            ContentMigrationCreateInput::CourseCopy { .. } => ContentMigrationType::CourseCopy,
            ContentMigrationCreateInput::FileImport { .. } => ContentMigrationType::FileImport,
        }
    }
}

/// How often and how long to poll a migration, with delays in milliseconds.
#[derive(Debug, Clone, Copy, PartialEq, Eq, Structural)]
pub struct ContentMigrationWaitOptions {
    pub max_attempts: usize,
    pub base_delay_ms: u64,
    pub max_delay_ms: u64,
}

impl ContentMigrationWaitOptions {
    /// Twenty polls, starting two seconds apart, at most thirty seconds apart.
    pub fn default_options() -> (r: Self)
        ensures
            r.max_attempts == 20,
            r.base_delay_ms == 2000,
            r.max_delay_ms == 30000,
    {
        ContentMigrationWaitOptions { max_attempts: 20, base_delay_ms: 2000, max_delay_ms: 30000 }
    }
}

impl Default for ContentMigrationWaitOptions {
    fn default() -> (r: Self)
        ensures
            r.max_attempts == 20,
            r.base_delay_ms == 2000,
            r.max_delay_ms == 30000,
    {
        ContentMigrationWaitOptions::default_options()
    }
}

/// The delay before the next poll after the `attempt`-th unfinished one
/// (counted from 0), in milliseconds: `base * 2^attempt` capped at `max`.
pub fn backoff_delay(attempt: usize, options: ContentMigrationWaitOptions) -> (r: u64)
    ensures
        r == backoff_ms(attempt, options.base_delay_ms, options.max_delay_ms),
        r <= options.max_delay_ms,
{
    backoff_delay_ms(attempt, options.base_delay_ms, options.max_delay_ms)
}

/// What to do after a poll.
#[derive(Debug, Clone, PartialEq, Eq)]
pub enum WaitStep {
    /// The migration finished.
    Finished,
    /// Stop with this error.
    Stop(CanvasError),
    /// Poll again after this many milliseconds.
    Sleep { delay_ms: u64 },
}

/// Decides what to do after a poll that found `state`, where `unfinished`
/// earlier polls found the migration still running. A migration is polled at
/// most `max_attempts` times (once, where that is zero).
pub fn wait_step(
    state: &ContentMigrationState,
    unfinished: usize,
    options: ContentMigrationWaitOptions,
) -> (r: WaitStep)
    requires
        unfinished < usize::MAX,
    ensures
        state is Completed ==> r == WaitStep::Finished,
        state is Failed ==> (r matches WaitStep::Stop(CanvasError::ContentMigrationFailed(s)) && s@
            == "failed"@),
        !(state is Completed) && !(state is Failed) && unfinished + 1 >= options.max_attempts
            ==> (r matches WaitStep::Stop(CanvasError::ContentMigrationTimeout(s)) && s@
            == "max_attempts"@),
        !(state is Completed) && !(state is Failed) && unfinished + 1 < options.max_attempts
            ==> r == (WaitStep::Sleep {
            delay_ms: backoff_ms(unfinished, options.base_delay_ms, options.max_delay_ms) as u64,
        }),
{
    if state.is_complete() {
        return WaitStep::Finished;
    }
    if state.is_failed() {
        return WaitStep::Stop(CanvasError::ContentMigrationFailed(to_owned_string("failed")));
    }
    let attempts = unfinished + 1;
    if attempts >= options.max_attempts {
        return WaitStep::Stop(CanvasError::ContentMigrationTimeout(to_owned_string("max_attempts")));
    }
    WaitStep::Sleep { delay_ms: backoff_delay(attempts - 1, options) }
}

/// The form that asks Canvas to copy the course `source_course_id`.
pub fn course_copy_form(source_course_id: CourseId) -> (r: JsonValue)
    ensures
        r matches JsonValue::Object(m) && m@.len() == 2 && named(m@[0], "migration_type"@)
            && text_is(m@[0].1, ContentMigrationType::CourseCopy.text()) && named(
            m@[1],
            "settings[source_course_id]"@,
        ) && number_is(m@[1].1, source_course_id@ as nat),
{
    let mut m: Vec<(String, JsonValue)> = Vec::new();
    m.push(member("migration_type", text_value(ContentMigrationType::CourseCopy.as_str())));
    m.push(member("settings[source_course_id]", number_value(source_course_id.get())));
    JsonValue::Object(m)
}

/// The form that asks Canvas to import a zip file named `file_name` of
/// `size` bytes, to be uploaded afterwards.
pub fn file_import_form(file_name: &str, size: u64) -> (r: JsonValue)
    ensures
        r matches JsonValue::Object(m) && m@.len() == 4 && named(m@[0], "migration_type"@)
            && text_is(m@[0].1, ContentMigrationType::FileImport.text()) && named(
            m@[1],
            "pre_attachment[name]"@,
        ) && text_is(m@[1].1, file_name@) && named(m@[2], "pre_attachment[size]"@) && number_is(
            m@[2].1,
            size as nat,
        ) && named(m@[3], "pre_attachment[content_type]"@) && text_is(
            m@[3].1,
            "application/zip"@,
        ),
{
    let mut m: Vec<(String, JsonValue)> = Vec::new();
    m.push(member("migration_type", text_value(ContentMigrationType::FileImport.as_str())));
    m.push(member("pre_attachment[name]", text_value(file_name)));
    m.push(member("pre_attachment[size]", number_value(size)));
    m.push(member("pre_attachment[content_type]", text_value("application/zip")));
    JsonValue::Object(m)
}

} // verus!
