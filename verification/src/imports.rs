//! Importing grades: the rows of a grades file, and what each row asks for.
//!
//! A row's score is a decimal number checked against the assignment's points,
//! which the caller reads: each row is judged with the caller's reading of
//! its score text.

use crate::errors::{CanvasError, CliError};
use crate::ids::UserId;
use crate::json::{field, get_field, json_reading, read_json, scalar_str, scalar_text, JsonValue};
use crate::parse::parse_user_id;
use crate::text::{positive_id_spec, to_owned_string, trim, trim_str};
use vstd::prelude::*;

verus! {

/// A row of a grades file: its number, counted from 1, and its user and
/// score texts.
#[derive(Debug, Clone, PartialEq, Eq)]
pub struct ImportRow {
    pub row: usize,
    pub user_id: String,
    pub score: String,
}

/// What a row asks for, given the caller's reading `score` of its trimmed
/// score text: the row number with the user and the score, or the row
/// number with the reason it is refused.
pub open spec fn import_row_outcome<S>(row: ImportRow, score: Result<S, CanvasError>) -> Result<
    (usize, u64, S),
    (usize, Seq<char>),
> {
    let u = trim(row.user_id@);
    let s = trim(row.score@);
    if u.len() == 0 && s.len() == 0 {
        Err((row.row, "missing user_id and score"@))
    } else if u.len() == 0 {
        Err((row.row, "missing user_id"@))
    } else if s.len() == 0 {
        Err((row.row, "missing score"@))
    } else {
        match positive_id_spec(u) {
            None => Err((row.row, "invalid user id: "@ + u)),
            Some(id) => match score {
                Ok(v) => Ok((row.row, id, v)),
                Err(e) => Err((row.row, e.message_text())),
            },
        }
    }
}

/// What a row of a grades file asks for; `score` is the caller's reading of
/// the row's trimmed score text.
pub fn parse_import_row<S>(row: ImportRow, score: Result<S, CanvasError>) -> (r: Result<
    (usize, UserId, S),
    (usize, String),
>)
    ensures
        match r {
            Ok((i, u, v)) => import_row_outcome(row, score) == Ok::<
                (usize, u64, S),
                (usize, Seq<char>),
            >((i, u@, v)),
            Err((i, m)) => import_row_outcome(row, score) == Err::<
                (usize, u64, S),
                (usize, Seq<char>),
            >((i, m@)),
        },
{
    let row_index = row.row;
    let user_raw = trim_str(row.user_id.as_str());
    let score_raw = trim_str(row.score.as_str());
    let no_user = user_raw.unicode_len() == 0;
    let no_score = score_raw.unicode_len() == 0;
    if no_user && no_score {
        return Err((row_index, to_owned_string("missing user_id and score")));
    }
    if no_user {
        return Err((row_index, to_owned_string("missing user_id")));
    }
    if no_score {
        return Err((row_index, to_owned_string("missing score")));
    }
    let user_id = match parse_user_id(user_raw) {
        Ok(u) => u,
        Err(e) => return Err((row_index, e.message())),
    };
    match score {
        Ok(v) => Ok((row_index, user_id, v)),
        Err(e) => Err((row_index, e.message())),
    }
}

/// The text of a member of an object: a string as it is, a number as
/// written; empty where the item is not an object, or the member is absent
/// or of another kind.
pub open spec fn member_text(item: JsonValue, key: Seq<char>) -> Seq<char> {
    match item {
        JsonValue::Object(m) => match field(m@, key) {
            Some(v) => match scalar_text(v) {
                Some(t) => t,
                None => Seq::empty(),
            },
            None => Seq::empty(),
        },
        _ => Seq::empty(),
    }
}

/// Whether `row` is the `k`-th row (from 0) read from `item`.
pub open spec fn row_of(item: JsonValue, k: int, row: ImportRow) -> bool {
    &&& row.row == k + 1
    &&& row.user_id@ == member_text(item, "user_id"@)
    &&& row.score@ == member_text(item, "score"@)
}

fn member_string(item: &JsonValue, key: &str) -> (r: String)
    ensures
        r@ == member_text(*item, key@),
{
    match item {
        JsonValue::Object(m) => match get_field(m, key) {
            Some(v) => match scalar_str(v) {
                Some(t) => to_owned_string(t),
                None => String::new(),
            },
            None => String::new(),
        },
        _ => String::new(),
    }
}

/// The rows of a JSON grades document: an array, whose items give their
/// `user_id` and `score` members in order; `None` where it is not an array.
pub fn json_import_rows(document: &JsonValue) -> (r: Option<Vec<ImportRow>>)
    ensures
        match *document {
            JsonValue::Array(items) => r matches Some(rows) && rows@.len() == items@.len() && (
            forall|k: int| 0 <= k < items@.len() ==> row_of(items@[k], k, #[trigger] rows@[k])),
            _ => r is None,
        },
{
    match document {
        JsonValue::Array(items) => {
            let mut rows: Vec<ImportRow> = Vec::new();
            let mut i: usize = 0;
            while i < items.len()
                invariant
                    0 <= i <= items.len(),
                    rows@.len() == i,
                    forall|k: int| 0 <= k < i ==> row_of(items@[k], k, #[trigger] rows@[k]),
                decreases items.len() - i,
            {
                let item = &items[i];
                let user_id = member_string(item, "user_id");
                let score = member_string(item, "score");
                rows.push(ImportRow { row: i + 1, user_id, score });
                i = i + 1;
            }
            Some(rows)
        },
        _ => None,
    }
}

/// The rows of the JSON grades file at `path`, whose text is `raw`: where
/// the text is not JSON the parser's message, where it is not an array
/// `expected JSON array`, each reported as the file's read error.
pub fn read_json_import_rows(path: String, raw: &str) -> (r: Result<Vec<ImportRow>, CliError>)
    ensures
        match json_reading(raw@) {
            Err(m) => r matches Err(CliError::FileRead(p, t)) && p@ == path@ && t@ == m,
            Ok(JsonValue::Array(items)) => r matches Ok(rows) && rows@.len() == items@.len() && (
            forall|k: int| 0 <= k < items@.len() ==> row_of(items@[k], k, #[trigger] rows@[k])),
            Ok(_) => r matches Err(CliError::FileRead(p, t)) && p@ == path@ && t@
                == "expected JSON array"@,
        },
{
    match read_json(raw) {
        Err(m) => Err(CliError::FileRead(path, m)),
        Ok(document) => match json_import_rows(&document) {
            Some(rows) => Ok(rows),
            None => Err(CliError::FileRead(path, to_owned_string("expected JSON array"))),
        },
    }
}

/// The running count of a bulk grade import: the rows graded and the rows
/// that failed, whether refused before the request or by the server.
#[derive(Debug, Clone, Copy, PartialEq, Eq)]
pub struct ImportTally {
    pub success: u64,
    pub failed: u64,
}

impl ImportTally {
    /// No row counted yet.
    pub fn new() -> (r: Self)
        ensures
            r.success == 0,
            r.failed == 0,
    {
        ImportTally { success: 0, failed: 0 }
    }

    /// Counts one row: a success where `graded`, else a failure.
    pub fn record(&mut self, graded: bool)
        requires
            old(self).success < u64::MAX,
            old(self).failed < u64::MAX,
        ensures
            graded ==> final(self).success == old(self).success + 1 && final(self).failed == old(
                self,
            ).failed,
            !graded ==> final(self).failed == old(self).failed + 1 && final(self).success == old(
                self,
            ).success,
    {
        if graded {
            self.success = self.success + 1;
        } else {
            self.failed = self.failed + 1;
        }
    }

    /// The import's status: `imported` where no row failed, else
    /// `imported_with_errors`.
    pub fn status(&self) -> (r: &'static str)
        ensures
            r@ == (if self.failed == 0 {
                "imported"@
            } else {
                "imported_with_errors"@
            }),
    {
        if self.failed == 0 {
            "imported"
        } else {
            "imported_with_errors"
        }
    }
}

} // verus!
