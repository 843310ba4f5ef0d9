//! JSON documents given on the command line, and what the library reads from
//! them: assignment overrides, module prerequisites, rubric assessments and
//! external tool configurations.

use crate::combine::parse_assignment_override_dates;
use crate::dates::{timestamp_spec, DueDate, Timestamp};
use crate::errors::{CanvasError, CliError};
use crate::ids::{ModuleId, SectionId, UserId};
use crate::parse::{parse_due_date, parse_module_id};
use crate::text::{positive_id_spec, str_eq, to_owned_string};
use crate::windows::{
    window_ordered, AssignmentOverride, AssignmentOverrideTarget, AssignmentOverrides, DateWindow,
    OverrideStudentIds,
};
use vstd::prelude::*;

verus! {

/// A JSON value as the library reads it. A number is kept as the text that
/// JSON writes for it; an object keeps its members in order.
#[derive(Debug)]
pub enum JsonValue {
    Null,
    Bool(bool),
    Number(String),
    Text(String),
    Array(Vec<JsonValue>),
    Object(Vec<(String, JsonValue)>),
}

/// The outside crate's JSON value, carried only inside the reader below.
#[verifier::external_type_specification]
#[verifier::external_body]
pub struct ExJsonDocument(serde_json::Value);

/// What `serde_json` reads from a text: the JSON value, or the parser's
/// message where the text is not JSON.
pub uninterp spec fn json_reading(text: Seq<char>) -> Result<JsonValue, Seq<char>>;

/// The JSON value of a text, `None` where the text is not JSON.
pub open spec fn json_document(text: Seq<char>) -> Option<JsonValue> {
    match json_reading(text) {
        Ok(v) => Some(v),
        Err(_) => None,
    }
}

/// `serde_json::from_str::<serde_json::Value>` on `text`, the value turned
/// into a `JsonValue` variant for variant (a number as the text that
/// `serde_json` writes for it, an object's members in the order of its map),
/// the error into its message. The contract names the outcome
/// (`json_reading`); which texts are JSON is left to `serde_json`.
#[verifier::external_body]
pub(crate) fn read_json(text: &str) -> (r: Result<JsonValue, String>)
    ensures
        match r {
            Ok(v) => json_reading(text@) == Ok::<JsonValue, Seq<char>>(v),
            Err(m) => json_reading(text@) == Err::<JsonValue, Seq<char>>(m@),
        },
{
    match serde_json::from_str::<serde_json::Value>(text) {
        Ok(value) => Ok(json_of(value)),
        Err(err) => Err(err.to_string()),
    }
}

/// The `JsonValue` form of a `serde_json::Value`, one arm per variant; the
/// conversion of [`read_json`]'s result, apart only because it recurses
/// into arrays and objects.
#[verifier::external_body]
fn json_of(value: serde_json::Value) -> JsonValue {
    match value {
        serde_json::Value::Null => JsonValue::Null,
        serde_json::Value::Bool(b) => JsonValue::Bool(b),
        serde_json::Value::Number(n) => JsonValue::Number(n.to_string()),
        serde_json::Value::String(t) => JsonValue::Text(t),
        serde_json::Value::Array(items) => JsonValue::Array(items.into_iter().map(json_of).collect()),
        serde_json::Value::Object(m) => JsonValue::Object(m.into_iter().map(|(k, v)| (k, json_of(v))).collect()),
    }
}

/// The JSON value of `raw`, `None` where it is not JSON.
pub fn parse_json_document(raw: &str) -> (r: Option<JsonValue>)
    ensures
        r == json_document(raw@),
{
    match read_json(raw) {
        Ok(v) => Some(v),
        Err(_) => None,
    }
}

/// The value of the first member named `key`.
pub open spec fn field(members: Seq<(String, JsonValue)>, key: Seq<char>) -> Option<JsonValue>
    decreases members.len(),
{
    if members.len() == 0 {
        None
    } else if members[0].0@ == key {
        Some(members[0].1)
    } else {
        field(members.drop_first(), key)
    }
}

/// The value of the first member named `key`.
pub fn get_field<'a>(members: &'a Vec<(String, JsonValue)>, key: &str) -> (r: Option<&'a JsonValue>)
    ensures
        match r {
            Some(v) => field(members@, key@) == Some(*v),
            None => field(members@, key@) is None,
        },
{
    let mut i: usize = 0;
    assert(members@.skip(0) =~= members@);
    while i < members.len()
        invariant
            0 <= i <= members.len(),
            field(members@, key@) == field(members@.skip(i as int), key@),
        decreases members.len() - i,
    {
        assert(members@.skip(i as int).drop_first() =~= members@.skip(i as int + 1));
        if str_eq(members[i].0.as_str(), key) {
            return Some(&members[i].1);
        }
        i = i + 1;
    }
    None
}

/// The text of a number or a string; `None` for any other value.
pub open spec fn scalar_text(v: JsonValue) -> Option<Seq<char>> {
    match v {
        JsonValue::Number(t) => Some(t@),
        JsonValue::Text(t) => Some(t@),
        _ => None,
    }
}

/// The text of a number or a string.
pub fn scalar_str(v: &JsonValue) -> (r: Option<&str>)
    ensures
        match r {
            Some(t) => scalar_text(*v) == Some(t@),
            None => scalar_text(*v) is None,
        },
{
    match v {
        JsonValue::Number(t) => Some(t.as_str()),
        JsonValue::Text(t) => Some(t.as_str()),
        _ => None,
    }
}

/// The identifier a number or a string stands for, if it is a positive
/// integer.
pub open spec fn id_of(v: JsonValue) -> Option<u64> {
    match scalar_text(v) {
        Some(t) => positive_id_spec(t),
        None => None,
    }
}

/// Why a JSON document was refused, by the error it is reported with and its
/// detail.
pub ghost enum DocumentRefusal {
    /// `InvalidAssignmentOverrides`.
    Overrides(Seq<char>),
    /// `InvalidAssignmentOverrideTarget`.
    Target(Seq<char>),
    /// `InvalidAssignmentOverrideDates`.
    Dates(Seq<char>),
    /// `InvalidDueDate`, with the text that is not a timestamp.
    DueDate(Seq<char>),
}

/// Whether `e` is the error for the refusal `f`.
pub open spec fn reports(f: DocumentRefusal, e: CanvasError) -> bool {
    match f {
        DocumentRefusal::Overrides(d) => e matches CanvasError::InvalidAssignmentOverrides(s)
            && s@ == d,
        DocumentRefusal::Target(d) => e matches CanvasError::InvalidAssignmentOverrideTarget(s)
            && s@ == d,
        DocumentRefusal::Dates(d) => e matches CanvasError::InvalidAssignmentOverrideDates(s)
            && s@ == d,
        DocumentRefusal::DueDate(d) => e matches CanvasError::InvalidDueDate(s) && s@ == d,
    }
}

/// The model of an override's target.
pub ghost enum TargetModel {
    Section(u64),
    Students(Seq<u64>),
}

/// The model of an assignment override.
pub ghost struct OverrideModel {
    pub target: TargetModel,
    pub window: DateWindow,
}

/// The model of an override target.
pub open spec fn target_model(t: AssignmentOverrideTarget) -> TargetModel {
    match t {
        AssignmentOverrideTarget::Section(s) => TargetModel::Section(s@),
        AssignmentOverrideTarget::Students(ids) => TargetModel::Students(
            ids@.map_values(|u: UserId| u@),
        ),
    }
}

/// The model of an override.
pub open spec fn override_model(o: AssignmentOverride) -> OverrideModel {
    OverrideModel { target: target_model(o.target), window: o.dates@ }
}

/// The students of a `student_ids` array: each item a positive integer, as a
/// number or a string.
pub open spec fn student_ids_spec(items: Seq<JsonValue>) -> Option<Seq<u64>> {
    if forall|i: int| 0 <= i < items.len() ==> (#[trigger] id_of(items[i])) is Some {
        Some(Seq::new(items.len(), |i: int| id_of(items[i])->0))
    } else {
        None
    }
}

/// The target of an override object: exactly one of `section_id` and
/// `student_ids`.
pub open spec fn target_spec(members: Seq<(String, JsonValue)>) -> Result<TargetModel, DocumentRefusal> {
    match (field(members, "section_id"@), field(members, "student_ids"@)) {
        (Some(_), Some(_)) => Err(DocumentRefusal::Target("conflicting_target"@)),
        (Some(v), None) => match id_of(v) {
            Some(id) => Ok(TargetModel::Section(id)),
            None => Err(DocumentRefusal::Target("invalid_section_id"@)),
        },
        (None, Some(v)) => match v {
            JsonValue::Array(items) => match student_ids_spec(items@) {
                Some(ids) => if ids.len() > 0 {
                    Ok(TargetModel::Students(ids))
                } else {
                    Err(DocumentRefusal::Target("invalid_student_ids"@))
                },
                None => Err(DocumentRefusal::Target("invalid_student_ids"@)),
            },
            _ => Err(DocumentRefusal::Target("invalid_student_ids"@)),
        },
        (None, None) => Err(DocumentRefusal::Target("missing_target"@)),
    }
}

/// An optional date member: absent or `null` is no date, a string must be a
/// timestamp, anything else is refused with `detail`.
pub open spec fn date_spec(v: Option<JsonValue>, detail: Seq<char>) -> Result<
    Option<Timestamp>,
    DocumentRefusal,
> {
    match v {
        None => Ok(None),
        Some(JsonValue::Null) => Ok(None),
        Some(JsonValue::Text(t)) => match timestamp_spec(t@) {
            Some(ts) => Ok(Some(ts)),
            None => Err(DocumentRefusal::DueDate(t@)),
        },
        Some(_) => Err(DocumentRefusal::Dates(detail)),
    }
}

/// One override: an object with a target and unlock, due and lock dates in
/// order; the target is read first, then the dates in that order.
pub open spec fn entry_spec(v: JsonValue) -> Result<OverrideModel, DocumentRefusal> {
    match v {
        JsonValue::Object(members) => match target_spec(members@) {
            Err(f) => Err(f),
            Ok(target) => match date_spec(field(members@, "unlock_at"@), "invalid_unlock_at"@) {
                Err(f) => Err(f),
                Ok(unlock) => match date_spec(field(members@, "due_at"@), "invalid_due_at"@) {
                    Err(f) => Err(f),
                    Ok(due) => match date_spec(field(members@, "lock_at"@), "invalid_lock_at"@) {
                        Err(f) => Err(f),
                        Ok(lock) => {
                            let window = DateWindow { unlock, due, lock };
                            if window_ordered(window) {
                                Ok(OverrideModel { target, window })
                            } else {
                                Err(DocumentRefusal::Dates("invalid"@))
                            }
                        },
                    },
                },
            },
        },
        _ => Err(DocumentRefusal::Overrides("expected_object"@)),
    }
}

/// The overrides of a list of entries, read in order: the first refused
/// entry decides the refusal.
pub open spec fn entries_spec(entries: Seq<JsonValue>) -> Result<Seq<OverrideModel>, DocumentRefusal>
    decreases entries.len(),
{
    if entries.len() == 0 {
        Ok(Seq::empty())
    } else {
        match entries_spec(entries.drop_last()) {
            Err(f) => Err(f),
            Ok(models) => match entry_spec(entries.last()) {
                Err(f) => Err(f),
                Ok(m) => Ok(models.push(m)),
            },
        }
    }
}

/// The overrides of a document (`None` where the text is not JSON): a
/// non-empty array of override objects.
pub open spec fn overrides_spec(document: Option<JsonValue>) -> Result<Seq<OverrideModel>, DocumentRefusal> {
    match document {
        None => Err(DocumentRefusal::Overrides("invalid_json"@)),
        Some(JsonValue::Array(entries)) => match entries_spec(entries@) {
            Err(f) => Err(f),
            Ok(models) => if models.len() == 0 {
                Err(DocumentRefusal::Overrides("empty"@))
            } else {
                Ok(models)
            },
        },
        Some(_) => Err(DocumentRefusal::Overrides("expected_array"@)),
    }
}

proof fn lemma_entries_refusal_stays(entries: Seq<JsonValue>, k: int)
    requires
        0 <= k <= entries.len(),
        entries_spec(entries.take(k)) is Err,
    ensures
        entries_spec(entries) == entries_spec(entries.take(k)),
    decreases entries.len(),
{
    if entries.len() == k {
        assert(entries.take(k) =~= entries);
    } else {
        assert(entries.drop_last().take(k) =~= entries.take(k));
        lemma_entries_refusal_stays(entries.drop_last(), k);
    }
}

/// Whether an array names at least one student, each validly.
pub open spec fn students_given(items: Seq<JsonValue>) -> bool {
    match student_ids_spec(items) {
        Some(s) => s.len() > 0,
        None => false,
    }
}

fn read_students(items: &Vec<JsonValue>) -> (r: Result<OverrideStudentIds, CanvasError>)
    ensures
        match r {
            Ok(ids) => student_ids_spec(items@) matches Some(s) && s.len() > 0 && ids@.map_values(
                |u: UserId| u@,
            ) == s,
            Err(e) => !students_given(items@) && reports(
                DocumentRefusal::Target("invalid_student_ids"@),
                e,
            ),
        },
{
    let mut ids: Vec<UserId> = Vec::new();
    let mut i: usize = 0;
    while i < items.len()
        invariant
            0 <= i <= items.len(),
            ids@.len() == i,
            forall|j: int| 0 <= j < i ==> (#[trigger] id_of(items@[j])) == Some(ids@[j]@),
        decreases items.len() - i,
    {
        let id = match scalar_str(&items[i]) {
            Some(t) => match UserId::parse(t) {
                Ok(id) => id,
                Err(_) => {
                    assert(id_of(items@[i as int]) is None);
                    return Err(
                        CanvasError::InvalidAssignmentOverrideTarget(
                            to_owned_string("invalid_student_ids"),
                        ),
                    );
                },
            },
            None => {
                assert(id_of(items@[i as int]) is None);
                return Err(
                    CanvasError::InvalidAssignmentOverrideTarget(
                        to_owned_string("invalid_student_ids"),
                    ),
                );
            },
        };
        ids.push(id);
        i = i + 1;
    }
    let ghost expected = Seq::new(items@.len(), |j: int| id_of(items@[j])->0);
    assert(ids@.map_values(|u: UserId| u@) =~= expected);
    match OverrideStudentIds::new(ids) {
        Ok(s) => Ok(s),
        Err(_) => Err(
            CanvasError::InvalidAssignmentOverrideTarget(to_owned_string("invalid_student_ids")),
        ),
    }
}

fn read_target(members: &Vec<(String, JsonValue)>) -> (r: Result<AssignmentOverrideTarget, CanvasError>)
    ensures
        match r {
            Ok(t) => target_spec(members@) == Ok::<TargetModel, DocumentRefusal>(target_model(t)),
            Err(e) => target_spec(members@) matches Err(f) && reports(f, e),
        },
{
    let section = get_field(members, "section_id");
    let students = get_field(members, "student_ids");
    proof {
        reveal_strlit("section_id");
        reveal_strlit("student_ids");
    }
    match (section, students) {
        (Some(_), Some(_)) => Err(
            CanvasError::InvalidAssignmentOverrideTarget(to_owned_string("conflicting_target")),
        ),
        (Some(v), None) => {
            let id: Option<SectionId> = match scalar_str(v) {
                Some(t) => match SectionId::parse(t) {
                    Ok(id) => Some(id),
                    Err(_) => None,
                },
                None => None,
            };
            match id {
                Some(id) => Ok(AssignmentOverrideTarget::Section(id)),
                None => Err(
                    CanvasError::InvalidAssignmentOverrideTarget(
                        to_owned_string("invalid_section_id"),
                    ),
                ),
            }
        },
        (None, Some(v)) => match v {
            JsonValue::Array(items) => match read_students(items) {
                Ok(ids) => Ok(AssignmentOverrideTarget::Students(ids)),
                Err(e) => Err(e),
            },
            _ => Err(
                CanvasError::InvalidAssignmentOverrideTarget(
                    to_owned_string("invalid_student_ids"),
                ),
            ),
        },
        (None, None) => Err(
            CanvasError::InvalidAssignmentOverrideTarget(to_owned_string("missing_target")),
        ),
    }
}

fn read_date(v: Option<&JsonValue>, detail: &str) -> (r: Result<Option<DueDate>, CanvasError>)
    ensures
        match r {
            Ok(d) => date_spec(
                match v {
                    Some(v) => Some(*v),
                    None => None,
                },
                detail@,
            ) == Ok::<Option<Timestamp>, DocumentRefusal>(
                match d {
                    Some(d) => Some(d@),
                    None => None,
                },
            ),
            Err(e) => date_spec(
                match v {
                    Some(v) => Some(*v),
                    None => None,
                },
                detail@,
            ) matches Err(f) && reports(f, e),
        },
{
    match v {
        None => Ok(None),
        Some(JsonValue::Null) => Ok(None),
        Some(JsonValue::Text(t)) => match parse_due_date(t.as_str()) {
            Ok(d) => Ok(Some(d)),
            Err(e) => Err(e),
        },
        Some(_) => Err(CanvasError::InvalidAssignmentOverrideDates(to_owned_string(detail))),
    }
}

fn read_override(v: &JsonValue) -> (r: Result<AssignmentOverride, CanvasError>)
    ensures
        match r {
            Ok(o) => entry_spec(*v) == Ok::<OverrideModel, DocumentRefusal>(override_model(o)),
            Err(e) => entry_spec(*v) matches Err(f) && reports(f, e),
        },
{
    let members = match v {
        JsonValue::Object(members) => members,
        _ => {
            return Err(
                CanvasError::InvalidAssignmentOverrides(to_owned_string("expected_object")),
            );
        },
    };
    let target = read_target(members)?;
    let unlock_at = read_date(get_field(members, "unlock_at"), "invalid_unlock_at")?;
    let due_at = read_date(get_field(members, "due_at"), "invalid_due_at")?;
    let lock_at = read_date(get_field(members, "lock_at"), "invalid_lock_at")?;
    proof {
        reveal_strlit("unlock_at");
        reveal_strlit("due_at");
        reveal_strlit("lock_at");
        reveal_strlit("invalid_unlock_at");
        reveal_strlit("invalid_due_at");
        reveal_strlit("invalid_lock_at");
    }
    let dates = parse_assignment_override_dates(unlock_at, due_at, lock_at)?;
    Ok(AssignmentOverride::new(target, dates))
}

/// The overrides of the entries of an array, each read in order.
fn read_overrides(entries: &Vec<JsonValue>) -> (r: Result<Vec<AssignmentOverride>, CanvasError>)
    ensures
        match r {
            Ok(o) => entries_spec(entries@) == Ok::<Seq<OverrideModel>, DocumentRefusal>(
                o@.map_values(|x: AssignmentOverride| override_model(x)),
            ),
            Err(e) => entries_spec(entries@) matches Err(f) && reports(f, e),
        },
{
    let mut overrides: Vec<AssignmentOverride> = Vec::new();
    let mut i: usize = 0;
    assert(entries@.take(0) =~= Seq::<JsonValue>::empty());
    assert(overrides@.map_values(|x: AssignmentOverride| override_model(x)) =~= Seq::<
        OverrideModel,
    >::empty());
    while i < entries.len()
        invariant
            0 <= i <= entries.len(),
            entries_spec(entries@.take(i as int)) == Ok::<Seq<OverrideModel>, DocumentRefusal>(
                overrides@.map_values(|x: AssignmentOverride| override_model(x)),
            ),
        decreases entries.len() - i,
    {
        assert(entries@.take(i as int + 1).drop_last() =~= entries@.take(i as int));
        assert(entries@.take(i as int + 1).last() == entries@[i as int]);
        match read_override(&entries[i]) {
            Ok(o) => {
                overrides.push(o);
                assert(overrides@.map_values(|x: AssignmentOverride| override_model(x))
                    =~= entries_spec(entries@.take(i as int)).get_Ok_0().push(override_model(o)));
            },
            Err(e) => {
                proof {
                    assert(entries_spec(entries@.take(i as int + 1)) is Err);
                    lemma_entries_refusal_stays(entries@, i as int + 1);
                }
                return Err(e);
            },
        }
        i = i + 1;
    }
    assert(entries@.take(entries@.len() as int) =~= entries@);
    Ok(overrides)
}

/// The assignment overrides of a JSON document (`None` where the text is not
/// JSON): a non-empty array of objects, each with exactly one of
/// `section_id` and `student_ids` and optional `unlock_at`, `due_at` and
/// `lock_at` timestamps in that order.
pub fn assignment_overrides_of(document: Option<JsonValue>) -> (r: Result<
    AssignmentOverrides,
    CanvasError,
>)
    ensures
        match r {
            Ok(o) => overrides_spec(document) == Ok::<Seq<OverrideModel>, DocumentRefusal>(
                o@.map_values(|x: AssignmentOverride| override_model(x)),
            ),
            Err(e) => overrides_spec(document) matches Err(f) && reports(f, e),
        },
{
    match document {
        None => Err(CanvasError::InvalidAssignmentOverrides(to_owned_string("invalid_json"))),
        Some(JsonValue::Array(entries)) => {
            let overrides = read_overrides(&entries)?;
            match AssignmentOverrides::new(overrides) {
                Ok(o) => Ok(o),
                Err(_) => Err(CanvasError::InvalidAssignmentOverrides(to_owned_string("empty"))),
            }
        },
        Some(_) => Err(CanvasError::InvalidAssignmentOverrides(to_owned_string("expected_array"))),
    }
}

/// The assignment overrides of the JSON text `raw`.
pub fn parse_assignment_overrides(raw: &str) -> (r: Result<AssignmentOverrides, CanvasError>)
    ensures
        match r {
            Ok(o) => overrides_spec(json_document(raw@)) == Ok::<Seq<OverrideModel>, DocumentRefusal>(
                o@.map_values(|x: AssignmentOverride| override_model(x)),
            ),
            Err(e) => overrides_spec(json_document(raw@)) matches Err(f) && reports(f, e),
        },
{
    assignment_overrides_of(parse_json_document(raw))
}

/// The modules that must be completed before a module, in order.
#[derive(Debug, Clone, PartialEq, Eq)]
pub struct ModulePrerequisites(Vec<ModuleId>);

impl View for ModulePrerequisites {
    type V = Seq<ModuleId>;

    closed spec fn view(&self) -> Seq<ModuleId> {
        self.0@
    }
}

impl ModulePrerequisites {
    /// The prerequisites `ids`, in order.
    pub fn new(ids: Vec<ModuleId>) -> (r: Self)
        ensures
            r@ == ids@,
    {
        ModulePrerequisites(ids)
    }

    /// The prerequisite modules, in order.
    pub fn ids(&self) -> (r: &[ModuleId])
        ensures
            r@ == self@,
    {
        self.0.as_slice()
    }
}

/// Why a prerequisite list was refused.
pub ghost enum PrerequisiteRefusal {
    /// The document is not JSON, not an array, or an item is neither a number
    /// nor a string: `InvalidModulePrerequisites` with the detail.
    Document(Seq<char>),
    /// An item's text is not a module id: `InvalidModuleId` with the text.
    ModuleId(Seq<char>),
}

/// Whether `e` is the error for `f`.
pub open spec fn reports_prerequisite(f: PrerequisiteRefusal, e: CanvasError) -> bool {
    match f {
        PrerequisiteRefusal::Document(d) => e matches CanvasError::InvalidModulePrerequisites(s)
            && s@ == d,
        PrerequisiteRefusal::ModuleId(t) => e matches CanvasError::InvalidModuleId(s) && s@ == t,
    }
}

/// One prerequisite: a number or a string that is a module id.
pub open spec fn prerequisite_spec(v: JsonValue) -> Result<u64, PrerequisiteRefusal> {
    match scalar_text(v) {
        None => Err(PrerequisiteRefusal::Document("invalid_module_id"@)),
        Some(t) => match positive_id_spec(t) {
            Some(id) => Ok(id),
            None => Err(PrerequisiteRefusal::ModuleId(t)),
        },
    }
}

/// The prerequisites of a list of items, read in order: the first refused
/// item decides the refusal.
pub open spec fn prerequisites_spec(items: Seq<JsonValue>) -> Result<Seq<u64>, PrerequisiteRefusal>
    decreases items.len(),
{
    if items.len() == 0 {
        Ok(Seq::empty())
    } else {
        match prerequisites_spec(items.drop_last()) {
            Err(f) => Err(f),
            Ok(ids) => match prerequisite_spec(items.last()) {
                Err(f) => Err(f),
                Ok(id) => Ok(ids.push(id)),
            },
        }
    }
}

/// The prerequisites of a document (`None` where the text is not JSON): an
/// array of module ids, possibly empty.
pub open spec fn module_prerequisites_spec(document: Option<JsonValue>) -> Result<
    Seq<u64>,
    PrerequisiteRefusal,
> {
    match document {
        None => Err(PrerequisiteRefusal::Document("invalid_json"@)),
        Some(JsonValue::Array(items)) => prerequisites_spec(items@),
        Some(_) => Err(PrerequisiteRefusal::Document("expected_array"@)),
    }
}

proof fn lemma_prerequisite_refusal_stays(items: Seq<JsonValue>, k: int)
    requires
        0 <= k <= items.len(),
        prerequisites_spec(items.take(k)) is Err,
    ensures
        prerequisites_spec(items) == prerequisites_spec(items.take(k)),
    decreases items.len(),
{
    if items.len() == k {
        assert(items.take(k) =~= items);
    } else {
        assert(items.drop_last().take(k) =~= items.take(k));
        lemma_prerequisite_refusal_stays(items.drop_last(), k);
    }
}

fn read_prerequisites(items: &Vec<JsonValue>) -> (r: Result<Vec<ModuleId>, CanvasError>)
    ensures
        match r {
            Ok(ids) => prerequisites_spec(items@) == Ok::<Seq<u64>, PrerequisiteRefusal>(
                ids@.map_values(|m: ModuleId| m@),
            ),
            Err(e) => prerequisites_spec(items@) matches Err(f) && reports_prerequisite(f, e),
        },
{
    let mut ids: Vec<ModuleId> = Vec::new();
    let mut i: usize = 0;
    assert(items@.take(0) =~= Seq::<JsonValue>::empty());
    assert(ids@.map_values(|m: ModuleId| m@) =~= Seq::<u64>::empty());
    while i < items.len()
        invariant
            0 <= i <= items.len(),
            prerequisites_spec(items@.take(i as int)) == Ok::<Seq<u64>, PrerequisiteRefusal>(
                ids@.map_values(|m: ModuleId| m@),
            ),
        decreases items.len() - i,
    {
        assert(items@.take(i as int + 1).drop_last() =~= items@.take(i as int));
        assert(items@.take(i as int + 1).last() == items@[i as int]);
        let step = match scalar_str(&items[i]) {
            None => Err(CanvasError::InvalidModulePrerequisites(to_owned_string("invalid_module_id"))),
            Some(t) => parse_module_id(t),
        };
        match step {
            Ok(id) => {
                ids.push(id);
                assert(ids@.map_values(|m: ModuleId| m@) =~= prerequisites_spec(
                    items@.take(i as int),
                ).get_Ok_0().push(id@));
            },
            Err(e) => {
                proof {
                    reveal_strlit("invalid_module_id");
                    assert(prerequisites_spec(items@.take(i as int + 1)) is Err);
                    lemma_prerequisite_refusal_stays(items@, i as int + 1);
                }
                return Err(e);
            },
        }
        i = i + 1;
    }
    assert(items@.take(items@.len() as int) =~= items@);
    Ok(ids)
}

/// The prerequisites of a JSON document (`None` where the text is not JSON):
/// an array whose items are module ids, as numbers or strings.
pub fn module_prerequisites_of(document: Option<JsonValue>) -> (r: Result<
    ModulePrerequisites,
    CanvasError,
>)
    ensures
        match r {
            Ok(p) => module_prerequisites_spec(document) == Ok::<Seq<u64>, PrerequisiteRefusal>(
                p@.map_values(|m: ModuleId| m@),
            ),
            Err(e) => module_prerequisites_spec(document) matches Err(f) && reports_prerequisite(
                f,
                e,
            ),
        },
{
    match document {
        None => Err(CanvasError::InvalidModulePrerequisites(to_owned_string("invalid_json"))),
        Some(JsonValue::Array(items)) => {
            let ids = read_prerequisites(&items)?;
            Ok(ModulePrerequisites::new(ids))
        },
        Some(_) => Err(CanvasError::InvalidModulePrerequisites(to_owned_string("expected_array"))),
    }
}

/// The prerequisites of the JSON text `raw`.
pub fn parse_module_prerequisites(raw: &str) -> (r: Result<ModulePrerequisites, CanvasError>)
    ensures
        match r {
            Ok(p) => module_prerequisites_spec(json_document(raw@)) == Ok::<
                Seq<u64>,
                PrerequisiteRefusal,
            >(p@.map_values(|m: ModuleId| m@)),
            Err(e) => module_prerequisites_spec(json_document(raw@)) matches Err(f)
                && reports_prerequisite(f, e),
        },
{
    module_prerequisites_of(parse_json_document(raw))
}

/// A rubric assessment: the members of a non-empty JSON object.
#[derive(Debug)]
pub struct RubricAssessment(Vec<(String, JsonValue)>);

/// Why a rubric assessment is refused.
#[derive(Debug, Clone, Copy, PartialEq, Eq, Structural)]
pub enum RubricAssessmentError {
    Empty,
}

impl RubricAssessmentError {
    /// The error's message.
    pub fn message(&self) -> (r: &'static str)
        ensures
            r@ == "rubric assessment must be a non-empty object"@,
    {
        "rubric assessment must be a non-empty object"
    }
}

impl View for RubricAssessment {
    type V = Seq<(String, JsonValue)>;

    closed spec fn view(&self) -> Seq<(String, JsonValue)> {
        self.0@
    }
}

impl RubricAssessment {
    /// The assessment of the object members `entries`; there must be some.
    pub fn new(entries: Vec<(String, JsonValue)>) -> (r: Result<Self, RubricAssessmentError>)
        ensures
            match r {
                Ok(a) => entries@.len() > 0 && a@ == entries@,
                Err(_) => entries@.len() == 0,
            },
    {
        if entries.len() == 0 {
            return Err(RubricAssessmentError::Empty);
        }
        Ok(RubricAssessment(entries))
    }

    /// The members of the assessment, in order.
    pub fn entries(&self) -> (r: &[(String, JsonValue)])
        ensures
            r@ == self@,
    {
        self.0.as_slice()
    }
}

/// Whether a document is a non-empty JSON object.
pub open spec fn nonempty_object(document: Option<JsonValue>) -> bool {
    match document {
        Some(JsonValue::Object(members)) => members@.len() > 0,
        _ => false,
    }
}

/// The rubric assessment of the text `raw`, whose JSON reading is `document`
/// (`None` where it is not JSON): it must be a non-empty object; the error
/// carries the text.
pub fn rubric_assessment_of(raw: &str, document: Option<JsonValue>) -> (r: Result<
    RubricAssessment,
    CanvasError,
>)
    ensures
        match r {
            Ok(a) => nonempty_object(document) && (document matches Some(JsonValue::Object(m))
                && a@ == m@),
            Err(e) => !nonempty_object(document) && (e matches CanvasError::InvalidRubricAssessment(
                s,
            ) && s@ == raw@),
        },
{
    match document {
        Some(JsonValue::Object(members)) => match RubricAssessment::new(members) {
            Ok(a) => Ok(a),
            Err(_) => Err(CanvasError::InvalidRubricAssessment(to_owned_string(raw))),
        },
        _ => Err(CanvasError::InvalidRubricAssessment(to_owned_string(raw))),
    }
}

/// The rubric assessment of the JSON text `raw`: a non-empty object; the
/// error carries the text.
pub fn parse_rubric_assessment(raw: &str) -> (r: Result<RubricAssessment, CanvasError>)
    ensures
        match r {
            Ok(a) => nonempty_object(json_document(raw@)) && (json_document(raw@) matches Some(
                JsonValue::Object(m),
            ) && a@ == m@),
            Err(e) => !nonempty_object(json_document(raw@)) && (
            e matches CanvasError::InvalidRubricAssessment(s) && s@ == raw@),
        },
{
    rubric_assessment_of(raw, parse_json_document(raw))
}

/// The JSON configuration of an external tool: a JSON object.
#[derive(Debug)]
pub struct ExternalToolConfigJson(JsonValue);

/// Why a tool configuration is refused.
#[derive(Debug, Clone, Copy, PartialEq, Eq, Structural)]
pub enum ExternalToolConfigJsonError {
    NotObject,
}

impl ExternalToolConfigJsonError {
    /// The error's message.
    pub fn message(&self) -> (r: &'static str)
        ensures
            r@ == "external tool config must be a JSON object"@,
    {
        "external tool config must be a JSON object"
    }
}

impl View for ExternalToolConfigJson {
    type V = JsonValue;

    closed spec fn view(&self) -> JsonValue {
        self.0
    }
}

impl ExternalToolConfigJson {
    /// The configuration `value`, which must be an object.
    pub fn new(value: JsonValue) -> (r: Result<Self, ExternalToolConfigJsonError>)
        ensures
            match r {
                Ok(c) => value is Object && c@ == value,
                Err(_) => !(value is Object),
            },
    {
        match value {
            JsonValue::Object(_) => Ok(ExternalToolConfigJson(value)),
            _ => Err(ExternalToolConfigJsonError::NotObject),
        }
    }

    /// The configuration.
    pub fn value(&self) -> (r: &JsonValue)
        ensures
            *r == self@,
    {
        &self.0
    }
}

/// The JSON configuration of an external tool from a document (`None` where
/// the text is not JSON): it must be an object.
pub fn external_tool_config_json_of(document: Option<JsonValue>) -> (r: Result<
    ExternalToolConfigJson,
    CanvasError,
>)
    ensures
        match r {
            Ok(c) => document == Some(c@) && c@ is Object,
            Err(e) => !((document matches Some(v) && v is Object)) && (e matches CanvasError::InvalidExternalToolConfig(
                s,
            ) && s@ == "invalid_json"@),
        },
{
    match document {
        Some(value) => match ExternalToolConfigJson::new(value) {
            Ok(c) => Ok(c),
            Err(_) => Err(CanvasError::InvalidExternalToolConfig(to_owned_string("invalid_json"))),
        },
        None => Err(CanvasError::InvalidExternalToolConfig(to_owned_string("invalid_json"))),
    }
}

/// The JSON configuration of an external tool from the text `raw`: a JSON
/// object.
pub fn parse_external_tool_config_json(raw: &str) -> (r: Result<ExternalToolConfigJson, CanvasError>)
    ensures
        match r {
            Ok(c) => json_document(raw@) == Some(c@) && c@ is Object,
            Err(e) => !((json_document(raw@) matches Some(v) && v is Object)) && (
            e matches CanvasError::InvalidExternalToolConfig(s) && s@ == "invalid_json"@),
        },
{
    external_tool_config_json_of(parse_json_document(raw))
}

/// A JSON document named on the command line, either as text or as a file,
/// as the caller read it.
#[derive(Debug)]
pub enum DocumentSource {
    /// Neither the text nor a file was given.
    Absent,
    /// Both the text and a file were given.
    Conflicting,
    /// The document's text.
    Read(String),
    /// The file could not be read: its path and the reason.
    Unreadable(String, String),
}

/// Whether `a` is the rubric assessment that `source` gives.
pub open spec fn rubric_from(source: DocumentSource, a: Option<RubricAssessment>) -> bool {
    match source {
        DocumentSource::Absent => a is None,
        DocumentSource::Read(raw) => nonempty_object(json_document(raw@)) && (json_document(
            raw@,
        ) matches Some(JsonValue::Object(m)) && a matches Some(x) && x@ == m@),
        _ => false,
    }
}

/// Whether `e` is the error for the rubric assessment that `source` names.
pub open spec fn rubric_refused(source: DocumentSource, e: CliError) -> bool {
    match source {
        DocumentSource::Absent => false,
        DocumentSource::Conflicting => e matches CliError::Canvas(
            CanvasError::InvalidRubricAssessment(s),
        ) && s@ == "multiple_sources"@,
        DocumentSource::Unreadable(p, m) => e matches CliError::FileRead(a, b) && a@ == p@ && b@
            == m@,
        DocumentSource::Read(raw) => !nonempty_object(json_document(raw@)) && (e matches CliError::Canvas(
            CanvasError::InvalidRubricAssessment(s),
        ) && s@ == raw@),
    }
}

/// The rubric assessment of a command, where a document is given: not both
/// a text and a file, and a non-empty object.
pub fn rubric_assessment_input(source: DocumentSource) -> (r: Result<
    Option<RubricAssessment>,
    CliError,
>)
    ensures
        match r {
            Ok(a) => rubric_from(source, a),
            Err(e) => rubric_refused(source, e),
        },
{
    match source {
        DocumentSource::Absent => Ok(None),
        DocumentSource::Conflicting => Err(
            CliError::Canvas(
                CanvasError::InvalidRubricAssessment(to_owned_string("multiple_sources")),
            ),
        ),
        DocumentSource::Unreadable(p, m) => Err(CliError::FileRead(p, m)),
        DocumentSource::Read(raw) => match parse_rubric_assessment(raw.as_str()) {
            Ok(a) => Ok(Some(a)),
            Err(e) => Err(CliError::Canvas(e)),
        },
    }
}

/// Whether `p` is the prerequisites that `source` gives.
pub open spec fn prerequisites_from(source: DocumentSource, p: Option<ModulePrerequisites>) -> bool {
    match source {
        DocumentSource::Absent => p is None,
        DocumentSource::Read(raw) => p matches Some(x) && module_prerequisites_spec(
            json_document(raw@),
        ) == Ok::<
            Seq<u64>,
            PrerequisiteRefusal,
        >(x@.map_values(|m: ModuleId| m@)),
        _ => false,
    }
}

/// Whether `e` is the error for the prerequisites that `source` names.
pub open spec fn prerequisites_refused(source: DocumentSource, e: CliError) -> bool {
    match source {
        DocumentSource::Absent => false,
        DocumentSource::Conflicting => e matches CliError::Canvas(
            CanvasError::InvalidModulePrerequisites(s),
        ) && s@ == "multiple_sources"@,
        DocumentSource::Unreadable(p, m) => e matches CliError::FileRead(a, b) && a@ == p@ && b@
            == m@,
        DocumentSource::Read(raw) => module_prerequisites_spec(json_document(raw@)) matches Err(f) && (
        e matches CliError::Canvas(c) && reports_prerequisite(f, c)),
    }
}

/// The module prerequisites of a command, where a document is given: not
/// both a text and a file, and an array of module ids.
pub fn module_prerequisites_input(source: DocumentSource) -> (r: Result<
    Option<ModulePrerequisites>,
    CliError,
>)
    ensures
        match r {
            Ok(p) => prerequisites_from(source, p),
            Err(e) => prerequisites_refused(source, e),
        },
{
    match source {
        DocumentSource::Absent => Ok(None),
        DocumentSource::Conflicting => Err(
            CliError::Canvas(
                CanvasError::InvalidModulePrerequisites(to_owned_string("multiple_sources")),
            ),
        ),
        DocumentSource::Unreadable(p, m) => Err(CliError::FileRead(p, m)),
        DocumentSource::Read(raw) => match parse_module_prerequisites(raw.as_str()) {
            Ok(p) => Ok(Some(p)),
            Err(e) => Err(CliError::Canvas(e)),
        },
    }
}

} // verus!
