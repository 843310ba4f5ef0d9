//! Module requirements: what a student must do with each item of a module,
//! read from a JSON document.
//!
//! A score requirement's minimum is a decimal number. The caller reads the
//! `min_score` text of each entry (see [`min_score_texts`]) into its own type
//! `P`, or into `None` where the text is not a finite, non-negative number,
//! and hands these readings over in the entries' order.

use crate::dates::DueDate;
use crate::errors::{CanvasError, CliError};
use crate::ids::ModuleItemId;
use crate::json::{
    field, get_field, json_document, parse_json_document, scalar_str, scalar_text, DocumentSource,
    JsonValue, ModulePrerequisites,
};
use crate::kinds::{module_requirement_type_named, ModuleRequirementType};
use crate::parse::{parse_module_item_id, parse_module_requirement_type};
use crate::text::{lower, positive_id_spec, to_owned_string, trim};
use vstd::prelude::*;

verus! {

/// What a student must do with a module item.
#[derive(Debug, Clone, Copy, PartialEq)]
pub enum ModuleRequirement<P> {
    View { item_id: ModuleItemId },
    Submit { item_id: ModuleItemId },
    Contribute { item_id: ModuleItemId },
    Score { item_id: ModuleItemId, min_score: P },
}

/// The requirements of a module, in order.
#[derive(Debug, Clone)]
pub struct ModuleRequirements<P>(Vec<ModuleRequirement<P>>);

impl<P> View for ModuleRequirements<P> {
    type V = Seq<ModuleRequirement<P>>;

    closed spec fn view(&self) -> Seq<ModuleRequirement<P>> {
        self.0@
    }
}

impl<P> ModuleRequirements<P> {
    /// The requirements `requirements`, in order.
    pub fn new(requirements: Vec<ModuleRequirement<P>>) -> (r: Self)
        ensures
            r@ == requirements@,
    {
        ModuleRequirements(requirements)
    }

    /// The requirements, in order.
    pub fn requirements(&self) -> (r: &[ModuleRequirement<P>])
        ensures
            r@ == self@,
    {
        self.0.as_slice()
    }
}

/// The model of a requirement: its kind, its item, and its minimum score.
pub ghost enum RequirementModel<P> {
    View(u64),
    Submit(u64),
    Contribute(u64),
    Score(u64, P),
}

/// The model of a requirement.
pub open spec fn requirement_model<P>(r: ModuleRequirement<P>) -> RequirementModel<P> {
    match r {
        ModuleRequirement::View { item_id } => RequirementModel::View(item_id@),
        ModuleRequirement::Submit { item_id } => RequirementModel::Submit(item_id@),
        ModuleRequirement::Contribute { item_id } => RequirementModel::Contribute(item_id@),
        ModuleRequirement::Score { item_id, min_score } => RequirementModel::Score(
            item_id@,
            min_score,
        ),
    }
}

/// Why a requirements document was refused.
pub ghost enum RequirementRefusal {
    /// `InvalidModuleRequirement` with the detail.
    Document(Seq<char>),
    /// An item id's text is not a module item id: `InvalidModuleItemId`.
    ItemId(Seq<char>),
    /// A type's text is not a requirement type: `InvalidModuleRequirementType`.
    Kind(Seq<char>),
}

/// Whether `e` is the error for `f`.
pub open spec fn reports_requirement(f: RequirementRefusal, e: CanvasError) -> bool {
    match f {
        RequirementRefusal::Document(d) => e matches CanvasError::InvalidModuleRequirement(s) && s@
            == d,
        RequirementRefusal::ItemId(t) => e matches CanvasError::InvalidModuleItemId(s) && s@ == t,
        RequirementRefusal::Kind(t) => e matches CanvasError::InvalidModuleRequirementType(s) && s@
            == t,
    }
}

/// The text of an entry's `min_score` member: a number as written or a
/// string; `None` where the entry is not an object or the member is absent
/// or of another kind.
pub open spec fn min_score_text(entry: JsonValue) -> Option<Seq<char>> {
    match entry {
        JsonValue::Object(m) => match field(m@, "min_score"@) {
            Some(x) => scalar_text(x),
            None => None,
        },
        _ => None,
    }
}

/// The caller's reading of the `k`-th entry's minimum score.
pub open spec fn reading_at<P>(readings: Seq<Option<P>>, k: int) -> Option<P> {
    if 0 <= k < readings.len() {
        readings[k]
    } else {
        None
    }
}

/// What a requirement of `kind` for the item `id` is, given the entry's
/// members `m` and the reading of its minimum score.
pub open spec fn kind_spec<P>(
    kind: ModuleRequirementType,
    id: u64,
    m: Seq<(String, JsonValue)>,
    reading: Option<P>,
) -> Result<RequirementModel<P>, RequirementRefusal> {
    let ms = field(m, "min_score"@);
    match kind {
        ModuleRequirementType::View => if ms is Some {
            Err(RequirementRefusal::Document("unexpected_min_score"@))
        } else {
            Ok(RequirementModel::View(id))
        },
        ModuleRequirementType::Submit => if ms is Some {
            Err(RequirementRefusal::Document("unexpected_min_score"@))
        } else {
            Ok(RequirementModel::Submit(id))
        },
        ModuleRequirementType::Contribute => if ms is Some {
            Err(RequirementRefusal::Document("unexpected_min_score"@))
        } else {
            Ok(RequirementModel::Contribute(id))
        },
        ModuleRequirementType::Score => match ms {
            None => Err(RequirementRefusal::Document("missing_min_score"@)),
            Some(x) => if scalar_text(x) is None {
                Err(RequirementRefusal::Document("invalid_min_score"@))
            } else {
                match reading {
                    None => Err(RequirementRefusal::Document("invalid_min_score"@)),
                    Some(p) => Ok(RequirementModel::Score(id, p)),
                }
            },
        },
    }
}

/// One entry: an object with an `item_id` (a number or a string that is a
/// module item id) and a `type` string naming the requirement, then the
/// minimum score, which only a score requirement has.
pub open spec fn entry_spec<P>(entry: JsonValue, reading: Option<P>) -> Result<
    RequirementModel<P>,
    RequirementRefusal,
> {
    match entry {
        JsonValue::Object(m) => match field(m@, "item_id"@) {
            None => Err(RequirementRefusal::Document("missing_item_id"@)),
            Some(iv) => match scalar_text(iv) {
                None => Err(RequirementRefusal::Document("invalid_item_id"@)),
                Some(t) => match positive_id_spec(t) {
                    None => Err(RequirementRefusal::ItemId(t)),
                    Some(id) => match field(m@, "type"@) {
                        None => Err(RequirementRefusal::Document("missing_type"@)),
                        Some(JsonValue::Text(s)) => match module_requirement_type_named(
                            lower(trim(s@)),
                        ) {
                            None => Err(RequirementRefusal::Kind(s@)),
                            Some(kind) => kind_spec(kind, id, m@, reading),
                        },
                        Some(_) => Err(RequirementRefusal::Document("invalid_type"@)),
                    },
                },
            },
        },
        _ => Err(RequirementRefusal::Document("expected_object"@)),
    }
}

/// The requirements of a list of entries, read in order: the first refused
/// entry decides the refusal.
pub open spec fn entries_requirements<P>(entries: Seq<JsonValue>, readings: Seq<Option<P>>) -> Result<
    Seq<RequirementModel<P>>,
    RequirementRefusal,
>
    decreases entries.len(),
{
    if entries.len() == 0 {
        Ok(Seq::empty())
    } else {
        match entries_requirements(entries.drop_last(), readings) {
            Err(f) => Err(f),
            Ok(done) => match entry_spec(
                entries.last(),
                reading_at(readings, entries.len() - 1),
            ) {
                Err(f) => Err(f),
                Ok(x) => Ok(done.push(x)),
            },
        }
    }
}

/// The requirements of a document (`None` where its text is not JSON): an
/// array of entries, possibly empty.
pub open spec fn requirements_spec<P>(document: Option<JsonValue>, readings: Seq<Option<P>>) -> Result<
    Seq<RequirementModel<P>>,
    RequirementRefusal,
> {
    match document {
        None => Err(RequirementRefusal::Document("invalid_json"@)),
        Some(JsonValue::Array(entries)) => entries_requirements(entries@, readings),
        Some(_) => Err(RequirementRefusal::Document("expected_array"@)),
    }
}

proof fn lemma_requirement_refusal_stays<P>(
    entries: Seq<JsonValue>,
    readings: Seq<Option<P>>,
    k: int,
)
    requires
        0 <= k <= entries.len(),
        entries_requirements(entries.take(k), readings) is Err,
    ensures
        entries_requirements(entries, readings) == entries_requirements(entries.take(k), readings),
    decreases entries.len(),
{
    if entries.len() == k {
        assert(entries.take(k) =~= entries);
    } else {
        assert(entries.drop_last().take(k) =~= entries.take(k));
        lemma_requirement_refusal_stays(entries.drop_last(), readings, k);
    }
}

fn detail(d: &str) -> (r: CanvasError)
    ensures
        r matches CanvasError::InvalidModuleRequirement(s) && s@ == d@,
{
    CanvasError::InvalidModuleRequirement(to_owned_string(d))
}

fn read_kind<P: Copy>(
    kind: ModuleRequirementType,
    item_id: ModuleItemId,
    m: &Vec<(String, JsonValue)>,
    reading: Option<P>,
) -> (r: Result<ModuleRequirement<P>, CanvasError>)
    ensures
        match r {
            Ok(x) => kind_spec(kind, item_id@, m@, reading) == Ok::<
                RequirementModel<P>,
                RequirementRefusal,
            >(requirement_model(x)),
            Err(e) => kind_spec(kind, item_id@, m@, reading) matches Err(f) && reports_requirement(
                f,
                e,
            ),
        },
{
    proof {
        reveal_strlit("unexpected_min_score");
        reveal_strlit("missing_min_score");
        reveal_strlit("invalid_min_score");
    }
    let ms = get_field(m, "min_score");
    match kind {
        ModuleRequirementType::View => {
            if ms.is_some() {
                return Err(detail("unexpected_min_score"));
            }
            Ok(ModuleRequirement::View { item_id })
        },
        ModuleRequirementType::Submit => {
            if ms.is_some() {
                return Err(detail("unexpected_min_score"));
            }
            Ok(ModuleRequirement::Submit { item_id })
        },
        ModuleRequirementType::Contribute => {
            if ms.is_some() {
                return Err(detail("unexpected_min_score"));
            }
            Ok(ModuleRequirement::Contribute { item_id })
        },
        ModuleRequirementType::Score => match ms {
            None => Err(detail("missing_min_score")),
            Some(x) => {
                if scalar_str(x).is_none() {
                    return Err(detail("invalid_min_score"));
                }
                match reading {
                    None => Err(detail("invalid_min_score")),
                    Some(p) => Ok(ModuleRequirement::Score { item_id, min_score: p }),
                }
            },
        },
    }
}

fn read_entry<P: Copy>(entry: &JsonValue, reading: Option<P>) -> (r: Result<
    ModuleRequirement<P>,
    CanvasError,
>)
    ensures
        match r {
            Ok(x) => entry_spec(*entry, reading) == Ok::<RequirementModel<P>, RequirementRefusal>(
                requirement_model(x),
            ),
            Err(e) => entry_spec(*entry, reading) matches Err(f) && reports_requirement(f, e),
        },
{
    proof {
        reveal_strlit("missing_item_id");
        reveal_strlit("invalid_item_id");
        reveal_strlit("missing_type");
        reveal_strlit("invalid_type");
        reveal_strlit("expected_object");
    }
    let m = match entry {
        JsonValue::Object(m) => m,
        _ => return Err(detail("expected_object")),
    };
    let iv = match get_field(m, "item_id") {
        Some(v) => v,
        None => return Err(detail("missing_item_id")),
    };
    let t = match scalar_str(iv) {
        Some(t) => t,
        None => return Err(detail("invalid_item_id")),
    };
    let item_id = parse_module_item_id(t)?;
    let kind = match get_field(m, "type") {
        None => return Err(detail("missing_type")),
        Some(JsonValue::Text(s)) => parse_module_requirement_type(s.as_str())?,
        Some(_) => return Err(detail("invalid_type")),
    };
    read_kind(kind, item_id, m, reading)
}

fn reading_of<P: Copy>(readings: &Vec<Option<P>>, k: usize) -> (r: Option<P>)
    ensures
        r == reading_at(readings@, k as int),
{
    if k < readings.len() {
        readings[k]
    } else {
        None
    }
}

/// The requirements of a JSON document (`None` where its text is not JSON):
/// an array whose entries name an item and a requirement type, with the
/// caller's `min_scores` readings, in the entries' order, for the minimum
/// scores.
pub fn module_requirements_of<P: Copy>(
    document: Option<JsonValue>,
    min_scores: &Vec<Option<P>>,
) -> (r: Result<ModuleRequirements<P>, CanvasError>)
    ensures
        match r {
            Ok(v) => requirements_spec(document, min_scores@) == Ok::<
                Seq<RequirementModel<P>>,
                RequirementRefusal,
            >(v@.map_values(|x: ModuleRequirement<P>| requirement_model(x))),
            Err(e) => requirements_spec(document, min_scores@) matches Err(f)
                && reports_requirement(f, e),
        },
{
    proof {
        reveal_strlit("invalid_json");
        reveal_strlit("expected_array");
    }
    let entries = match &document {
        None => return Err(detail("invalid_json")),
        Some(JsonValue::Array(entries)) => entries,
        Some(_) => return Err(detail("expected_array")),
    };
    let mut out: Vec<ModuleRequirement<P>> = Vec::new();
    let mut i: usize = 0;
    assert(entries@.take(0) =~= Seq::<JsonValue>::empty());
    assert(out@.map_values(|x: ModuleRequirement<P>| requirement_model(x)) =~= Seq::<
        RequirementModel<P>,
    >::empty());
    while i < entries.len()
        invariant
            0 <= i <= entries.len(),
            requirements_spec(document, min_scores@) == entries_requirements(entries@, min_scores@),
            entries_requirements(entries@.take(i as int), min_scores@) == Ok::<
                Seq<RequirementModel<P>>,
                RequirementRefusal,
            >(out@.map_values(|x: ModuleRequirement<P>| requirement_model(x))),
        decreases entries.len() - i,
    {
        assert(entries@.take(i as int + 1).drop_last() =~= entries@.take(i as int));
        assert(entries@.take(i as int + 1).last() == entries@[i as int]);
        let reading = reading_of(min_scores, i);
        match read_entry(&entries[i], reading) {
            Ok(x) => {
                out.push(x);
                assert(out@.map_values(|x: ModuleRequirement<P>| requirement_model(x))
                    =~= entries_requirements(entries@.take(i as int), min_scores@).get_Ok_0().push(
                    requirement_model(x),
                ));
            },
            Err(e) => {
                proof {
                    let pre = entries@.take(i as int + 1);
                    assert(pre.len() - 1 == i as int);
                    assert(pre.drop_last() =~= entries@.take(i as int));
                    assert(pre.last() == entries@[i as int]);
                    let f = entry_spec(entries@[i as int], reading)->Err_0;
                    assert(entries_requirements(pre, min_scores@) == Err::<
                        Seq<RequirementModel<P>>,
                        RequirementRefusal,
                    >(f));
                    lemma_requirement_refusal_stays(entries@, min_scores@, i as int + 1);
                }
                return Err(e);
            },
        }
        i = i + 1;
    }
    assert(entries@.take(entries@.len() as int) =~= entries@);
    Ok(ModuleRequirements::new(out))
}

/// The requirements of the JSON text `raw`, with the caller's `min_scores`
/// readings, in the entries' order, for the minimum scores.
pub fn parse_module_requirements<P: Copy>(raw: &str, min_scores: &Vec<Option<P>>) -> (r: Result<
    ModuleRequirements<P>,
    CanvasError,
>)
    ensures
        match r {
            Ok(v) => requirements_spec(json_document(raw@), min_scores@) == Ok::<
                Seq<RequirementModel<P>>,
                RequirementRefusal,
            >(v@.map_values(|x: ModuleRequirement<P>| requirement_model(x))),
            Err(e) => requirements_spec(json_document(raw@), min_scores@) matches Err(f)
                && reports_requirement(f, e),
        },
{
    module_requirements_of(parse_json_document(raw), min_scores)
}

/// The `min_score` texts of the entries of the JSON text `raw`, in order
/// (see [`min_score_text`]); none where it is not a JSON array.
pub fn min_score_texts(raw: &str) -> (r: Vec<Option<String>>)
    ensures
        match json_document(raw@) {
            Some(JsonValue::Array(entries)) => r@.len() == entries@.len() && forall|k: int|
                0 <= k < entries@.len() ==> #[trigger] text_opt(r@[k]) == min_score_text(
                    entries@[k],
                ),
            _ => r@.len() == 0,
        },
{
    match parse_json_document(raw) {
        Some(document) => min_score_texts_of(&document),
        None => Vec::new(),
    }
}

/// The `min_score` texts of a requirements document's entries, in order
/// (see [`min_score_text`]); none where the document is not an array.
pub fn min_score_texts_of(document: &JsonValue) -> (r: Vec<Option<String>>)
    ensures
        match *document {
            JsonValue::Array(entries) => r@.len() == entries@.len() && forall|k: int|
                0 <= k < entries@.len() ==> #[trigger] text_opt(r@[k]) == min_score_text(
                    entries@[k],
                ),
            _ => r@.len() == 0,
        },
{
    let mut out: Vec<Option<String>> = Vec::new();
    match document {
        JsonValue::Array(entries) => {
            let mut i: usize = 0;
            while i < entries.len()
                invariant
                    0 <= i <= entries.len(),
                    out@.len() == i,
                    forall|k: int| 0 <= k < i ==> #[trigger] text_opt(out@[k]) == min_score_text(
                        entries@[k],
                    ),
                decreases entries.len() - i,
            {
                let text = match &entries[i] {
                    JsonValue::Object(m) => match get_field(m, "min_score") {
                        Some(x) => match scalar_str(x) {
                            Some(t) => Some(to_owned_string(t)),
                            None => None,
                        },
                        None => None,
                    },
                    _ => None,
                };
                out.push(text);
                i = i + 1;
            }
        },
        _ => {},
    }
    out
}

/// The text of an optional string.
pub open spec fn text_opt(t: Option<String>) -> Option<Seq<char>> {
    match t {
        Some(t) => Some(t@),
        None => None,
    }
}

/// Whether `v` is the requirements that `source` gives, with the caller's
/// minimum score `readings`.
pub open spec fn requirements_from<P>(
    source: DocumentSource,
    readings: Seq<Option<P>>,
    v: Option<ModuleRequirements<P>>,
) -> bool {
    match source {
        DocumentSource::Absent => v is None,
        DocumentSource::Read(raw) => v matches Some(x) && requirements_spec(json_document(raw@), readings)
            == Ok::<Seq<RequirementModel<P>>, RequirementRefusal>(
            x@.map_values(|y: ModuleRequirement<P>| requirement_model(y)),
        ),
        _ => false,
    }
}

/// Whether the requirements that `source` names are refused.
pub open spec fn requirements_fail<P>(source: DocumentSource, readings: Seq<Option<P>>) -> bool {
    match source {
        DocumentSource::Absent => false,
        DocumentSource::Read(raw) => requirements_spec(json_document(raw@), readings) is Err,
        _ => true,
    }
}

/// Whether `e` is the error for the requirements that `source` names.
pub open spec fn requirements_refused<P>(
    source: DocumentSource,
    readings: Seq<Option<P>>,
    e: CliError,
) -> bool {
    match source {
        DocumentSource::Absent => false,
        DocumentSource::Conflicting => e matches CliError::Canvas(
            CanvasError::InvalidModuleRequirement(s),
        ) && s@ == "multiple_sources"@,
        DocumentSource::Unreadable(p, m) => e matches CliError::FileRead(a, b) && a@ == p@ && b@
            == m@,
        DocumentSource::Read(raw) => requirements_spec(json_document(raw@), readings) matches Err(f) && (
        e matches CliError::Canvas(c) && reports_requirement(f, c)),
    }
}

/// The requirements of a command, where a document is given: not both a
/// text and a file, and a valid requirements document.
pub fn requirements_input<P: Copy>(source: DocumentSource, min_scores: &Vec<Option<P>>) -> (r:
    Result<Option<ModuleRequirements<P>>, CliError>)
    ensures
        match r {
            Ok(v) => !requirements_fail(source, min_scores@) && requirements_from(
                source,
                min_scores@,
                v,
            ),
            Err(e) => requirements_fail(source, min_scores@) && requirements_refused(
                source,
                min_scores@,
                e,
            ),
        },
{
    match source {
        DocumentSource::Absent => Ok(None),
        DocumentSource::Conflicting => Err(CliError::Canvas(detail("multiple_sources"))),
        DocumentSource::Unreadable(p, m) => Err(CliError::FileRead(p, m)),
        DocumentSource::Read(raw) => match parse_module_requirements(raw.as_str(), min_scores) {
            Ok(v) => Ok(Some(v)),
            Err(e) => Err(CliError::Canvas(e)),
        },
    }
}

/// When a module unlocks, and whether its items must be completed in order.
#[derive(Debug)]
pub struct ModuleUnlockRules {
    pub unlock_at: Option<DueDate>,
    pub require_sequential_progress: Option<bool>,
}

impl ModuleUnlockRules {
    /// The unlock date and the sequential-progress setting, each where given.
    pub fn new(unlock_at: Option<DueDate>, require_sequential_progress: Option<bool>) -> (r: Self)
        ensures
            r.unlock_at == unlock_at,
            r.require_sequential_progress == require_sequential_progress,
    {
        ModuleUnlockRules { unlock_at, require_sequential_progress }
    }
}

/// What changes a module's completion rules: its requirements, its
/// prerequisites and its unlock rules; at least one of them.
#[derive(Debug)]
pub struct ModuleRequirementsUpdateInput<P> {
    pub requirements: Option<ModuleRequirements<P>>,
    pub prerequisites: Option<ModulePrerequisites>,
    pub unlock_rules: Option<ModuleUnlockRules>,
}

impl<P> ModuleRequirementsUpdateInput<P> {
    /// A change of the given parts; at least one must be given.
    pub fn new(
        requirements: Option<ModuleRequirements<P>>,
        prerequisites: Option<ModulePrerequisites>,
        unlock_rules: Option<ModuleUnlockRules>,
    ) -> (r: Result<Self, CanvasError>)
        ensures
            match r {
                Ok(u) => !(requirements is None && prerequisites is None && unlock_rules is None)
                    && u == (ModuleRequirementsUpdateInput { requirements, prerequisites, unlock_rules }),
                Err(e) => requirements is None && prerequisites is None && unlock_rules is None && (
                e matches CanvasError::InvalidModuleRequirementUpdate(s) && s@ == "no_fields"@),
            },
    {
        if requirements.is_none() && prerequisites.is_none() && unlock_rules.is_none() {
            return Err(CanvasError::InvalidModuleRequirementUpdate(to_owned_string("no_fields")));
        }
        Ok(ModuleRequirementsUpdateInput { requirements, prerequisites, unlock_rules })
    }
}

} // verus!
