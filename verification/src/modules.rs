//! Course modules: the inputs that create or change them, and the typed
//! requests that module commands stand for.

use crate::cli::{course_choice, course_for, course_refusal, date_input, date_option, GlobalOptions};
use crate::dates::Timestamp;
use crate::errors::{CanvasError, CliError};
use crate::ids::{CourseId, ModuleId};
use crate::json::{
    json_document, module_prerequisites_input, module_prerequisites_spec, prerequisites_from,
    prerequisites_refused, DocumentSource,
};
use crate::requirements::{
    requirements_fail, requirements_from, requirements_input, requirements_refused,
    ModuleRequirementsUpdateInput, ModuleUnlockRules,
};
use crate::windows::view_of;
use crate::text::positive_id_spec;
use crate::kinds::{publish_state_named, PublishState};
use crate::names::ModuleName;
use crate::parse::{parse_module_id, parse_module_name, parse_publish_state};
use crate::text::{lower, to_owned_string, trim};
use vstd::prelude::*;

verus! {

/// What creates a module.
#[derive(Debug, Clone)]
pub struct ModuleCreateInput {
    pub name: ModuleName,
    pub publish_state: Option<PublishState>,
}

impl ModuleCreateInput {
    /// A module named `name`, published or not where said.
    pub fn new(name: ModuleName, publish_state: Option<PublishState>) -> (r: Self)
        ensures
            r.name@ == name@,
            r.publish_state == publish_state,
    {
        ModuleCreateInput { name, publish_state }
    }
}

/// What changes a module: at least one field.
#[derive(Debug, Clone)]
pub struct ModuleUpdateInput {
    pub name: Option<ModuleName>,
    pub publish_state: Option<PublishState>,
}

impl ModuleUpdateInput {
    /// A change of the given fields; at least one must be given.
    pub fn new(name: Option<ModuleName>, publish_state: Option<PublishState>) -> (r: Result<
        Self,
        CanvasError,
    >)
        ensures
            match r {
                Ok(u) => !(name is None && publish_state is None) && u == (ModuleUpdateInput {
                    name,
                    publish_state,
                }),
                Err(e) => name is None && publish_state is None && (
                e matches CanvasError::InvalidModuleUpdate(s) && s@ == "no_fields"@),
            },
    {
        if name.is_none() && publish_state.is_none() {
            return Err(CanvasError::InvalidModuleUpdate(to_owned_string("no_fields")));
        }
        Ok(ModuleUpdateInput { name, publish_state })
    }
}

/// A module command as given on the command line, unvalidated: listing,
/// creating, changing, reordering and publishing modules, and listing and
/// changing a module's completion rules. `P` is the caller's type for the
/// minimum scores of score requirements, read from their texts in the
/// requirements document's order (see `requirements::min_score_texts`).
#[derive(Debug)]
pub enum ModuleCommand<P> {
    List { course: Option<String> },
    Create { course: Option<String>, name: String, publish_state: Option<String> },
    Update {
        course: Option<String>,
        module: String,
        name: Option<String>,
        publish_state: Option<String>,
    },
    Reorder { course: Option<String>, module_ids: Vec<String> },
    Publish { course: Option<String>, module: String, publish_state: String },
    RequirementList { course: Option<String>, module: String },
    RequirementUpdate {
        course: Option<String>,
        module: String,
        requirements: DocumentSource,
        min_scores: Vec<Option<P>>,
        prerequisites: DocumentSource,
        unlock_at: Option<String>,
        sequential_progress: Option<bool>,
    },
}

/// A validated module command.
#[derive(Debug)]
pub enum ModuleRequest<P> {
    List { course_id: CourseId },
    Create { course_id: CourseId, input: ModuleCreateInput },
    Update { course_id: CourseId, module_id: ModuleId, input: ModuleUpdateInput },
    Reorder { course_id: CourseId, module_ids: Vec<ModuleId> },
    Publish { course_id: CourseId, module_id: ModuleId, publish_state: PublishState },
    RequirementList { course_id: CourseId, module_id: ModuleId },
    RequirementUpdate {
        course_id: CourseId,
        module_id: ModuleId,
        input: ModuleRequirementsUpdateInput<P>,
    },
}

/// The module ids of a list of texts, read in order: the first text that is
/// not a module id is reported.
pub open spec fn module_ids_spec(raws: Seq<String>) -> Result<Seq<u64>, Seq<char>>
    decreases raws.len(),
{
    if raws.len() == 0 {
        Ok(Seq::empty())
    } else {
        match module_ids_spec(raws.drop_last()) {
            Err(t) => Err(t),
            Ok(ids) => match positive_id_spec(raws.last()@) {
                Some(v) => Ok(ids.push(v)),
                None => Err(raws.last()@),
            },
        }
    }
}

proof fn lemma_module_ids_refusal_stays(raws: Seq<String>, k: int)
    requires
        0 <= k <= raws.len(),
        module_ids_spec(raws.take(k)) is Err,
    ensures
        module_ids_spec(raws) == module_ids_spec(raws.take(k)),
    decreases raws.len(),
{
    if raws.len() == k {
        assert(raws.take(k) =~= raws);
    } else {
        assert(raws.drop_last().take(k) =~= raws.take(k));
        lemma_module_ids_refusal_stays(raws.drop_last(), k);
    }
}

/// The module ids of a list of texts, in order.
pub fn parse_module_ids(raws: &Vec<String>) -> (r: Result<Vec<ModuleId>, CliError>)
    ensures
        match r {
            Ok(ids) => module_ids_spec(raws@) == Ok::<Seq<u64>, Seq<char>>(
                ids@.map_values(|m: ModuleId| m@),
            ),
            Err(e) => module_ids_spec(raws@) matches Err(t) && (e matches CliError::Canvas(
                CanvasError::InvalidModuleId(s),
            ) && s@ == t),
        },
{
    let mut ids: Vec<ModuleId> = Vec::new();
    let mut i: usize = 0;
    assert(raws@.take(0) =~= Seq::<String>::empty());
    assert(ids@.map_values(|m: ModuleId| m@) =~= Seq::<u64>::empty());
    while i < raws.len()
        invariant
            0 <= i <= raws.len(),
            module_ids_spec(raws@.take(i as int)) == Ok::<Seq<u64>, Seq<char>>(
                ids@.map_values(|m: ModuleId| m@),
            ),
        decreases raws.len() - i,
    {
        assert(raws@.take(i as int + 1).drop_last() =~= raws@.take(i as int));
        assert(raws@.take(i as int + 1).last() == raws@[i as int]);
        match parse_module_id(raws[i].as_str()) {
            Ok(id) => {
                ids.push(id);
                assert(ids@.map_values(|m: ModuleId| m@) =~= module_ids_spec(
                    raws@.take(i as int),
                ).get_Ok_0().push(id@));
            },
            Err(e) => {
                proof {
                    assert(module_ids_spec(raws@.take(i as int + 1)) is Err);
                    lemma_module_ids_refusal_stays(raws@, i as int + 1);
                }
                return Err(CliError::Canvas(e));
            },
        }
        i = i + 1;
    }
    assert(raws@.take(raws@.len() as int) =~= raws@);
    Ok(ids)
}

/// The name text of a module, where given and not blank; `Err` carries the
/// refused text.
pub open spec fn module_name_spec(name: Option<String>) -> Result<Option<Seq<char>>, Seq<char>> {
    match name {
        Some(x) => if trim(x@).len() > 0 {
            Ok(Some(trim(x@)))
        } else {
            Err(x@)
        },
        None => Ok(None),
    }
}

/// The publish state of a module, where given; `Err` carries the refused text.
pub open spec fn module_state_spec(publish_state: Option<String>) -> Result<
    Option<PublishState>,
    Seq<char>,
> {
    match publish_state {
        Some(x) => match publish_state_named(lower(trim(x@))) {
            Some(v) => Ok(Some(v)),
            None => Err(x@),
        },
        None => Ok(None),
    }
}

/// Whether `e` is the error for the module id text `t`.
pub open spec fn bad_module(t: String, e: CliError) -> bool {
    positive_id_spec(t@) is None && (e matches CliError::Canvas(CanvasError::InvalidModuleId(s))
        && s@ == t@)
}

/// Whether `e` is the error for the module name text `t`.
pub open spec fn bad_module_name(t: Seq<char>, e: CliError) -> bool {
    e matches CliError::Canvas(CanvasError::InvalidModuleName(s)) && s@ == t
}

/// Whether `e` is the error for the publish state text `t`.
pub open spec fn bad_module_state(t: Seq<char>, e: CliError) -> bool {
    e matches CliError::Canvas(CanvasError::InvalidPublishState(s)) && s@ == t
}

/// The text of an optional module name.
pub open spec fn module_name_text(n: Option<ModuleName>) -> Option<Seq<char>> {
    match n {
        Some(n) => Some(n@),
        None => None,
    }
}

/// Whether `r` is what the module command `command` stands for: the course
/// first, then the module, then the fields in order.
pub open spec fn module_outcome<P>(
    command: ModuleCommand<P>,
    default: Option<CourseId>,
    r: Result<ModuleRequest<P>, CliError>,
) -> bool {
    match command {
        ModuleCommand::List { course } => match r {
            Ok(req) => req matches ModuleRequest::List { course_id }
                && course_choice(course, default) == Some(course_id@),
            Err(e) => course_choice(course, default) is None && course_refusal(course, e),
        },
        ModuleCommand::Create { course, name, publish_state } => match r {
            Ok(req) => req matches ModuleRequest::Create { course_id, input }
                && course_choice(course, default) == Some(course_id@) && module_name_spec(
                Some(name),
            ) == Ok::<Option<Seq<char>>, Seq<char>>(Some(input.name@)) && module_state_spec(
                publish_state,
            ) == Ok::<Option<PublishState>, Seq<char>>(input.publish_state),
            Err(e) => if course_choice(course, default) is None {
                course_refusal(course, e)
            } else if trim(name@).len() == 0 {
                bad_module_name(name@, e)
            } else {
                module_state_spec(publish_state) matches Err(t) && bad_module_state(t, e)
            },
        },
        ModuleCommand::Update { course, module, name, publish_state } => match r {
            Ok(req) => req matches ModuleRequest::Update { course_id, module_id, input }
                && course_choice(course, default) == Some(course_id@) && positive_id_spec(module@)
                == Some(module_id@) && module_name_spec(name) == Ok::<Option<Seq<char>>, Seq<char>>(
                module_name_text(input.name),
            ) && module_state_spec(publish_state) == Ok::<Option<PublishState>, Seq<char>>(
                input.publish_state,
            ) && !(input.name is None && input.publish_state is None),
            Err(e) => if course_choice(course, default) is None {
                course_refusal(course, e)
            } else if positive_id_spec(module@) is None {
                bad_module(module, e)
            } else if module_name_spec(name) is Err {
                module_name_spec(name) matches Err(t) && bad_module_name(t, e)
            } else if module_state_spec(publish_state) is Err {
                module_state_spec(publish_state) matches Err(t) && bad_module_state(t, e)
            } else {
                name is None && publish_state is None && (e matches CliError::Canvas(
                    CanvasError::InvalidModuleUpdate(s),
                ) && s@ == "no_fields"@)
            },
        },
        ModuleCommand::Reorder { course, module_ids } => match r {
            Ok(req) => req matches ModuleRequest::Reorder { course_id, module_ids: ids }
                && course_choice(course, default) == Some(course_id@) && module_ids_spec(
                module_ids@,
            ) == Ok::<Seq<u64>, Seq<char>>(ids@.map_values(|m: ModuleId| m@)) && ids@.len() > 0,
            Err(e) => if course_choice(course, default) is None {
                course_refusal(course, e)
            } else {
                match module_ids_spec(module_ids@) {
                    Err(t) => e matches CliError::Canvas(CanvasError::InvalidModuleId(s)) && s@
                        == t,
                    Ok(ids) => ids.len() == 0 && (e matches CliError::Canvas(
                        CanvasError::InvalidModuleReorder(s),
                    ) && s@ == "empty_order"@),
                }
            },
        },
        ModuleCommand::Publish { course, module, publish_state } => match r {
            Ok(req) => req matches ModuleRequest::Publish { course_id, module_id, publish_state: p }
                && course_choice(course, default) == Some(course_id@) && positive_id_spec(module@)
                == Some(module_id@) && publish_state_named(lower(trim(publish_state@))) == Some(p),
            Err(e) => if course_choice(course, default) is None {
                course_refusal(course, e)
            } else if positive_id_spec(module@) is None {
                bad_module(module, e)
            } else {
                publish_state_named(lower(trim(publish_state@))) is None && bad_module_state(
                    publish_state@,
                    e,
                )
            },
        },
        ModuleCommand::RequirementList { course, module } => match r {
            Ok(req) => req matches ModuleRequest::RequirementList { course_id, module_id }
                && course_choice(course, default) == Some(course_id@) && positive_id_spec(module@)
                == Some(module_id@),
            Err(e) => if course_choice(course, default) is None {
                course_refusal(course, e)
            } else {
                bad_module(module, e)
            },
        },
        ModuleCommand::RequirementUpdate {
            course,
            module,
            requirements,
            min_scores,
            prerequisites,
            unlock_at,
            sequential_progress,
        } => match r {
            Ok(req) => req matches ModuleRequest::RequirementUpdate { course_id, module_id, input }
                && course_choice(course, default) == Some(course_id@) && positive_id_spec(module@)
                == Some(module_id@) && requirements_from(
                requirements,
                min_scores@,
                input.requirements,
            ) && prerequisites_from(prerequisites, input.prerequisites) && (date_option(
                unlock_at,
            ) matches Ok(u) && unlock_rules_match(u, sequential_progress, input.unlock_rules))
                && !(input.requirements is None && input.prerequisites is None
                && input.unlock_rules is None),
            Err(e) => if course_choice(course, default) is None {
                course_refusal(course, e)
            } else if positive_id_spec(module@) is None {
                bad_module(module, e)
            } else if requirements_fail(requirements, min_scores@) {
                requirements_refused(requirements, min_scores@, e)
            } else if prerequisites_fail(prerequisites) {
                prerequisites_refused(prerequisites, e)
            } else if date_option(unlock_at) is Err {
                date_option(unlock_at) matches Err(t) && (e matches CliError::Canvas(
                    CanvasError::InvalidDueDate(s),
                ) && s@ == t)
            } else {
                requirements is Absent && prerequisites is Absent && unlock_at is None
                    && sequential_progress is None && (e matches CliError::Canvas(
                    CanvasError::InvalidModuleRequirementUpdate(s),
                ) && s@ == "no_fields"@)
            },
        },
    }
}

/// Whether the prerequisites that `source` names are refused.
pub open spec fn prerequisites_fail(source: DocumentSource) -> bool {
    match source {
        DocumentSource::Absent => false,
        DocumentSource::Read(raw) => module_prerequisites_spec(json_document(raw@)) is Err,
        _ => true,
    }
}

/// Whether `rules` is what an unlock date `unlock` and a sequential-progress
/// setting `sequential` give: none where neither is given.
pub open spec fn unlock_rules_match(
    unlock: Option<Timestamp>,
    sequential: Option<bool>,
    rules: Option<ModuleUnlockRules>,
) -> bool {
    if unlock is None && sequential is None {
        rules is None
    } else {
        rules matches Some(x) && view_of(x.unlock_at) == unlock && x.require_sequential_progress
            == sequential
    }
}

fn read_module_name(name: Option<String>) -> (r: Result<Option<ModuleName>, CliError>)
    ensures
        match r {
            Ok(n) => module_name_spec(name) == Ok::<Option<Seq<char>>, Seq<char>>(
                module_name_text(n),
            ),
            Err(e) => module_name_spec(name) matches Err(t) && bad_module_name(t, e),
        },
{
    match name {
        Some(raw) => match parse_module_name(raw.as_str()) {
            Ok(n) => Ok(Some(n)),
            Err(e) => Err(CliError::Canvas(e)),
        },
        None => Ok(None),
    }
}

fn read_module_state(publish_state: Option<String>) -> (r: Result<Option<PublishState>, CliError>)
    ensures
        match r {
            Ok(p) => module_state_spec(publish_state) == Ok::<Option<PublishState>, Seq<char>>(p),
            Err(e) => module_state_spec(publish_state) matches Err(t) && bad_module_state(t, e),
        },
{
    match publish_state {
        Some(raw) => match parse_publish_state(raw.as_str()) {
            Ok(p) => Ok(Some(p)),
            Err(e) => Err(CliError::Canvas(e)),
        },
        None => Ok(None),
    }
}

fn read_module_id(module: String) -> (r: Result<ModuleId, CliError>)
    ensures
        match r {
            Ok(m) => positive_id_spec(module@) == Some(m@),
            Err(e) => bad_module(module, e),
        },
{
    match parse_module_id(module.as_str()) {
        Ok(m) => Ok(m),
        Err(e) => Err(CliError::Canvas(e)),
    }
}

/// The validated request that a module command stands for.
pub fn module_request<P: Copy>(command: ModuleCommand<P>, global: &GlobalOptions) -> (r: Result<
    ModuleRequest<P>,
    CliError,
>)
    ensures
        module_outcome(command, global.course, r),
{
    match command {
        ModuleCommand::List { course } => {
            let course_id = course_for(course, global)?;
            Ok(ModuleRequest::List { course_id })
        },
        ModuleCommand::Create { course, name, publish_state } => {
            let course_id = course_for(course, global)?;
            let name = match parse_module_name(name.as_str()) {
                Ok(n) => n,
                Err(e) => return Err(CliError::Canvas(e)),
            };
            let publish_state = read_module_state(publish_state)?;
            let input = ModuleCreateInput::new(name, publish_state);
            Ok(ModuleRequest::Create { course_id, input })
        },
        ModuleCommand::Update { course, module, name, publish_state } => {
            let course_id = course_for(course, global)?;
            let module_id = read_module_id(module)?;
            let name = read_module_name(name)?;
            let publish_state = read_module_state(publish_state)?;
            match ModuleUpdateInput::new(name, publish_state) {
                Ok(input) => Ok(ModuleRequest::Update { course_id, module_id, input }),
                Err(e) => Err(CliError::Canvas(e)),
            }
        },
        ModuleCommand::Reorder { course, module_ids } => {
            let course_id = course_for(course, global)?;
            let ids = parse_module_ids(&module_ids)?;
            if ids.len() == 0 {
                return Err(
                    CliError::Canvas(CanvasError::InvalidModuleReorder(to_owned_string("empty_order"))),
                );
            }
            Ok(ModuleRequest::Reorder { course_id, module_ids: ids })
        },
        ModuleCommand::Publish { course, module, publish_state } => {
            let course_id = course_for(course, global)?;
            let module_id = read_module_id(module)?;
            match parse_publish_state(publish_state.as_str()) {
                Ok(p) => Ok(ModuleRequest::Publish { course_id, module_id, publish_state: p }),
                Err(e) => Err(CliError::Canvas(e)),
            }
        },
        ModuleCommand::RequirementList { course, module } => {
            let course_id = course_for(course, global)?;
            let module_id = read_module_id(module)?;
            Ok(ModuleRequest::RequirementList { course_id, module_id })
        },
        ModuleCommand::RequirementUpdate {
            course,
            module,
            requirements,
            min_scores,
            prerequisites,
            unlock_at,
            sequential_progress,
        } => {
            let course_id = course_for(course, global)?;
            let module_id = read_module_id(module)?;
            let requirements = requirements_input(requirements, &min_scores)?;
            let prerequisites = module_prerequisites_input(prerequisites)?;
            let unlock_at = date_input(unlock_at)?;
            let unlock_rules = if unlock_at.is_some() || sequential_progress.is_some() {
                Some(ModuleUnlockRules::new(unlock_at, sequential_progress))
            } else {
                None
            };
            match ModuleRequirementsUpdateInput::new(requirements, prerequisites, unlock_rules) {
                Ok(input) => Ok(ModuleRequest::RequirementUpdate { course_id, module_id, input }),
                Err(e) => Err(CliError::Canvas(e)),
            }
        },
    }
}

} // verus!
