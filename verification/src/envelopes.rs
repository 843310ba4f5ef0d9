//! The JSON documents the command line prints with `--json`: every response
//! carries `ok`, `schema_version` and `command`; a success carries `data` or
//! the planned actions, and an error carries its `code`, `message` and
//! `details`.

use crate::ask::{PlannedCommand, PromptPlan};
use crate::details::{details_of, error_details, ErrorDetails};
use crate::errors::CliError;
use crate::json::JsonValue;
use crate::text::{dec, to_owned_string, u64_to_string};
use vstd::prelude::*;

verus! {

/// The version of the output schemas.
pub fn schema_version() -> (r: &'static str)
    ensures
        r@ == "v10"@,
{
    "v10"
}

/// Whether `v` is the string `t`.
pub open spec fn text_is(v: JsonValue, t: Seq<char>) -> bool {
    v matches JsonValue::Text(s) && s@ == t
}

/// Whether `v` is the number written `dec(n)`.
pub open spec fn number_is(v: JsonValue, n: nat) -> bool {
    v matches JsonValue::Number(s) && s@ == dec(n)
}

/// Whether `v` is the string `t` where given, and `null` where not.
pub open spec fn optional_text_is(v: JsonValue, t: Option<String>) -> bool {
    match t {
        Some(t) => text_is(v, t@),
        None => v == JsonValue::Null,
    }
}

/// Whether the member `m` is named `key`.
pub open spec fn named(m: (String, JsonValue), key: Seq<char>) -> bool {
    m.0@ == key
}

/// A string value.
pub fn text_value(s: &str) -> (r: JsonValue)
    ensures
        text_is(r, s@),
{
    JsonValue::Text(to_owned_string(s))
}

/// A number value.
pub fn number_value(n: u64) -> (r: JsonValue)
    ensures
        number_is(r, n as nat),
{
    JsonValue::Number(u64_to_string(n))
}

fn optional_text(t: Option<String>) -> (r: JsonValue)
    ensures
        optional_text_is(r, t),
{
    match t {
        Some(s) => JsonValue::Text(s),
        None => JsonValue::Null,
    }
}

/// An object member.
pub fn member(key: &str, value: JsonValue) -> (r: (String, JsonValue))
    ensures
        r.0@ == key@,
        r.1 == value,
{
    (to_owned_string(key), value)
}

/// Whether `m` begins with the members every response has: `ok`,
/// `schema_version` and `command`, in that order.
pub open spec fn head_is(m: Seq<(String, JsonValue)>, ok: bool, command: Seq<char>) -> bool {
    &&& m.len() >= 3
    &&& named(m[0], "ok"@) && m[0].1 == JsonValue::Bool(ok)
    &&& named(m[1], "schema_version"@) && text_is(m[1].1, "v10"@)
    &&& named(m[2], "command"@) && text_is(m[2].1, command)
}

fn head(ok: bool, command: &str) -> (r: Vec<(String, JsonValue)>)
    ensures
        r@.len() == 3,
        head_is(r@, ok, command@),
{
    let mut m: Vec<(String, JsonValue)> = Vec::new();
    m.push(member("ok", JsonValue::Bool(ok)));
    m.push(member("schema_version", text_value(schema_version())));
    m.push(member("command", text_value(command)));
    m
}

/// The response of a command that succeeded with `data`.
pub fn success_envelope(command: &str, data: JsonValue) -> (r: JsonValue)
    ensures
        r matches JsonValue::Object(m) && m@.len() == 4 && head_is(m@, true, command@) && named(
            m@[3],
            "data"@,
        ) && m@[3].1 == data,
{
    let mut m = head(true, command);
    m.push(member("data", data));
    JsonValue::Object(m)
}

/// An action a command would take, shown when it is only explained.
#[derive(Debug, Clone, Copy, PartialEq, Eq)]
pub struct PlannedAction {
    pub action: &'static str,
    pub risk: &'static str,
    pub requires_confirmation: bool,
}

/// Whether `v` is the JSON form of the planned action `a`.
pub open spec fn action_json_is(v: JsonValue, a: PlannedAction) -> bool {
    v matches JsonValue::Object(m) && m@.len() == 3 && named(m@[0], "action"@) && text_is(
        m@[0].1,
        a.action@,
    ) && named(m@[1], "risk"@) && text_is(m@[1].1, a.risk@) && named(
        m@[2],
        "requires_confirmation"@,
    ) && m@[2].1 == JsonValue::Bool(a.requires_confirmation)
}

fn action_json(a: &PlannedAction) -> (r: JsonValue)
    ensures
        action_json_is(r, *a),
{
    let mut m: Vec<(String, JsonValue)> = Vec::new();
    m.push(member("action", text_value(a.action)));
    m.push(member("risk", text_value(a.risk)));
    m.push(member("requires_confirmation", JsonValue::Bool(a.requires_confirmation)));
    JsonValue::Object(m)
}

/// The response of a command that is only explained: the actions it would
/// take, in order.
pub fn plan_envelope(command: &str, actions: &[PlannedAction]) -> (r: JsonValue)
    ensures
        r matches JsonValue::Object(m) && m@.len() == 4 && head_is(m@, true, command@) && named(
            m@[3],
            "planned_actions"@,
        ) && (m@[3].1 matches JsonValue::Array(items) && items@.len() == actions@.len() && forall|
            k: int,
        |
            0 <= k < actions@.len() ==> action_json_is(#[trigger] items@[k], actions@[k])),
{
    let mut items: Vec<JsonValue> = Vec::new();
    let mut i: usize = 0;
    while i < actions.len()
        invariant
            0 <= i <= actions@.len(),
            items@.len() == i,
            forall|k: int| 0 <= k < i ==> action_json_is(#[trigger] items@[k], actions@[k]),
        decreases actions@.len() - i,
    {
        items.push(action_json(&actions[i]));
        i = i + 1;
    }
    let mut m = head(true, command);
    m.push(member("planned_actions", JsonValue::Array(items)));
    JsonValue::Object(m)
}

/// Whether `v` is the JSON form of a planned command's parameter `p`: the
/// pair of its key and value.
pub open spec fn param_json_is(v: JsonValue, p: (&'static str, String)) -> bool {
    v matches JsonValue::Array(kv) && kv@.len() == 2 && text_is(kv@[0], p.0@) && text_is(
        kv@[1],
        p.1@,
    )
}

/// Whether `v` is the JSON form of the planned command `c`.
pub open spec fn command_json_is(v: JsonValue, c: PlannedCommand) -> bool {
    v matches JsonValue::Object(m) && m@.len() == 5 && named(m@[0], "id"@) && text_is(
        m@[0].1,
        c.id@,
    ) && named(m@[1], "command"@) && text_is(m@[1].1, c.command@) && named(m@[2], "params"@) && (
    m@[2].1 matches JsonValue::Array(ps) && ps@.len() == c.params@.len() && forall|k: int|
        0 <= k < ps@.len() ==> param_json_is(#[trigger] ps@[k], c.params@[k])) && named(
        m@[3],
        "risk"@,
    ) && text_is(m@[3].1, c.risk@) && named(m@[4], "destructive"@) && m@[4].1 == JsonValue::Bool(
        c.destructive,
    )
}

fn command_json(c: &PlannedCommand) -> (r: JsonValue)
    ensures
        command_json_is(r, *c),
{
    let mut ps: Vec<JsonValue> = Vec::new();
    let mut i: usize = 0;
    while i < c.params.len()
        invariant
            0 <= i <= c.params@.len(),
            ps@.len() == i,
            forall|k: int| 0 <= k < i ==> param_json_is(#[trigger] ps@[k], c.params@[k]),
        decreases c.params@.len() - i,
    {
        let mut kv: Vec<JsonValue> = Vec::new();
        kv.push(text_value(c.params[i].0));
        kv.push(text_value(c.params[i].1.as_str()));
        ps.push(JsonValue::Array(kv));
        i = i + 1;
    }
    let mut m: Vec<(String, JsonValue)> = Vec::new();
    m.push(member("id", text_value(c.id)));
    m.push(member("command", text_value(c.command)));
    m.push(member("params", JsonValue::Array(ps)));
    m.push(member("risk", text_value(c.risk)));
    m.push(member("destructive", JsonValue::Bool(c.destructive)));
    JsonValue::Object(m)
}

/// Whether `v` is the `data` of the plan `p`: its prompt, rationale and
/// commands, in order.
pub open spec fn plan_data_is(v: JsonValue, p: PromptPlan) -> bool {
    v matches JsonValue::Object(m) && m@.len() == 3 && named(m@[0], "prompt"@) && text_is(
        m@[0].1,
        p.prompt@,
    ) && named(m@[1], "rationale"@) && text_is(m@[1].1, p.rationale@) && named(
        m@[2],
        "commands"@,
    ) && (m@[2].1 matches JsonValue::Array(cs) && cs@.len() == p.commands@.len() && forall|k: int|
        0 <= k < cs@.len() ==> command_json_is(#[trigger] cs@[k], p.commands@[k]))
}

/// The response of `ask`: the plan as `data`.
pub fn ask_plan_envelope(plan: &PromptPlan) -> (r: JsonValue)
    ensures
        r matches JsonValue::Object(m) && m@.len() == 4 && head_is(m@, true, "ask"@) && named(
            m@[3],
            "data"@,
        ) && plan_data_is(m@[3].1, *plan),
{
    let mut cs: Vec<JsonValue> = Vec::new();
    let mut i: usize = 0;
    while i < plan.commands.len()
        invariant
            0 <= i <= plan.commands@.len(),
            cs@.len() == i,
            forall|k: int| 0 <= k < i ==> command_json_is(#[trigger] cs@[k], plan.commands@[k]),
        decreases plan.commands@.len() - i,
    {
        cs.push(command_json(&plan.commands[i]));
        i = i + 1;
    }
    let mut d: Vec<(String, JsonValue)> = Vec::new();
    d.push(member("prompt", text_value(plan.prompt.as_str())));
    d.push(member("rationale", text_value(plan.rationale.as_str())));
    d.push(member("commands", JsonValue::Array(cs)));
    let mut m = head(true, "ask");
    m.push(member("data", JsonValue::Object(d)));
    JsonValue::Object(m)
}

/// Whether `v` is an object with the one member `key` whose value is the
/// string `t`.
pub open spec fn single_text(v: JsonValue, key: Seq<char>, t: Seq<char>) -> bool {
    v matches JsonValue::Object(m) && m@.len() == 1 && named(m@[0], key) && text_is(m@[0].1, t)
}

/// Whether `v` is an object with the one member `key` whose value is the
/// number `n`.
pub open spec fn single_number(v: JsonValue, key: Seq<char>, n: nat) -> bool {
    v matches JsonValue::Object(m) && m@.len() == 1 && named(m@[0], key) && number_is(m@[0].1, n)
}

/// Whether `v` is the JSON form of the error details `d`.
pub open spec fn details_json_is(v: JsonValue, d: ErrorDetails) -> bool {
    match d {
        ErrorDetails::NoDetails => v matches JsonValue::Object(m) && m@.len() == 0,
        ErrorDetails::Action(a) => single_text(v, "action"@, a@),
        ErrorDetails::Field(f) => single_text(v, "field"@, f@),
        ErrorDetails::Input(raw) => single_text(v, "input"@, raw@),
        ErrorDetails::Detail(t) => single_text(v, "detail"@, t@),
        ErrorDetails::Path(p) => single_text(v, "path"@, p@),
        ErrorDetails::PathDetail(p, t) => v matches JsonValue::Object(m) && m@.len() == 2 && named(
            m@[0],
            "path"@,
        ) && text_is(m@[0].1, p@) && named(m@[1], "detail"@) && text_is(m@[1].1, t@),
        ErrorDetails::GradingPeriodId(id) => single_number(v, "grading_period_id"@, id as nat),
        ErrorDetails::AssignmentId(id) => single_number(v, "assignment_id"@, id as nat),
        ErrorDetails::QuizId(id) => single_number(v, "quiz_id"@, id as nat),
        ErrorDetails::Api { status, request_id, body } => v matches JsonValue::Object(m) && m@.len()
            == 3 && named(m@[0], "status"@) && match status {
            Some(s) => number_is(m@[0].1, s as nat),
            None => m@[0].1 == JsonValue::Null,
        } && named(m@[1], "request_id"@) && optional_text_is(m@[1].1, request_id) && named(
            m@[2],
            "body"@,
        ) && optional_text_is(m@[2].1, body),
    }
}

fn single(key: &str, value: JsonValue) -> (r: JsonValue)
    ensures
        r matches JsonValue::Object(m) && m@.len() == 1 && named(m@[0], key@) && m@[0].1 == value,
{
    let mut m: Vec<(String, JsonValue)> = Vec::new();
    m.push(member(key, value));
    JsonValue::Object(m)
}

/// The `details` object of an error.
pub fn details_json(d: ErrorDetails) -> (r: JsonValue)
    ensures
        details_json_is(r, d),
{
    match d {
        ErrorDetails::NoDetails => JsonValue::Object(Vec::new()),
        ErrorDetails::Action(a) => single("action", text_value(a)),
        ErrorDetails::Field(f) => single("field", text_value(f)),
        ErrorDetails::Input(raw) => single("input", JsonValue::Text(raw)),
        ErrorDetails::Detail(t) => single("detail", JsonValue::Text(t)),
        ErrorDetails::Path(p) => single("path", JsonValue::Text(p)),
        ErrorDetails::PathDetail(p, t) => {
            let mut m: Vec<(String, JsonValue)> = Vec::new();
            m.push(member("path", JsonValue::Text(p)));
            m.push(member("detail", JsonValue::Text(t)));
            JsonValue::Object(m)
        },
        ErrorDetails::GradingPeriodId(id) => single("grading_period_id", number_value(id)),
        ErrorDetails::AssignmentId(id) => single("assignment_id", number_value(id)),
        ErrorDetails::QuizId(id) => single("quiz_id", number_value(id)),
        ErrorDetails::Api { status, request_id, body } => {
            let status = match status {
                Some(s) => number_value(s as u64),
                None => JsonValue::Null,
            };
            let mut m: Vec<(String, JsonValue)> = Vec::new();
            m.push(member("status", status));
            m.push(member("request_id", optional_text(request_id)));
            m.push(member("body", optional_text(body)));
            JsonValue::Object(m)
        },
    }
}

/// Whether `v` is the `error` object of `e`: its code, its message, and the
/// JSON form of its details.
pub open spec fn error_json_is(v: JsonValue, e: CliError) -> bool {
    v matches JsonValue::Object(m) && m@.len() == 3 && named(m@[0], "code"@) && text_is(
        m@[0].1,
        e.code_text(),
    ) && named(m@[1], "message"@) && text_is(m@[1].1, e.message_text()) && named(
        m@[2],
        "details"@,
    ) && exists|d: ErrorDetails| #[trigger] details_of(d, e) && details_json_is(m@[2].1, d)
}

/// The response of a command `command` that failed with `e`.
pub fn error_envelope(command: &str, e: &CliError) -> (r: JsonValue)
    ensures
        r matches JsonValue::Object(m) && m@.len() == 4 && head_is(m@, false, command@) && named(
            m@[3],
            "error"@,
        ) && error_json_is(m@[3].1, *e),
{
    let d = error_details(e);
    let ghost dv = d;
    let details = details_json(d);
    let message = e.message();
    let mut err: Vec<(String, JsonValue)> = Vec::new();
    err.push(member("code", text_value(e.code())));
    err.push(member("message", JsonValue::Text(message)));
    err.push(member("details", details));
    let v = JsonValue::Object(err);
    assert(details_of(dv, *e));
    let mut m = head(false, command);
    m.push(member("error", v));
    JsonValue::Object(m)
}

} // verus!
