//! The JSON schemas of the command line's outputs, printed by `--schema`.

use crate::envelopes::{member, named, schema_version, text_is, text_value};
use crate::json::JsonValue;
use vstd::prelude::*;

verus! {

/// The names of the schemas, in order: the three response shapes, then one
/// for each command group.
pub open spec fn schema_names() -> Seq<Seq<char>> {
    seq![
        "command_result"@,
        "planned_actions"@,
        "ask_plan"@,
        "auth_check"@,
        "config_init"@,
        "course_list"@,
        "course_show"@,
        "course_set"@,
        "course_update"@,
        "assignment_list"@,
        "assignment_mutation"@,
        "outcome_list"@,
        "outcome_mutation"@,
        "rubric_list"@,
        "rubric_mutation"@,
        "rubric_association"@,
        "submission_list"@,
        "submission_grade"@,
        "submission_import"@,
        "quiz_list"@,
        "quiz_mutation"@,
        "quiz_submission_list"@,
        "quiz_submission_grade"@,
        "question_bank_list"@,
        "question_bank_mutation"@,
        "question_list"@,
        "question_mutation"@,
        "page_list"@,
        "page_mutation"@,
        "module_list"@,
        "module_mutation"@,
        "module_requirement_list"@,
        "module_requirement_update"@,
        "tool_list"@,
        "tool_mutation"@,
        "calendar_list"@,
        "calendar_mutation"@,
        "conference_list"@,
        "conference_mutation"@,
        "collaboration_list"@,
        "collaboration_mutation"@,
        "file_list"@,
        "file_upload"@,
        "file_delete"@,
        "folder_list"@,
        "folder_create"@,
        "content_migration_list"@,
        "content_migration_mutation"@,
        "announcement_list"@,
        "announcement_create"@,
        "discussion_list"@,
        "discussion_create"@,
        "user_list"@,
        "message_send"@,
        "group_list"@,
        "group_create"@,
        "section_list"@,
        "section_create"@,
        "section_update"@,
        "section_delete"@,
        "enrollment_list"@,
        "enrollment_add"@,
        "enrollment_remove"@,
        "report_export"@,
        "gradebook_grading_period_list"@,
        "gradebook_grading_period_show"@,
        "gradebook_posting_policy_get"@,
        "gradebook_posting_policy_set"@,
        "course_activity_summary"@,
        "error"@,
    ]
}

/// Whether `v` is the schema of `command_result`.
pub open spec fn schema_command_result_is(v: JsonValue) -> bool {
    v matches JsonValue::Object(m1) && m1@.len() == 3 && named(m1@[0], "type"@) && (text_is(m1@[0].1, "object"@)) && named(m1@[1], "properties"@) && (m1@[1].1 matches JsonValue::Object(m2) && m2@.len() == 4 && named(m2@[0], "ok"@) && (m2@[0].1 matches JsonValue::Object(m3) && m3@.len() == 1 && named(m3@[0], "type"@) && (text_is(m3@[0].1, "boolean"@))) && named(m2@[1], "schema_version"@) && (m2@[1].1 matches JsonValue::Object(m4) && m4@.len() == 1 && named(m4@[0], "type"@) && (text_is(m4@[0].1, "string"@))) && named(m2@[2], "command"@) && (m2@[2].1 matches JsonValue::Object(m5) && m5@.len() == 1 && named(m5@[0], "type"@) && (text_is(m5@[0].1, "string"@))) && named(m2@[3], "data"@) && (m2@[3].1 matches JsonValue::Object(m6) && m6@.len() == 1 && named(m6@[0], "type"@) && (text_is(m6@[0].1, "object"@)))) && named(m1@[2], "required"@) && (m1@[2].1 matches JsonValue::Array(m7) && m7@.len() == 4 && (text_is(m7@[0], "ok"@)) && (text_is(m7@[1], "schema_version"@)) && (text_is(m7@[2], "command"@)) && (text_is(m7@[3], "data"@)))
}

fn schema_command_result() -> (r: JsonValue)
    ensures
        schema_command_result_is(r),
{
    let mut v1: Vec<(String, JsonValue)> = Vec::new();
    v1.push(member("type", text_value("object")));
    let mut v2: Vec<(String, JsonValue)> = Vec::new();
    let mut v3: Vec<(String, JsonValue)> = Vec::new();
    v3.push(member("type", text_value("boolean")));
    v2.push(member("ok", JsonValue::Object(v3)));
    let mut v4: Vec<(String, JsonValue)> = Vec::new();
    v4.push(member("type", text_value("string")));
    v2.push(member("schema_version", JsonValue::Object(v4)));
    let mut v5: Vec<(String, JsonValue)> = Vec::new();
    v5.push(member("type", text_value("string")));
    v2.push(member("command", JsonValue::Object(v5)));
    let mut v6: Vec<(String, JsonValue)> = Vec::new();
    v6.push(member("type", text_value("object")));
    v2.push(member("data", JsonValue::Object(v6)));
    v1.push(member("properties", JsonValue::Object(v2)));
    let mut v7: Vec<JsonValue> = Vec::new();
    v7.push(text_value("ok"));
    v7.push(text_value("schema_version"));
    v7.push(text_value("command"));
    v7.push(text_value("data"));
    v1.push(member("required", JsonValue::Array(v7)));
    JsonValue::Object(v1)
}

/// Whether `v` is the schema of `planned_actions`.
pub open spec fn schema_planned_actions_is(v: JsonValue) -> bool {
    v matches JsonValue::Object(m1) && m1@.len() == 3 && named(m1@[0], "type"@) && (text_is(m1@[0].1, "object"@)) && named(m1@[1], "properties"@) && (m1@[1].1 matches JsonValue::Object(m2) && m2@.len() == 4 && named(m2@[0], "ok"@) && (m2@[0].1 matches JsonValue::Object(m3) && m3@.len() == 1 && named(m3@[0], "type"@) && (text_is(m3@[0].1, "boolean"@))) && named(m2@[1], "schema_version"@) && (m2@[1].1 matches JsonValue::Object(m4) && m4@.len() == 1 && named(m4@[0], "type"@) && (text_is(m4@[0].1, "string"@))) && named(m2@[2], "command"@) && (m2@[2].1 matches JsonValue::Object(m5) && m5@.len() == 1 && named(m5@[0], "type"@) && (text_is(m5@[0].1, "string"@))) && named(m2@[3], "planned_actions"@) && (m2@[3].1 matches JsonValue::Object(m6) && m6@.len() == 1 && named(m6@[0], "type"@) && (text_is(m6@[0].1, "array"@)))) && named(m1@[2], "required"@) && (m1@[2].1 matches JsonValue::Array(m7) && m7@.len() == 4 && (text_is(m7@[0], "ok"@)) && (text_is(m7@[1], "schema_version"@)) && (text_is(m7@[2], "command"@)) && (text_is(m7@[3], "planned_actions"@)))
}

fn schema_planned_actions() -> (r: JsonValue)
    ensures
        schema_planned_actions_is(r),
{
    let mut v1: Vec<(String, JsonValue)> = Vec::new();
    v1.push(member("type", text_value("object")));
    let mut v2: Vec<(String, JsonValue)> = Vec::new();
    let mut v3: Vec<(String, JsonValue)> = Vec::new();
    v3.push(member("type", text_value("boolean")));
    v2.push(member("ok", JsonValue::Object(v3)));
    let mut v4: Vec<(String, JsonValue)> = Vec::new();
    v4.push(member("type", text_value("string")));
    v2.push(member("schema_version", JsonValue::Object(v4)));
    let mut v5: Vec<(String, JsonValue)> = Vec::new();
    v5.push(member("type", text_value("string")));
    v2.push(member("command", JsonValue::Object(v5)));
    let mut v6: Vec<(String, JsonValue)> = Vec::new();
    v6.push(member("type", text_value("array")));
    v2.push(member("planned_actions", JsonValue::Object(v6)));
    v1.push(member("properties", JsonValue::Object(v2)));
    let mut v7: Vec<JsonValue> = Vec::new();
    v7.push(text_value("ok"));
    v7.push(text_value("schema_version"));
    v7.push(text_value("command"));
    v7.push(text_value("planned_actions"));
    v1.push(member("required", JsonValue::Array(v7)));
    JsonValue::Object(v1)
}

/// Whether `v` is the schema of `ask_plan`.
pub open spec fn schema_ask_plan_is(v: JsonValue) -> bool {
    v matches JsonValue::Object(m1) && m1@.len() == 3 && named(m1@[0], "type"@) && (text_is(m1@[0].1, "object"@)) && named(m1@[1], "properties"@) && (m1@[1].1 matches JsonValue::Object(m2) && m2@.len() == 4 && named(m2@[0], "ok"@) && (m2@[0].1 matches JsonValue::Object(m3) && m3@.len() == 1 && named(m3@[0], "type"@) && (text_is(m3@[0].1, "boolean"@))) && named(m2@[1], "schema_version"@) && (m2@[1].1 matches JsonValue::Object(m4) && m4@.len() == 1 && named(m4@[0], "type"@) && (text_is(m4@[0].1, "string"@))) && named(m2@[2], "command"@) && (m2@[2].1 matches JsonValue::Object(m5) && m5@.len() == 1 && named(m5@[0], "type"@) && (text_is(m5@[0].1, "string"@))) && named(m2@[3], "data"@) && (m2@[3].1 matches JsonValue::Object(m6) && m6@.len() == 3 && named(m6@[0], "type"@) && (text_is(m6@[0].1, "object"@)) && named(m6@[1], "properties"@) && (m6@[1].1 matches JsonValue::Object(m7) && m7@.len() == 3 && named(m7@[0], "prompt"@) && (m7@[0].1 matches JsonValue::Object(m8) && m8@.len() == 1 && named(m8@[0], "type"@) && (text_is(m8@[0].1, "string"@))) && named(m7@[1], "rationale"@) && (m7@[1].1 matches JsonValue::Object(m9) && m9@.len() == 1 && named(m9@[0], "type"@) && (text_is(m9@[0].1, "string"@))) && named(m7@[2], "commands"@) && (m7@[2].1 matches JsonValue::Object(m10) && m10@.len() == 1 && named(m10@[0], "type"@) && (text_is(m10@[0].1, "array"@)))) && named(m6@[2], "required"@) && (m6@[2].1 matches JsonValue::Array(m11) && m11@.len() == 3 && (text_is(m11@[0], "prompt"@)) && (text_is(m11@[1], "rationale"@)) && (text_is(m11@[2], "commands"@))))) && named(m1@[2], "required"@) && (m1@[2].1 matches JsonValue::Array(m12) && m12@.len() == 4 && (text_is(m12@[0], "ok"@)) && (text_is(m12@[1], "schema_version"@)) && (text_is(m12@[2], "command"@)) && (text_is(m12@[3], "data"@)))
}

fn schema_ask_plan() -> (r: JsonValue)
    ensures
        schema_ask_plan_is(r),
{
    let mut v1: Vec<(String, JsonValue)> = Vec::new();
    v1.push(member("type", text_value("object")));
    let mut v2: Vec<(String, JsonValue)> = Vec::new();
    let mut v3: Vec<(String, JsonValue)> = Vec::new();
    v3.push(member("type", text_value("boolean")));
    v2.push(member("ok", JsonValue::Object(v3)));
    let mut v4: Vec<(String, JsonValue)> = Vec::new();
    v4.push(member("type", text_value("string")));
    v2.push(member("schema_version", JsonValue::Object(v4)));
    let mut v5: Vec<(String, JsonValue)> = Vec::new();
    v5.push(member("type", text_value("string")));
    v2.push(member("command", JsonValue::Object(v5)));
    let mut v6: Vec<(String, JsonValue)> = Vec::new();
    v6.push(member("type", text_value("object")));
    let mut v7: Vec<(String, JsonValue)> = Vec::new();
    let mut v8: Vec<(String, JsonValue)> = Vec::new();
    v8.push(member("type", text_value("string")));
    v7.push(member("prompt", JsonValue::Object(v8)));
    let mut v9: Vec<(String, JsonValue)> = Vec::new();
    v9.push(member("type", text_value("string")));
    v7.push(member("rationale", JsonValue::Object(v9)));
    let mut v10: Vec<(String, JsonValue)> = Vec::new();
    v10.push(member("type", text_value("array")));
    v7.push(member("commands", JsonValue::Object(v10)));
    v6.push(member("properties", JsonValue::Object(v7)));
    let mut v11: Vec<JsonValue> = Vec::new();
    v11.push(text_value("prompt"));
    v11.push(text_value("rationale"));
    v11.push(text_value("commands"));
    v6.push(member("required", JsonValue::Array(v11)));
    v2.push(member("data", JsonValue::Object(v6)));
    v1.push(member("properties", JsonValue::Object(v2)));
    let mut v12: Vec<JsonValue> = Vec::new();
    v12.push(text_value("ok"));
    v12.push(text_value("schema_version"));
    v12.push(text_value("command"));
    v12.push(text_value("data"));
    v1.push(member("required", JsonValue::Array(v12)));
    JsonValue::Object(v1)
}

/// Whether `v` is the schema of `auth_check`.
pub open spec fn schema_auth_check_is(v: JsonValue) -> bool {
    v matches JsonValue::Object(m1) && m1@.len() == 3 && named(m1@[0], "type"@) && (text_is(m1@[0].1, "object"@)) && named(m1@[1], "properties"@) && (m1@[1].1 matches JsonValue::Object(m2) && m2@.len() == 4 && named(m2@[0], "ok"@) && (m2@[0].1 matches JsonValue::Object(m3) && m3@.len() == 1 && named(m3@[0], "type"@) && (text_is(m3@[0].1, "boolean"@))) && named(m2@[1], "schema_version"@) && (m2@[1].1 matches JsonValue::Object(m4) && m4@.len() == 1 && named(m4@[0], "type"@) && (text_is(m4@[0].1, "string"@))) && named(m2@[2], "command"@) && (m2@[2].1 matches JsonValue::Object(m5) && m5@.len() == 1 && named(m5@[0], "type"@) && (text_is(m5@[0].1, "string"@))) && named(m2@[3], "data"@) && (m2@[3].1 matches JsonValue::Object(m6) && m6@.len() == 1 && named(m6@[0], "type"@) && (text_is(m6@[0].1, "object"@)))) && named(m1@[2], "required"@) && (m1@[2].1 matches JsonValue::Array(m7) && m7@.len() == 4 && (text_is(m7@[0], "ok"@)) && (text_is(m7@[1], "schema_version"@)) && (text_is(m7@[2], "command"@)) && (text_is(m7@[3], "data"@)))
}

fn schema_auth_check() -> (r: JsonValue)
    ensures
        schema_auth_check_is(r),
{
    let mut v1: Vec<(String, JsonValue)> = Vec::new();
    v1.push(member("type", text_value("object")));
    let mut v2: Vec<(String, JsonValue)> = Vec::new();
    let mut v3: Vec<(String, JsonValue)> = Vec::new();
    v3.push(member("type", text_value("boolean")));
    v2.push(member("ok", JsonValue::Object(v3)));
    let mut v4: Vec<(String, JsonValue)> = Vec::new();
    v4.push(member("type", text_value("string")));
    v2.push(member("schema_version", JsonValue::Object(v4)));
    let mut v5: Vec<(String, JsonValue)> = Vec::new();
    v5.push(member("type", text_value("string")));
    v2.push(member("command", JsonValue::Object(v5)));
    let mut v6: Vec<(String, JsonValue)> = Vec::new();
    v6.push(member("type", text_value("object")));
    v2.push(member("data", JsonValue::Object(v6)));
    v1.push(member("properties", JsonValue::Object(v2)));
    let mut v7: Vec<JsonValue> = Vec::new();
    v7.push(text_value("ok"));
    v7.push(text_value("schema_version"));
    v7.push(text_value("command"));
    v7.push(text_value("data"));
    v1.push(member("required", JsonValue::Array(v7)));
    JsonValue::Object(v1)
}

/// Whether `v` is the schema of `config_init`.
pub open spec fn schema_config_init_is(v: JsonValue) -> bool {
    v matches JsonValue::Object(m1) && m1@.len() == 3 && named(m1@[0], "type"@) && (text_is(m1@[0].1, "object"@)) && named(m1@[1], "properties"@) && (m1@[1].1 matches JsonValue::Object(m2) && m2@.len() == 4 && named(m2@[0], "ok"@) && (m2@[0].1 matches JsonValue::Object(m3) && m3@.len() == 1 && named(m3@[0], "type"@) && (text_is(m3@[0].1, "boolean"@))) && named(m2@[1], "schema_version"@) && (m2@[1].1 matches JsonValue::Object(m4) && m4@.len() == 1 && named(m4@[0], "type"@) && (text_is(m4@[0].1, "string"@))) && named(m2@[2], "command"@) && (m2@[2].1 matches JsonValue::Object(m5) && m5@.len() == 1 && named(m5@[0], "type"@) && (text_is(m5@[0].1, "string"@))) && named(m2@[3], "data"@) && (m2@[3].1 matches JsonValue::Object(m6) && m6@.len() == 1 && named(m6@[0], "type"@) && (text_is(m6@[0].1, "object"@)))) && named(m1@[2], "required"@) && (m1@[2].1 matches JsonValue::Array(m7) && m7@.len() == 4 && (text_is(m7@[0], "ok"@)) && (text_is(m7@[1], "schema_version"@)) && (text_is(m7@[2], "command"@)) && (text_is(m7@[3], "data"@)))
}

fn schema_config_init() -> (r: JsonValue)
    ensures
        schema_config_init_is(r),
{
    let mut v1: Vec<(String, JsonValue)> = Vec::new();
    v1.push(member("type", text_value("object")));
    let mut v2: Vec<(String, JsonValue)> = Vec::new();
    let mut v3: Vec<(String, JsonValue)> = Vec::new();
    v3.push(member("type", text_value("boolean")));
    v2.push(member("ok", JsonValue::Object(v3)));
    let mut v4: Vec<(String, JsonValue)> = Vec::new();
    v4.push(member("type", text_value("string")));
    v2.push(member("schema_version", JsonValue::Object(v4)));
    let mut v5: Vec<(String, JsonValue)> = Vec::new();
    v5.push(member("type", text_value("string")));
    v2.push(member("command", JsonValue::Object(v5)));
    let mut v6: Vec<(String, JsonValue)> = Vec::new();
    v6.push(member("type", text_value("object")));
    v2.push(member("data", JsonValue::Object(v6)));
    v1.push(member("properties", JsonValue::Object(v2)));
    let mut v7: Vec<JsonValue> = Vec::new();
    v7.push(text_value("ok"));
    v7.push(text_value("schema_version"));
    v7.push(text_value("command"));
    v7.push(text_value("data"));
    v1.push(member("required", JsonValue::Array(v7)));
    JsonValue::Object(v1)
}

/// Whether `v` is the schema of `course_list`.
pub open spec fn schema_course_list_is(v: JsonValue) -> bool {
    v matches JsonValue::Object(m1) && m1@.len() == 3 && named(m1@[0], "type"@) && (text_is(m1@[0].1, "object"@)) && named(m1@[1], "properties"@) && (m1@[1].1 matches JsonValue::Object(m2) && m2@.len() == 4 && named(m2@[0], "ok"@) && (m2@[0].1 matches JsonValue::Object(m3) && m3@.len() == 1 && named(m3@[0], "type"@) && (text_is(m3@[0].1, "boolean"@))) && named(m2@[1], "schema_version"@) && (m2@[1].1 matches JsonValue::Object(m4) && m4@.len() == 1 && named(m4@[0], "type"@) && (text_is(m4@[0].1, "string"@))) && named(m2@[2], "command"@) && (m2@[2].1 matches JsonValue::Object(m5) && m5@.len() == 1 && named(m5@[0], "type"@) && (text_is(m5@[0].1, "string"@))) && named(m2@[3], "data"@) && (m2@[3].1 matches JsonValue::Object(m6) && m6@.len() == 1 && named(m6@[0], "type"@) && (text_is(m6@[0].1, "object"@)))) && named(m1@[2], "required"@) && (m1@[2].1 matches JsonValue::Array(m7) && m7@.len() == 4 && (text_is(m7@[0], "ok"@)) && (text_is(m7@[1], "schema_version"@)) && (text_is(m7@[2], "command"@)) && (text_is(m7@[3], "data"@)))
}

fn schema_course_list() -> (r: JsonValue)
    ensures
        schema_course_list_is(r),
{
    let mut v1: Vec<(String, JsonValue)> = Vec::new();
    v1.push(member("type", text_value("object")));
    let mut v2: Vec<(String, JsonValue)> = Vec::new();
    let mut v3: Vec<(String, JsonValue)> = Vec::new();
    v3.push(member("type", text_value("boolean")));
    v2.push(member("ok", JsonValue::Object(v3)));
    let mut v4: Vec<(String, JsonValue)> = Vec::new();
    v4.push(member("type", text_value("string")));
    v2.push(member("schema_version", JsonValue::Object(v4)));
    let mut v5: Vec<(String, JsonValue)> = Vec::new();
    v5.push(member("type", text_value("string")));
    v2.push(member("command", JsonValue::Object(v5)));
    let mut v6: Vec<(String, JsonValue)> = Vec::new();
    v6.push(member("type", text_value("object")));
    v2.push(member("data", JsonValue::Object(v6)));
    v1.push(member("properties", JsonValue::Object(v2)));
    let mut v7: Vec<JsonValue> = Vec::new();
    v7.push(text_value("ok"));
    v7.push(text_value("schema_version"));
    v7.push(text_value("command"));
    v7.push(text_value("data"));
    v1.push(member("required", JsonValue::Array(v7)));
    JsonValue::Object(v1)
}

/// Whether `v` is the schema of `course_show`.
pub open spec fn schema_course_show_is(v: JsonValue) -> bool {
    v matches JsonValue::Object(m1) && m1@.len() == 3 && named(m1@[0], "type"@) && (text_is(m1@[0].1, "object"@)) && named(m1@[1], "properties"@) && (m1@[1].1 matches JsonValue::Object(m2) && m2@.len() == 4 && named(m2@[0], "ok"@) && (m2@[0].1 matches JsonValue::Object(m3) && m3@.len() == 1 && named(m3@[0], "type"@) && (text_is(m3@[0].1, "boolean"@))) && named(m2@[1], "schema_version"@) && (m2@[1].1 matches JsonValue::Object(m4) && m4@.len() == 1 && named(m4@[0], "type"@) && (text_is(m4@[0].1, "string"@))) && named(m2@[2], "command"@) && (m2@[2].1 matches JsonValue::Object(m5) && m5@.len() == 1 && named(m5@[0], "type"@) && (text_is(m5@[0].1, "string"@))) && named(m2@[3], "data"@) && (m2@[3].1 matches JsonValue::Object(m6) && m6@.len() == 1 && named(m6@[0], "type"@) && (text_is(m6@[0].1, "object"@)))) && named(m1@[2], "required"@) && (m1@[2].1 matches JsonValue::Array(m7) && m7@.len() == 4 && (text_is(m7@[0], "ok"@)) && (text_is(m7@[1], "schema_version"@)) && (text_is(m7@[2], "command"@)) && (text_is(m7@[3], "data"@)))
}

fn schema_course_show() -> (r: JsonValue)
    ensures
        schema_course_show_is(r),
{
    let mut v1: Vec<(String, JsonValue)> = Vec::new();
    v1.push(member("type", text_value("object")));
    let mut v2: Vec<(String, JsonValue)> = Vec::new();
    let mut v3: Vec<(String, JsonValue)> = Vec::new();
    v3.push(member("type", text_value("boolean")));
    v2.push(member("ok", JsonValue::Object(v3)));
    let mut v4: Vec<(String, JsonValue)> = Vec::new();
    v4.push(member("type", text_value("string")));
    v2.push(member("schema_version", JsonValue::Object(v4)));
    let mut v5: Vec<(String, JsonValue)> = Vec::new();
    v5.push(member("type", text_value("string")));
    v2.push(member("command", JsonValue::Object(v5)));
    let mut v6: Vec<(String, JsonValue)> = Vec::new();
    v6.push(member("type", text_value("object")));
    v2.push(member("data", JsonValue::Object(v6)));
    v1.push(member("properties", JsonValue::Object(v2)));
    let mut v7: Vec<JsonValue> = Vec::new();
    v7.push(text_value("ok"));
    v7.push(text_value("schema_version"));
    v7.push(text_value("command"));
    v7.push(text_value("data"));
    v1.push(member("required", JsonValue::Array(v7)));
    JsonValue::Object(v1)
}

/// Whether `v` is the schema of `course_set`.
pub open spec fn schema_course_set_is(v: JsonValue) -> bool {
    v matches JsonValue::Object(m1) && m1@.len() == 3 && named(m1@[0], "type"@) && (text_is(m1@[0].1, "object"@)) && named(m1@[1], "properties"@) && (m1@[1].1 matches JsonValue::Object(m2) && m2@.len() == 4 && named(m2@[0], "ok"@) && (m2@[0].1 matches JsonValue::Object(m3) && m3@.len() == 1 && named(m3@[0], "type"@) && (text_is(m3@[0].1, "boolean"@))) && named(m2@[1], "schema_version"@) && (m2@[1].1 matches JsonValue::Object(m4) && m4@.len() == 1 && named(m4@[0], "type"@) && (text_is(m4@[0].1, "string"@))) && named(m2@[2], "command"@) && (m2@[2].1 matches JsonValue::Object(m5) && m5@.len() == 1 && named(m5@[0], "type"@) && (text_is(m5@[0].1, "string"@))) && named(m2@[3], "data"@) && (m2@[3].1 matches JsonValue::Object(m6) && m6@.len() == 1 && named(m6@[0], "type"@) && (text_is(m6@[0].1, "object"@)))) && named(m1@[2], "required"@) && (m1@[2].1 matches JsonValue::Array(m7) && m7@.len() == 4 && (text_is(m7@[0], "ok"@)) && (text_is(m7@[1], "schema_version"@)) && (text_is(m7@[2], "command"@)) && (text_is(m7@[3], "data"@)))
}

fn schema_course_set() -> (r: JsonValue)
    ensures
        schema_course_set_is(r),
{
    let mut v1: Vec<(String, JsonValue)> = Vec::new();
    v1.push(member("type", text_value("object")));
    let mut v2: Vec<(String, JsonValue)> = Vec::new();
    let mut v3: Vec<(String, JsonValue)> = Vec::new();
    v3.push(member("type", text_value("boolean")));
    v2.push(member("ok", JsonValue::Object(v3)));
    let mut v4: Vec<(String, JsonValue)> = Vec::new();
    v4.push(member("type", text_value("string")));
    v2.push(member("schema_version", JsonValue::Object(v4)));
    let mut v5: Vec<(String, JsonValue)> = Vec::new();
    v5.push(member("type", text_value("string")));
    v2.push(member("command", JsonValue::Object(v5)));
    let mut v6: Vec<(String, JsonValue)> = Vec::new();
    v6.push(member("type", text_value("object")));
    v2.push(member("data", JsonValue::Object(v6)));
    v1.push(member("properties", JsonValue::Object(v2)));
    let mut v7: Vec<JsonValue> = Vec::new();
    v7.push(text_value("ok"));
    v7.push(text_value("schema_version"));
    v7.push(text_value("command"));
    v7.push(text_value("data"));
    v1.push(member("required", JsonValue::Array(v7)));
    JsonValue::Object(v1)
}

/// Whether `v` is the schema of `course_update`.
pub open spec fn schema_course_update_is(v: JsonValue) -> bool {
    v matches JsonValue::Object(m1) && m1@.len() == 3 && named(m1@[0], "type"@) && (text_is(m1@[0].1, "object"@)) && named(m1@[1], "properties"@) && (m1@[1].1 matches JsonValue::Object(m2) && m2@.len() == 4 && named(m2@[0], "ok"@) && (m2@[0].1 matches JsonValue::Object(m3) && m3@.len() == 1 && named(m3@[0], "type"@) && (text_is(m3@[0].1, "boolean"@))) && named(m2@[1], "schema_version"@) && (m2@[1].1 matches JsonValue::Object(m4) && m4@.len() == 1 && named(m4@[0], "type"@) && (text_is(m4@[0].1, "string"@))) && named(m2@[2], "command"@) && (m2@[2].1 matches JsonValue::Object(m5) && m5@.len() == 1 && named(m5@[0], "type"@) && (text_is(m5@[0].1, "string"@))) && named(m2@[3], "data"@) && (m2@[3].1 matches JsonValue::Object(m6) && m6@.len() == 1 && named(m6@[0], "type"@) && (text_is(m6@[0].1, "object"@)))) && named(m1@[2], "required"@) && (m1@[2].1 matches JsonValue::Array(m7) && m7@.len() == 4 && (text_is(m7@[0], "ok"@)) && (text_is(m7@[1], "schema_version"@)) && (text_is(m7@[2], "command"@)) && (text_is(m7@[3], "data"@)))
}

fn schema_course_update() -> (r: JsonValue)
    ensures
        schema_course_update_is(r),
{
    let mut v1: Vec<(String, JsonValue)> = Vec::new();
    v1.push(member("type", text_value("object")));
    let mut v2: Vec<(String, JsonValue)> = Vec::new();
    let mut v3: Vec<(String, JsonValue)> = Vec::new();
    v3.push(member("type", text_value("boolean")));
    v2.push(member("ok", JsonValue::Object(v3)));
    let mut v4: Vec<(String, JsonValue)> = Vec::new();
    v4.push(member("type", text_value("string")));
    v2.push(member("schema_version", JsonValue::Object(v4)));
    let mut v5: Vec<(String, JsonValue)> = Vec::new();
    v5.push(member("type", text_value("string")));
    v2.push(member("command", JsonValue::Object(v5)));
    let mut v6: Vec<(String, JsonValue)> = Vec::new();
    v6.push(member("type", text_value("object")));
    v2.push(member("data", JsonValue::Object(v6)));
    v1.push(member("properties", JsonValue::Object(v2)));
    let mut v7: Vec<JsonValue> = Vec::new();
    v7.push(text_value("ok"));
    v7.push(text_value("schema_version"));
    v7.push(text_value("command"));
    v7.push(text_value("data"));
    v1.push(member("required", JsonValue::Array(v7)));
    JsonValue::Object(v1)
}

/// Whether `v` is the schema of `assignment_list`.
pub open spec fn schema_assignment_list_is(v: JsonValue) -> bool {
    v matches JsonValue::Object(m1) && m1@.len() == 3 && named(m1@[0], "type"@) && (text_is(m1@[0].1, "object"@)) && named(m1@[1], "properties"@) && (m1@[1].1 matches JsonValue::Object(m2) && m2@.len() == 4 && named(m2@[0], "ok"@) && (m2@[0].1 matches JsonValue::Object(m3) && m3@.len() == 1 && named(m3@[0], "type"@) && (text_is(m3@[0].1, "boolean"@))) && named(m2@[1], "schema_version"@) && (m2@[1].1 matches JsonValue::Object(m4) && m4@.len() == 1 && named(m4@[0], "type"@) && (text_is(m4@[0].1, "string"@))) && named(m2@[2], "command"@) && (m2@[2].1 matches JsonValue::Object(m5) && m5@.len() == 1 && named(m5@[0], "type"@) && (text_is(m5@[0].1, "string"@))) && named(m2@[3], "data"@) && (m2@[3].1 matches JsonValue::Object(m6) && m6@.len() == 1 && named(m6@[0], "type"@) && (text_is(m6@[0].1, "object"@)))) && named(m1@[2], "required"@) && (m1@[2].1 matches JsonValue::Array(m7) && m7@.len() == 4 && (text_is(m7@[0], "ok"@)) && (text_is(m7@[1], "schema_version"@)) && (text_is(m7@[2], "command"@)) && (text_is(m7@[3], "data"@)))
}

fn schema_assignment_list() -> (r: JsonValue)
    ensures
        schema_assignment_list_is(r),
{
    let mut v1: Vec<(String, JsonValue)> = Vec::new();
    v1.push(member("type", text_value("object")));
    let mut v2: Vec<(String, JsonValue)> = Vec::new();
    let mut v3: Vec<(String, JsonValue)> = Vec::new();
    v3.push(member("type", text_value("boolean")));
    v2.push(member("ok", JsonValue::Object(v3)));
    let mut v4: Vec<(String, JsonValue)> = Vec::new();
    v4.push(member("type", text_value("string")));
    v2.push(member("schema_version", JsonValue::Object(v4)));
    let mut v5: Vec<(String, JsonValue)> = Vec::new();
    v5.push(member("type", text_value("string")));
    v2.push(member("command", JsonValue::Object(v5)));
    let mut v6: Vec<(String, JsonValue)> = Vec::new();
    v6.push(member("type", text_value("object")));
    v2.push(member("data", JsonValue::Object(v6)));
    v1.push(member("properties", JsonValue::Object(v2)));
    let mut v7: Vec<JsonValue> = Vec::new();
    v7.push(text_value("ok"));
    v7.push(text_value("schema_version"));
    v7.push(text_value("command"));
    v7.push(text_value("data"));
    v1.push(member("required", JsonValue::Array(v7)));
    JsonValue::Object(v1)
}

/// Whether `v` is the schema of `assignment_mutation`.
pub open spec fn schema_assignment_mutation_is(v: JsonValue) -> bool {
    v matches JsonValue::Object(m1) && m1@.len() == 3 && named(m1@[0], "type"@) && (text_is(m1@[0].1, "object"@)) && named(m1@[1], "properties"@) && (m1@[1].1 matches JsonValue::Object(m2) && m2@.len() == 4 && named(m2@[0], "ok"@) && (m2@[0].1 matches JsonValue::Object(m3) && m3@.len() == 1 && named(m3@[0], "type"@) && (text_is(m3@[0].1, "boolean"@))) && named(m2@[1], "schema_version"@) && (m2@[1].1 matches JsonValue::Object(m4) && m4@.len() == 1 && named(m4@[0], "type"@) && (text_is(m4@[0].1, "string"@))) && named(m2@[2], "command"@) && (m2@[2].1 matches JsonValue::Object(m5) && m5@.len() == 1 && named(m5@[0], "type"@) && (text_is(m5@[0].1, "string"@))) && named(m2@[3], "data"@) && (m2@[3].1 matches JsonValue::Object(m6) && m6@.len() == 1 && named(m6@[0], "type"@) && (text_is(m6@[0].1, "object"@)))) && named(m1@[2], "required"@) && (m1@[2].1 matches JsonValue::Array(m7) && m7@.len() == 4 && (text_is(m7@[0], "ok"@)) && (text_is(m7@[1], "schema_version"@)) && (text_is(m7@[2], "command"@)) && (text_is(m7@[3], "data"@)))
}

fn schema_assignment_mutation() -> (r: JsonValue)
    ensures
        schema_assignment_mutation_is(r),
{
    let mut v1: Vec<(String, JsonValue)> = Vec::new();
    v1.push(member("type", text_value("object")));
    let mut v2: Vec<(String, JsonValue)> = Vec::new();
    let mut v3: Vec<(String, JsonValue)> = Vec::new();
    v3.push(member("type", text_value("boolean")));
    v2.push(member("ok", JsonValue::Object(v3)));
    let mut v4: Vec<(String, JsonValue)> = Vec::new();
    v4.push(member("type", text_value("string")));
    v2.push(member("schema_version", JsonValue::Object(v4)));
    let mut v5: Vec<(String, JsonValue)> = Vec::new();
    v5.push(member("type", text_value("string")));
    v2.push(member("command", JsonValue::Object(v5)));
    let mut v6: Vec<(String, JsonValue)> = Vec::new();
    v6.push(member("type", text_value("object")));
    v2.push(member("data", JsonValue::Object(v6)));
    v1.push(member("properties", JsonValue::Object(v2)));
    let mut v7: Vec<JsonValue> = Vec::new();
    v7.push(text_value("ok"));
    v7.push(text_value("schema_version"));
    v7.push(text_value("command"));
    v7.push(text_value("data"));
    v1.push(member("required", JsonValue::Array(v7)));
    JsonValue::Object(v1)
}

/// Whether `v` is the schema of `outcome_list`.
pub open spec fn schema_outcome_list_is(v: JsonValue) -> bool {
    v matches JsonValue::Object(m1) && m1@.len() == 3 && named(m1@[0], "type"@) && (text_is(m1@[0].1, "object"@)) && named(m1@[1], "properties"@) && (m1@[1].1 matches JsonValue::Object(m2) && m2@.len() == 4 && named(m2@[0], "ok"@) && (m2@[0].1 matches JsonValue::Object(m3) && m3@.len() == 1 && named(m3@[0], "type"@) && (text_is(m3@[0].1, "boolean"@))) && named(m2@[1], "schema_version"@) && (m2@[1].1 matches JsonValue::Object(m4) && m4@.len() == 1 && named(m4@[0], "type"@) && (text_is(m4@[0].1, "string"@))) && named(m2@[2], "command"@) && (m2@[2].1 matches JsonValue::Object(m5) && m5@.len() == 1 && named(m5@[0], "type"@) && (text_is(m5@[0].1, "string"@))) && named(m2@[3], "data"@) && (m2@[3].1 matches JsonValue::Object(m6) && m6@.len() == 1 && named(m6@[0], "type"@) && (text_is(m6@[0].1, "object"@)))) && named(m1@[2], "required"@) && (m1@[2].1 matches JsonValue::Array(m7) && m7@.len() == 4 && (text_is(m7@[0], "ok"@)) && (text_is(m7@[1], "schema_version"@)) && (text_is(m7@[2], "command"@)) && (text_is(m7@[3], "data"@)))
}

fn schema_outcome_list() -> (r: JsonValue)
    ensures
        schema_outcome_list_is(r),
{
    let mut v1: Vec<(String, JsonValue)> = Vec::new();
    v1.push(member("type", text_value("object")));
    let mut v2: Vec<(String, JsonValue)> = Vec::new();
    let mut v3: Vec<(String, JsonValue)> = Vec::new();
    v3.push(member("type", text_value("boolean")));
    v2.push(member("ok", JsonValue::Object(v3)));
    let mut v4: Vec<(String, JsonValue)> = Vec::new();
    v4.push(member("type", text_value("string")));
    v2.push(member("schema_version", JsonValue::Object(v4)));
    let mut v5: Vec<(String, JsonValue)> = Vec::new();
    v5.push(member("type", text_value("string")));
    v2.push(member("command", JsonValue::Object(v5)));
    let mut v6: Vec<(String, JsonValue)> = Vec::new();
    v6.push(member("type", text_value("object")));
    v2.push(member("data", JsonValue::Object(v6)));
    v1.push(member("properties", JsonValue::Object(v2)));
    let mut v7: Vec<JsonValue> = Vec::new();
    v7.push(text_value("ok"));
    v7.push(text_value("schema_version"));
    v7.push(text_value("command"));
    v7.push(text_value("data"));
    v1.push(member("required", JsonValue::Array(v7)));
    JsonValue::Object(v1)
}

/// Whether `v` is the schema of `outcome_mutation`.
pub open spec fn schema_outcome_mutation_is(v: JsonValue) -> bool {
    v matches JsonValue::Object(m1) && m1@.len() == 3 && named(m1@[0], "type"@) && (text_is(m1@[0].1, "object"@)) && named(m1@[1], "properties"@) && (m1@[1].1 matches JsonValue::Object(m2) && m2@.len() == 4 && named(m2@[0], "ok"@) && (m2@[0].1 matches JsonValue::Object(m3) && m3@.len() == 1 && named(m3@[0], "type"@) && (text_is(m3@[0].1, "boolean"@))) && named(m2@[1], "schema_version"@) && (m2@[1].1 matches JsonValue::Object(m4) && m4@.len() == 1 && named(m4@[0], "type"@) && (text_is(m4@[0].1, "string"@))) && named(m2@[2], "command"@) && (m2@[2].1 matches JsonValue::Object(m5) && m5@.len() == 1 && named(m5@[0], "type"@) && (text_is(m5@[0].1, "string"@))) && named(m2@[3], "data"@) && (m2@[3].1 matches JsonValue::Object(m6) && m6@.len() == 1 && named(m6@[0], "type"@) && (text_is(m6@[0].1, "object"@)))) && named(m1@[2], "required"@) && (m1@[2].1 matches JsonValue::Array(m7) && m7@.len() == 4 && (text_is(m7@[0], "ok"@)) && (text_is(m7@[1], "schema_version"@)) && (text_is(m7@[2], "command"@)) && (text_is(m7@[3], "data"@)))
}

fn schema_outcome_mutation() -> (r: JsonValue)
    ensures
        schema_outcome_mutation_is(r),
{
    let mut v1: Vec<(String, JsonValue)> = Vec::new();
    v1.push(member("type", text_value("object")));
    let mut v2: Vec<(String, JsonValue)> = Vec::new();
    let mut v3: Vec<(String, JsonValue)> = Vec::new();
    v3.push(member("type", text_value("boolean")));
    v2.push(member("ok", JsonValue::Object(v3)));
    let mut v4: Vec<(String, JsonValue)> = Vec::new();
    v4.push(member("type", text_value("string")));
    v2.push(member("schema_version", JsonValue::Object(v4)));
    let mut v5: Vec<(String, JsonValue)> = Vec::new();
    v5.push(member("type", text_value("string")));
    v2.push(member("command", JsonValue::Object(v5)));
    let mut v6: Vec<(String, JsonValue)> = Vec::new();
    v6.push(member("type", text_value("object")));
    v2.push(member("data", JsonValue::Object(v6)));
    v1.push(member("properties", JsonValue::Object(v2)));
    let mut v7: Vec<JsonValue> = Vec::new();
    v7.push(text_value("ok"));
    v7.push(text_value("schema_version"));
    v7.push(text_value("command"));
    v7.push(text_value("data"));
    v1.push(member("required", JsonValue::Array(v7)));
    JsonValue::Object(v1)
}

/// Whether `v` is the schema of `rubric_list`.
pub open spec fn schema_rubric_list_is(v: JsonValue) -> bool {
    v matches JsonValue::Object(m1) && m1@.len() == 3 && named(m1@[0], "type"@) && (text_is(m1@[0].1, "object"@)) && named(m1@[1], "properties"@) && (m1@[1].1 matches JsonValue::Object(m2) && m2@.len() == 4 && named(m2@[0], "ok"@) && (m2@[0].1 matches JsonValue::Object(m3) && m3@.len() == 1 && named(m3@[0], "type"@) && (text_is(m3@[0].1, "boolean"@))) && named(m2@[1], "schema_version"@) && (m2@[1].1 matches JsonValue::Object(m4) && m4@.len() == 1 && named(m4@[0], "type"@) && (text_is(m4@[0].1, "string"@))) && named(m2@[2], "command"@) && (m2@[2].1 matches JsonValue::Object(m5) && m5@.len() == 1 && named(m5@[0], "type"@) && (text_is(m5@[0].1, "string"@))) && named(m2@[3], "data"@) && (m2@[3].1 matches JsonValue::Object(m6) && m6@.len() == 1 && named(m6@[0], "type"@) && (text_is(m6@[0].1, "object"@)))) && named(m1@[2], "required"@) && (m1@[2].1 matches JsonValue::Array(m7) && m7@.len() == 4 && (text_is(m7@[0], "ok"@)) && (text_is(m7@[1], "schema_version"@)) && (text_is(m7@[2], "command"@)) && (text_is(m7@[3], "data"@)))
}

fn schema_rubric_list() -> (r: JsonValue)
    ensures
        schema_rubric_list_is(r),
{
    let mut v1: Vec<(String, JsonValue)> = Vec::new();
    v1.push(member("type", text_value("object")));
    let mut v2: Vec<(String, JsonValue)> = Vec::new();
    let mut v3: Vec<(String, JsonValue)> = Vec::new();
    v3.push(member("type", text_value("boolean")));
    v2.push(member("ok", JsonValue::Object(v3)));
    let mut v4: Vec<(String, JsonValue)> = Vec::new();
    v4.push(member("type", text_value("string")));
    v2.push(member("schema_version", JsonValue::Object(v4)));
    let mut v5: Vec<(String, JsonValue)> = Vec::new();
    v5.push(member("type", text_value("string")));
    v2.push(member("command", JsonValue::Object(v5)));
    let mut v6: Vec<(String, JsonValue)> = Vec::new();
    v6.push(member("type", text_value("object")));
    v2.push(member("data", JsonValue::Object(v6)));
    v1.push(member("properties", JsonValue::Object(v2)));
    let mut v7: Vec<JsonValue> = Vec::new();
    v7.push(text_value("ok"));
    v7.push(text_value("schema_version"));
    v7.push(text_value("command"));
    v7.push(text_value("data"));
    v1.push(member("required", JsonValue::Array(v7)));
    JsonValue::Object(v1)
}

/// Whether `v` is the schema of `rubric_mutation`.
pub open spec fn schema_rubric_mutation_is(v: JsonValue) -> bool {
    v matches JsonValue::Object(m1) && m1@.len() == 3 && named(m1@[0], "type"@) && (text_is(m1@[0].1, "object"@)) && named(m1@[1], "properties"@) && (m1@[1].1 matches JsonValue::Object(m2) && m2@.len() == 4 && named(m2@[0], "ok"@) && (m2@[0].1 matches JsonValue::Object(m3) && m3@.len() == 1 && named(m3@[0], "type"@) && (text_is(m3@[0].1, "boolean"@))) && named(m2@[1], "schema_version"@) && (m2@[1].1 matches JsonValue::Object(m4) && m4@.len() == 1 && named(m4@[0], "type"@) && (text_is(m4@[0].1, "string"@))) && named(m2@[2], "command"@) && (m2@[2].1 matches JsonValue::Object(m5) && m5@.len() == 1 && named(m5@[0], "type"@) && (text_is(m5@[0].1, "string"@))) && named(m2@[3], "data"@) && (m2@[3].1 matches JsonValue::Object(m6) && m6@.len() == 1 && named(m6@[0], "type"@) && (text_is(m6@[0].1, "object"@)))) && named(m1@[2], "required"@) && (m1@[2].1 matches JsonValue::Array(m7) && m7@.len() == 4 && (text_is(m7@[0], "ok"@)) && (text_is(m7@[1], "schema_version"@)) && (text_is(m7@[2], "command"@)) && (text_is(m7@[3], "data"@)))
}

fn schema_rubric_mutation() -> (r: JsonValue)
    ensures
        schema_rubric_mutation_is(r),
{
    let mut v1: Vec<(String, JsonValue)> = Vec::new();
    v1.push(member("type", text_value("object")));
    let mut v2: Vec<(String, JsonValue)> = Vec::new();
    let mut v3: Vec<(String, JsonValue)> = Vec::new();
    v3.push(member("type", text_value("boolean")));
    v2.push(member("ok", JsonValue::Object(v3)));
    let mut v4: Vec<(String, JsonValue)> = Vec::new();
    v4.push(member("type", text_value("string")));
    v2.push(member("schema_version", JsonValue::Object(v4)));
    let mut v5: Vec<(String, JsonValue)> = Vec::new();
    v5.push(member("type", text_value("string")));
    v2.push(member("command", JsonValue::Object(v5)));
    let mut v6: Vec<(String, JsonValue)> = Vec::new();
    v6.push(member("type", text_value("object")));
    v2.push(member("data", JsonValue::Object(v6)));
    v1.push(member("properties", JsonValue::Object(v2)));
    let mut v7: Vec<JsonValue> = Vec::new();
    v7.push(text_value("ok"));
    v7.push(text_value("schema_version"));
    v7.push(text_value("command"));
    v7.push(text_value("data"));
    v1.push(member("required", JsonValue::Array(v7)));
    JsonValue::Object(v1)
}

/// Whether `v` is the schema of `rubric_association`.
pub open spec fn schema_rubric_association_is(v: JsonValue) -> bool {
    v matches JsonValue::Object(m1) && m1@.len() == 3 && named(m1@[0], "type"@) && (text_is(m1@[0].1, "object"@)) && named(m1@[1], "properties"@) && (m1@[1].1 matches JsonValue::Object(m2) && m2@.len() == 4 && named(m2@[0], "ok"@) && (m2@[0].1 matches JsonValue::Object(m3) && m3@.len() == 1 && named(m3@[0], "type"@) && (text_is(m3@[0].1, "boolean"@))) && named(m2@[1], "schema_version"@) && (m2@[1].1 matches JsonValue::Object(m4) && m4@.len() == 1 && named(m4@[0], "type"@) && (text_is(m4@[0].1, "string"@))) && named(m2@[2], "command"@) && (m2@[2].1 matches JsonValue::Object(m5) && m5@.len() == 1 && named(m5@[0], "type"@) && (text_is(m5@[0].1, "string"@))) && named(m2@[3], "data"@) && (m2@[3].1 matches JsonValue::Object(m6) && m6@.len() == 1 && named(m6@[0], "type"@) && (text_is(m6@[0].1, "object"@)))) && named(m1@[2], "required"@) && (m1@[2].1 matches JsonValue::Array(m7) && m7@.len() == 4 && (text_is(m7@[0], "ok"@)) && (text_is(m7@[1], "schema_version"@)) && (text_is(m7@[2], "command"@)) && (text_is(m7@[3], "data"@)))
}

fn schema_rubric_association() -> (r: JsonValue)
    ensures
        schema_rubric_association_is(r),
{
    let mut v1: Vec<(String, JsonValue)> = Vec::new();
    v1.push(member("type", text_value("object")));
    let mut v2: Vec<(String, JsonValue)> = Vec::new();
    let mut v3: Vec<(String, JsonValue)> = Vec::new();
    v3.push(member("type", text_value("boolean")));
    v2.push(member("ok", JsonValue::Object(v3)));
    let mut v4: Vec<(String, JsonValue)> = Vec::new();
    v4.push(member("type", text_value("string")));
    v2.push(member("schema_version", JsonValue::Object(v4)));
    let mut v5: Vec<(String, JsonValue)> = Vec::new();
    v5.push(member("type", text_value("string")));
    v2.push(member("command", JsonValue::Object(v5)));
    let mut v6: Vec<(String, JsonValue)> = Vec::new();
    v6.push(member("type", text_value("object")));
    v2.push(member("data", JsonValue::Object(v6)));
    v1.push(member("properties", JsonValue::Object(v2)));
    let mut v7: Vec<JsonValue> = Vec::new();
    v7.push(text_value("ok"));
    v7.push(text_value("schema_version"));
    v7.push(text_value("command"));
    v7.push(text_value("data"));
    v1.push(member("required", JsonValue::Array(v7)));
    JsonValue::Object(v1)
}

/// Whether `v` is the schema of `submission_list`.
pub open spec fn schema_submission_list_is(v: JsonValue) -> bool {
    v matches JsonValue::Object(m1) && m1@.len() == 3 && named(m1@[0], "type"@) && (text_is(m1@[0].1, "object"@)) && named(m1@[1], "properties"@) && (m1@[1].1 matches JsonValue::Object(m2) && m2@.len() == 4 && named(m2@[0], "ok"@) && (m2@[0].1 matches JsonValue::Object(m3) && m3@.len() == 1 && named(m3@[0], "type"@) && (text_is(m3@[0].1, "boolean"@))) && named(m2@[1], "schema_version"@) && (m2@[1].1 matches JsonValue::Object(m4) && m4@.len() == 1 && named(m4@[0], "type"@) && (text_is(m4@[0].1, "string"@))) && named(m2@[2], "command"@) && (m2@[2].1 matches JsonValue::Object(m5) && m5@.len() == 1 && named(m5@[0], "type"@) && (text_is(m5@[0].1, "string"@))) && named(m2@[3], "data"@) && (m2@[3].1 matches JsonValue::Object(m6) && m6@.len() == 1 && named(m6@[0], "type"@) && (text_is(m6@[0].1, "object"@)))) && named(m1@[2], "required"@) && (m1@[2].1 matches JsonValue::Array(m7) && m7@.len() == 4 && (text_is(m7@[0], "ok"@)) && (text_is(m7@[1], "schema_version"@)) && (text_is(m7@[2], "command"@)) && (text_is(m7@[3], "data"@)))
}

fn schema_submission_list() -> (r: JsonValue)
    ensures
        schema_submission_list_is(r),
{
    let mut v1: Vec<(String, JsonValue)> = Vec::new();
    v1.push(member("type", text_value("object")));
    let mut v2: Vec<(String, JsonValue)> = Vec::new();
    let mut v3: Vec<(String, JsonValue)> = Vec::new();
    v3.push(member("type", text_value("boolean")));
    v2.push(member("ok", JsonValue::Object(v3)));
    let mut v4: Vec<(String, JsonValue)> = Vec::new();
    v4.push(member("type", text_value("string")));
    v2.push(member("schema_version", JsonValue::Object(v4)));
    let mut v5: Vec<(String, JsonValue)> = Vec::new();
    v5.push(member("type", text_value("string")));
    v2.push(member("command", JsonValue::Object(v5)));
    let mut v6: Vec<(String, JsonValue)> = Vec::new();
    v6.push(member("type", text_value("object")));
    v2.push(member("data", JsonValue::Object(v6)));
    v1.push(member("properties", JsonValue::Object(v2)));
    let mut v7: Vec<JsonValue> = Vec::new();
    v7.push(text_value("ok"));
    v7.push(text_value("schema_version"));
    v7.push(text_value("command"));
    v7.push(text_value("data"));
    v1.push(member("required", JsonValue::Array(v7)));
    JsonValue::Object(v1)
}

/// Whether `v` is the schema of `submission_grade`.
pub open spec fn schema_submission_grade_is(v: JsonValue) -> bool {
    v matches JsonValue::Object(m1) && m1@.len() == 3 && named(m1@[0], "type"@) && (text_is(m1@[0].1, "object"@)) && named(m1@[1], "properties"@) && (m1@[1].1 matches JsonValue::Object(m2) && m2@.len() == 4 && named(m2@[0], "ok"@) && (m2@[0].1 matches JsonValue::Object(m3) && m3@.len() == 1 && named(m3@[0], "type"@) && (text_is(m3@[0].1, "boolean"@))) && named(m2@[1], "schema_version"@) && (m2@[1].1 matches JsonValue::Object(m4) && m4@.len() == 1 && named(m4@[0], "type"@) && (text_is(m4@[0].1, "string"@))) && named(m2@[2], "command"@) && (m2@[2].1 matches JsonValue::Object(m5) && m5@.len() == 1 && named(m5@[0], "type"@) && (text_is(m5@[0].1, "string"@))) && named(m2@[3], "data"@) && (m2@[3].1 matches JsonValue::Object(m6) && m6@.len() == 1 && named(m6@[0], "type"@) && (text_is(m6@[0].1, "object"@)))) && named(m1@[2], "required"@) && (m1@[2].1 matches JsonValue::Array(m7) && m7@.len() == 4 && (text_is(m7@[0], "ok"@)) && (text_is(m7@[1], "schema_version"@)) && (text_is(m7@[2], "command"@)) && (text_is(m7@[3], "data"@)))
}

fn schema_submission_grade() -> (r: JsonValue)
    ensures
        schema_submission_grade_is(r),
{
    let mut v1: Vec<(String, JsonValue)> = Vec::new();
    v1.push(member("type", text_value("object")));
    let mut v2: Vec<(String, JsonValue)> = Vec::new();
    let mut v3: Vec<(String, JsonValue)> = Vec::new();
    v3.push(member("type", text_value("boolean")));
    v2.push(member("ok", JsonValue::Object(v3)));
    let mut v4: Vec<(String, JsonValue)> = Vec::new();
    v4.push(member("type", text_value("string")));
    v2.push(member("schema_version", JsonValue::Object(v4)));
    let mut v5: Vec<(String, JsonValue)> = Vec::new();
    v5.push(member("type", text_value("string")));
    v2.push(member("command", JsonValue::Object(v5)));
    let mut v6: Vec<(String, JsonValue)> = Vec::new();
    v6.push(member("type", text_value("object")));
    v2.push(member("data", JsonValue::Object(v6)));
    v1.push(member("properties", JsonValue::Object(v2)));
    let mut v7: Vec<JsonValue> = Vec::new();
    v7.push(text_value("ok"));
    v7.push(text_value("schema_version"));
    v7.push(text_value("command"));
    v7.push(text_value("data"));
    v1.push(member("required", JsonValue::Array(v7)));
    JsonValue::Object(v1)
}

/// Whether `v` is the schema of `submission_import`.
pub open spec fn schema_submission_import_is(v: JsonValue) -> bool {
    v matches JsonValue::Object(m1) && m1@.len() == 3 && named(m1@[0], "type"@) && (text_is(m1@[0].1, "object"@)) && named(m1@[1], "properties"@) && (m1@[1].1 matches JsonValue::Object(m2) && m2@.len() == 4 && named(m2@[0], "ok"@) && (m2@[0].1 matches JsonValue::Object(m3) && m3@.len() == 1 && named(m3@[0], "type"@) && (text_is(m3@[0].1, "boolean"@))) && named(m2@[1], "schema_version"@) && (m2@[1].1 matches JsonValue::Object(m4) && m4@.len() == 1 && named(m4@[0], "type"@) && (text_is(m4@[0].1, "string"@))) && named(m2@[2], "command"@) && (m2@[2].1 matches JsonValue::Object(m5) && m5@.len() == 1 && named(m5@[0], "type"@) && (text_is(m5@[0].1, "string"@))) && named(m2@[3], "data"@) && (m2@[3].1 matches JsonValue::Object(m6) && m6@.len() == 1 && named(m6@[0], "type"@) && (text_is(m6@[0].1, "object"@)))) && named(m1@[2], "required"@) && (m1@[2].1 matches JsonValue::Array(m7) && m7@.len() == 4 && (text_is(m7@[0], "ok"@)) && (text_is(m7@[1], "schema_version"@)) && (text_is(m7@[2], "command"@)) && (text_is(m7@[3], "data"@)))
}

fn schema_submission_import() -> (r: JsonValue)
    ensures
        schema_submission_import_is(r),
{
    let mut v1: Vec<(String, JsonValue)> = Vec::new();
    v1.push(member("type", text_value("object")));
    let mut v2: Vec<(String, JsonValue)> = Vec::new();
    let mut v3: Vec<(String, JsonValue)> = Vec::new();
    v3.push(member("type", text_value("boolean")));
    v2.push(member("ok", JsonValue::Object(v3)));
    let mut v4: Vec<(String, JsonValue)> = Vec::new();
    v4.push(member("type", text_value("string")));
    v2.push(member("schema_version", JsonValue::Object(v4)));
    let mut v5: Vec<(String, JsonValue)> = Vec::new();
    v5.push(member("type", text_value("string")));
    v2.push(member("command", JsonValue::Object(v5)));
    let mut v6: Vec<(String, JsonValue)> = Vec::new();
    v6.push(member("type", text_value("object")));
    v2.push(member("data", JsonValue::Object(v6)));
    v1.push(member("properties", JsonValue::Object(v2)));
    let mut v7: Vec<JsonValue> = Vec::new();
    v7.push(text_value("ok"));
    v7.push(text_value("schema_version"));
    v7.push(text_value("command"));
    v7.push(text_value("data"));
    v1.push(member("required", JsonValue::Array(v7)));
    JsonValue::Object(v1)
}

/// Whether `v` is the schema of `quiz_list`.
pub open spec fn schema_quiz_list_is(v: JsonValue) -> bool {
    v matches JsonValue::Object(m1) && m1@.len() == 3 && named(m1@[0], "type"@) && (text_is(m1@[0].1, "object"@)) && named(m1@[1], "properties"@) && (m1@[1].1 matches JsonValue::Object(m2) && m2@.len() == 4 && named(m2@[0], "ok"@) && (m2@[0].1 matches JsonValue::Object(m3) && m3@.len() == 1 && named(m3@[0], "type"@) && (text_is(m3@[0].1, "boolean"@))) && named(m2@[1], "schema_version"@) && (m2@[1].1 matches JsonValue::Object(m4) && m4@.len() == 1 && named(m4@[0], "type"@) && (text_is(m4@[0].1, "string"@))) && named(m2@[2], "command"@) && (m2@[2].1 matches JsonValue::Object(m5) && m5@.len() == 1 && named(m5@[0], "type"@) && (text_is(m5@[0].1, "string"@))) && named(m2@[3], "data"@) && (m2@[3].1 matches JsonValue::Object(m6) && m6@.len() == 1 && named(m6@[0], "type"@) && (text_is(m6@[0].1, "object"@)))) && named(m1@[2], "required"@) && (m1@[2].1 matches JsonValue::Array(m7) && m7@.len() == 4 && (text_is(m7@[0], "ok"@)) && (text_is(m7@[1], "schema_version"@)) && (text_is(m7@[2], "command"@)) && (text_is(m7@[3], "data"@)))
}

fn schema_quiz_list() -> (r: JsonValue)
    ensures
        schema_quiz_list_is(r),
{
    let mut v1: Vec<(String, JsonValue)> = Vec::new();
    v1.push(member("type", text_value("object")));
    let mut v2: Vec<(String, JsonValue)> = Vec::new();
    let mut v3: Vec<(String, JsonValue)> = Vec::new();
    v3.push(member("type", text_value("boolean")));
    v2.push(member("ok", JsonValue::Object(v3)));
    let mut v4: Vec<(String, JsonValue)> = Vec::new();
    v4.push(member("type", text_value("string")));
    v2.push(member("schema_version", JsonValue::Object(v4)));
    let mut v5: Vec<(String, JsonValue)> = Vec::new();
    v5.push(member("type", text_value("string")));
    v2.push(member("command", JsonValue::Object(v5)));
    let mut v6: Vec<(String, JsonValue)> = Vec::new();
    v6.push(member("type", text_value("object")));
    v2.push(member("data", JsonValue::Object(v6)));
    v1.push(member("properties", JsonValue::Object(v2)));
    let mut v7: Vec<JsonValue> = Vec::new();
    v7.push(text_value("ok"));
    v7.push(text_value("schema_version"));
    v7.push(text_value("command"));
    v7.push(text_value("data"));
    v1.push(member("required", JsonValue::Array(v7)));
    JsonValue::Object(v1)
}

/// Whether `v` is the schema of `quiz_mutation`.
pub open spec fn schema_quiz_mutation_is(v: JsonValue) -> bool {
    v matches JsonValue::Object(m1) && m1@.len() == 3 && named(m1@[0], "type"@) && (text_is(m1@[0].1, "object"@)) && named(m1@[1], "properties"@) && (m1@[1].1 matches JsonValue::Object(m2) && m2@.len() == 4 && named(m2@[0], "ok"@) && (m2@[0].1 matches JsonValue::Object(m3) && m3@.len() == 1 && named(m3@[0], "type"@) && (text_is(m3@[0].1, "boolean"@))) && named(m2@[1], "schema_version"@) && (m2@[1].1 matches JsonValue::Object(m4) && m4@.len() == 1 && named(m4@[0], "type"@) && (text_is(m4@[0].1, "string"@))) && named(m2@[2], "command"@) && (m2@[2].1 matches JsonValue::Object(m5) && m5@.len() == 1 && named(m5@[0], "type"@) && (text_is(m5@[0].1, "string"@))) && named(m2@[3], "data"@) && (m2@[3].1 matches JsonValue::Object(m6) && m6@.len() == 1 && named(m6@[0], "type"@) && (text_is(m6@[0].1, "object"@)))) && named(m1@[2], "required"@) && (m1@[2].1 matches JsonValue::Array(m7) && m7@.len() == 4 && (text_is(m7@[0], "ok"@)) && (text_is(m7@[1], "schema_version"@)) && (text_is(m7@[2], "command"@)) && (text_is(m7@[3], "data"@)))
}

fn schema_quiz_mutation() -> (r: JsonValue)
    ensures
        schema_quiz_mutation_is(r),
{
    let mut v1: Vec<(String, JsonValue)> = Vec::new();
    v1.push(member("type", text_value("object")));
    let mut v2: Vec<(String, JsonValue)> = Vec::new();
    let mut v3: Vec<(String, JsonValue)> = Vec::new();
    v3.push(member("type", text_value("boolean")));
    v2.push(member("ok", JsonValue::Object(v3)));
    let mut v4: Vec<(String, JsonValue)> = Vec::new();
    v4.push(member("type", text_value("string")));
    v2.push(member("schema_version", JsonValue::Object(v4)));
    let mut v5: Vec<(String, JsonValue)> = Vec::new();
    v5.push(member("type", text_value("string")));
    v2.push(member("command", JsonValue::Object(v5)));
    let mut v6: Vec<(String, JsonValue)> = Vec::new();
    v6.push(member("type", text_value("object")));
    v2.push(member("data", JsonValue::Object(v6)));
    v1.push(member("properties", JsonValue::Object(v2)));
    let mut v7: Vec<JsonValue> = Vec::new();
    v7.push(text_value("ok"));
    v7.push(text_value("schema_version"));
    v7.push(text_value("command"));
    v7.push(text_value("data"));
    v1.push(member("required", JsonValue::Array(v7)));
    JsonValue::Object(v1)
}

/// Whether `v` is the schema of `quiz_submission_list`.
pub open spec fn schema_quiz_submission_list_is(v: JsonValue) -> bool {
    v matches JsonValue::Object(m1) && m1@.len() == 3 && named(m1@[0], "type"@) && (text_is(m1@[0].1, "object"@)) && named(m1@[1], "properties"@) && (m1@[1].1 matches JsonValue::Object(m2) && m2@.len() == 4 && named(m2@[0], "ok"@) && (m2@[0].1 matches JsonValue::Object(m3) && m3@.len() == 1 && named(m3@[0], "type"@) && (text_is(m3@[0].1, "boolean"@))) && named(m2@[1], "schema_version"@) && (m2@[1].1 matches JsonValue::Object(m4) && m4@.len() == 1 && named(m4@[0], "type"@) && (text_is(m4@[0].1, "string"@))) && named(m2@[2], "command"@) && (m2@[2].1 matches JsonValue::Object(m5) && m5@.len() == 1 && named(m5@[0], "type"@) && (text_is(m5@[0].1, "string"@))) && named(m2@[3], "data"@) && (m2@[3].1 matches JsonValue::Object(m6) && m6@.len() == 1 && named(m6@[0], "type"@) && (text_is(m6@[0].1, "object"@)))) && named(m1@[2], "required"@) && (m1@[2].1 matches JsonValue::Array(m7) && m7@.len() == 4 && (text_is(m7@[0], "ok"@)) && (text_is(m7@[1], "schema_version"@)) && (text_is(m7@[2], "command"@)) && (text_is(m7@[3], "data"@)))
}

fn schema_quiz_submission_list() -> (r: JsonValue)
    ensures
        schema_quiz_submission_list_is(r),
{
    let mut v1: Vec<(String, JsonValue)> = Vec::new();
    v1.push(member("type", text_value("object")));
    let mut v2: Vec<(String, JsonValue)> = Vec::new();
    let mut v3: Vec<(String, JsonValue)> = Vec::new();
    v3.push(member("type", text_value("boolean")));
    v2.push(member("ok", JsonValue::Object(v3)));
    let mut v4: Vec<(String, JsonValue)> = Vec::new();
    v4.push(member("type", text_value("string")));
    v2.push(member("schema_version", JsonValue::Object(v4)));
    let mut v5: Vec<(String, JsonValue)> = Vec::new();
    v5.push(member("type", text_value("string")));
    v2.push(member("command", JsonValue::Object(v5)));
    let mut v6: Vec<(String, JsonValue)> = Vec::new();
    v6.push(member("type", text_value("object")));
    v2.push(member("data", JsonValue::Object(v6)));
    v1.push(member("properties", JsonValue::Object(v2)));
    let mut v7: Vec<JsonValue> = Vec::new();
    v7.push(text_value("ok"));
    v7.push(text_value("schema_version"));
    v7.push(text_value("command"));
    v7.push(text_value("data"));
    v1.push(member("required", JsonValue::Array(v7)));
    JsonValue::Object(v1)
}

/// Whether `v` is the schema of `quiz_submission_grade`.
pub open spec fn schema_quiz_submission_grade_is(v: JsonValue) -> bool {
    v matches JsonValue::Object(m1) && m1@.len() == 3 && named(m1@[0], "type"@) && (text_is(m1@[0].1, "object"@)) && named(m1@[1], "properties"@) && (m1@[1].1 matches JsonValue::Object(m2) && m2@.len() == 4 && named(m2@[0], "ok"@) && (m2@[0].1 matches JsonValue::Object(m3) && m3@.len() == 1 && named(m3@[0], "type"@) && (text_is(m3@[0].1, "boolean"@))) && named(m2@[1], "schema_version"@) && (m2@[1].1 matches JsonValue::Object(m4) && m4@.len() == 1 && named(m4@[0], "type"@) && (text_is(m4@[0].1, "string"@))) && named(m2@[2], "command"@) && (m2@[2].1 matches JsonValue::Object(m5) && m5@.len() == 1 && named(m5@[0], "type"@) && (text_is(m5@[0].1, "string"@))) && named(m2@[3], "data"@) && (m2@[3].1 matches JsonValue::Object(m6) && m6@.len() == 1 && named(m6@[0], "type"@) && (text_is(m6@[0].1, "object"@)))) && named(m1@[2], "required"@) && (m1@[2].1 matches JsonValue::Array(m7) && m7@.len() == 4 && (text_is(m7@[0], "ok"@)) && (text_is(m7@[1], "schema_version"@)) && (text_is(m7@[2], "command"@)) && (text_is(m7@[3], "data"@)))
}

fn schema_quiz_submission_grade() -> (r: JsonValue)
    ensures
        schema_quiz_submission_grade_is(r),
{
    let mut v1: Vec<(String, JsonValue)> = Vec::new();
    v1.push(member("type", text_value("object")));
    let mut v2: Vec<(String, JsonValue)> = Vec::new();
    let mut v3: Vec<(String, JsonValue)> = Vec::new();
    v3.push(member("type", text_value("boolean")));
    v2.push(member("ok", JsonValue::Object(v3)));
    let mut v4: Vec<(String, JsonValue)> = Vec::new();
    v4.push(member("type", text_value("string")));
    v2.push(member("schema_version", JsonValue::Object(v4)));
    let mut v5: Vec<(String, JsonValue)> = Vec::new();
    v5.push(member("type", text_value("string")));
    v2.push(member("command", JsonValue::Object(v5)));
    let mut v6: Vec<(String, JsonValue)> = Vec::new();
    v6.push(member("type", text_value("object")));
    v2.push(member("data", JsonValue::Object(v6)));
    v1.push(member("properties", JsonValue::Object(v2)));
    let mut v7: Vec<JsonValue> = Vec::new();
    v7.push(text_value("ok"));
    v7.push(text_value("schema_version"));
    v7.push(text_value("command"));
    v7.push(text_value("data"));
    v1.push(member("required", JsonValue::Array(v7)));
    JsonValue::Object(v1)
}

/// Whether `v` is the schema of `question_bank_list`.
pub open spec fn schema_question_bank_list_is(v: JsonValue) -> bool {
    v matches JsonValue::Object(m1) && m1@.len() == 3 && named(m1@[0], "type"@) && (text_is(m1@[0].1, "object"@)) && named(m1@[1], "properties"@) && (m1@[1].1 matches JsonValue::Object(m2) && m2@.len() == 4 && named(m2@[0], "ok"@) && (m2@[0].1 matches JsonValue::Object(m3) && m3@.len() == 1 && named(m3@[0], "type"@) && (text_is(m3@[0].1, "boolean"@))) && named(m2@[1], "schema_version"@) && (m2@[1].1 matches JsonValue::Object(m4) && m4@.len() == 1 && named(m4@[0], "type"@) && (text_is(m4@[0].1, "string"@))) && named(m2@[2], "command"@) && (m2@[2].1 matches JsonValue::Object(m5) && m5@.len() == 1 && named(m5@[0], "type"@) && (text_is(m5@[0].1, "string"@))) && named(m2@[3], "data"@) && (m2@[3].1 matches JsonValue::Object(m6) && m6@.len() == 1 && named(m6@[0], "type"@) && (text_is(m6@[0].1, "object"@)))) && named(m1@[2], "required"@) && (m1@[2].1 matches JsonValue::Array(m7) && m7@.len() == 4 && (text_is(m7@[0], "ok"@)) && (text_is(m7@[1], "schema_version"@)) && (text_is(m7@[2], "command"@)) && (text_is(m7@[3], "data"@)))
}

fn schema_question_bank_list() -> (r: JsonValue)
    ensures
        schema_question_bank_list_is(r),
{
    let mut v1: Vec<(String, JsonValue)> = Vec::new();
    v1.push(member("type", text_value("object")));
    let mut v2: Vec<(String, JsonValue)> = Vec::new();
    let mut v3: Vec<(String, JsonValue)> = Vec::new();
    v3.push(member("type", text_value("boolean")));
    v2.push(member("ok", JsonValue::Object(v3)));
    let mut v4: Vec<(String, JsonValue)> = Vec::new();
    v4.push(member("type", text_value("string")));
    v2.push(member("schema_version", JsonValue::Object(v4)));
    let mut v5: Vec<(String, JsonValue)> = Vec::new();
    v5.push(member("type", text_value("string")));
    v2.push(member("command", JsonValue::Object(v5)));
    let mut v6: Vec<(String, JsonValue)> = Vec::new();
    v6.push(member("type", text_value("object")));
    v2.push(member("data", JsonValue::Object(v6)));
    v1.push(member("properties", JsonValue::Object(v2)));
    let mut v7: Vec<JsonValue> = Vec::new();
    v7.push(text_value("ok"));
    v7.push(text_value("schema_version"));
    v7.push(text_value("command"));
    v7.push(text_value("data"));
    v1.push(member("required", JsonValue::Array(v7)));
    JsonValue::Object(v1)
}

/// Whether `v` is the schema of `question_bank_mutation`.
pub open spec fn schema_question_bank_mutation_is(v: JsonValue) -> bool {
    v matches JsonValue::Object(m1) && m1@.len() == 3 && named(m1@[0], "type"@) && (text_is(m1@[0].1, "object"@)) && named(m1@[1], "properties"@) && (m1@[1].1 matches JsonValue::Object(m2) && m2@.len() == 4 && named(m2@[0], "ok"@) && (m2@[0].1 matches JsonValue::Object(m3) && m3@.len() == 1 && named(m3@[0], "type"@) && (text_is(m3@[0].1, "boolean"@))) && named(m2@[1], "schema_version"@) && (m2@[1].1 matches JsonValue::Object(m4) && m4@.len() == 1 && named(m4@[0], "type"@) && (text_is(m4@[0].1, "string"@))) && named(m2@[2], "command"@) && (m2@[2].1 matches JsonValue::Object(m5) && m5@.len() == 1 && named(m5@[0], "type"@) && (text_is(m5@[0].1, "string"@))) && named(m2@[3], "data"@) && (m2@[3].1 matches JsonValue::Object(m6) && m6@.len() == 1 && named(m6@[0], "type"@) && (text_is(m6@[0].1, "object"@)))) && named(m1@[2], "required"@) && (m1@[2].1 matches JsonValue::Array(m7) && m7@.len() == 4 && (text_is(m7@[0], "ok"@)) && (text_is(m7@[1], "schema_version"@)) && (text_is(m7@[2], "command"@)) && (text_is(m7@[3], "data"@)))
}

fn schema_question_bank_mutation() -> (r: JsonValue)
    ensures
        schema_question_bank_mutation_is(r),
{
    let mut v1: Vec<(String, JsonValue)> = Vec::new();
    v1.push(member("type", text_value("object")));
    let mut v2: Vec<(String, JsonValue)> = Vec::new();
    let mut v3: Vec<(String, JsonValue)> = Vec::new();
    v3.push(member("type", text_value("boolean")));
    v2.push(member("ok", JsonValue::Object(v3)));
    let mut v4: Vec<(String, JsonValue)> = Vec::new();
    v4.push(member("type", text_value("string")));
    v2.push(member("schema_version", JsonValue::Object(v4)));
    let mut v5: Vec<(String, JsonValue)> = Vec::new();
    v5.push(member("type", text_value("string")));
    v2.push(member("command", JsonValue::Object(v5)));
    let mut v6: Vec<(String, JsonValue)> = Vec::new();
    v6.push(member("type", text_value("object")));
    v2.push(member("data", JsonValue::Object(v6)));
    v1.push(member("properties", JsonValue::Object(v2)));
    let mut v7: Vec<JsonValue> = Vec::new();
    v7.push(text_value("ok"));
    v7.push(text_value("schema_version"));
    v7.push(text_value("command"));
    v7.push(text_value("data"));
    v1.push(member("required", JsonValue::Array(v7)));
    JsonValue::Object(v1)
}

/// Whether `v` is the schema of `question_list`.
pub open spec fn schema_question_list_is(v: JsonValue) -> bool {
    v matches JsonValue::Object(m1) && m1@.len() == 3 && named(m1@[0], "type"@) && (text_is(m1@[0].1, "object"@)) && named(m1@[1], "properties"@) && (m1@[1].1 matches JsonValue::Object(m2) && m2@.len() == 4 && named(m2@[0], "ok"@) && (m2@[0].1 matches JsonValue::Object(m3) && m3@.len() == 1 && named(m3@[0], "type"@) && (text_is(m3@[0].1, "boolean"@))) && named(m2@[1], "schema_version"@) && (m2@[1].1 matches JsonValue::Object(m4) && m4@.len() == 1 && named(m4@[0], "type"@) && (text_is(m4@[0].1, "string"@))) && named(m2@[2], "command"@) && (m2@[2].1 matches JsonValue::Object(m5) && m5@.len() == 1 && named(m5@[0], "type"@) && (text_is(m5@[0].1, "string"@))) && named(m2@[3], "data"@) && (m2@[3].1 matches JsonValue::Object(m6) && m6@.len() == 1 && named(m6@[0], "type"@) && (text_is(m6@[0].1, "object"@)))) && named(m1@[2], "required"@) && (m1@[2].1 matches JsonValue::Array(m7) && m7@.len() == 4 && (text_is(m7@[0], "ok"@)) && (text_is(m7@[1], "schema_version"@)) && (text_is(m7@[2], "command"@)) && (text_is(m7@[3], "data"@)))
}

fn schema_question_list() -> (r: JsonValue)
    ensures
        schema_question_list_is(r),
{
    let mut v1: Vec<(String, JsonValue)> = Vec::new();
    v1.push(member("type", text_value("object")));
    let mut v2: Vec<(String, JsonValue)> = Vec::new();
    let mut v3: Vec<(String, JsonValue)> = Vec::new();
    v3.push(member("type", text_value("boolean")));
    v2.push(member("ok", JsonValue::Object(v3)));
    let mut v4: Vec<(String, JsonValue)> = Vec::new();
    v4.push(member("type", text_value("string")));
    v2.push(member("schema_version", JsonValue::Object(v4)));
    let mut v5: Vec<(String, JsonValue)> = Vec::new();
    v5.push(member("type", text_value("string")));
    v2.push(member("command", JsonValue::Object(v5)));
    let mut v6: Vec<(String, JsonValue)> = Vec::new();
    v6.push(member("type", text_value("object")));
    v2.push(member("data", JsonValue::Object(v6)));
    v1.push(member("properties", JsonValue::Object(v2)));
    let mut v7: Vec<JsonValue> = Vec::new();
    v7.push(text_value("ok"));
    v7.push(text_value("schema_version"));
    v7.push(text_value("command"));
    v7.push(text_value("data"));
    v1.push(member("required", JsonValue::Array(v7)));
    JsonValue::Object(v1)
}

/// Whether `v` is the schema of `question_mutation`.
pub open spec fn schema_question_mutation_is(v: JsonValue) -> bool {
    v matches JsonValue::Object(m1) && m1@.len() == 3 && named(m1@[0], "type"@) && (text_is(m1@[0].1, "object"@)) && named(m1@[1], "properties"@) && (m1@[1].1 matches JsonValue::Object(m2) && m2@.len() == 4 && named(m2@[0], "ok"@) && (m2@[0].1 matches JsonValue::Object(m3) && m3@.len() == 1 && named(m3@[0], "type"@) && (text_is(m3@[0].1, "boolean"@))) && named(m2@[1], "schema_version"@) && (m2@[1].1 matches JsonValue::Object(m4) && m4@.len() == 1 && named(m4@[0], "type"@) && (text_is(m4@[0].1, "string"@))) && named(m2@[2], "command"@) && (m2@[2].1 matches JsonValue::Object(m5) && m5@.len() == 1 && named(m5@[0], "type"@) && (text_is(m5@[0].1, "string"@))) && named(m2@[3], "data"@) && (m2@[3].1 matches JsonValue::Object(m6) && m6@.len() == 1 && named(m6@[0], "type"@) && (text_is(m6@[0].1, "object"@)))) && named(m1@[2], "required"@) && (m1@[2].1 matches JsonValue::Array(m7) && m7@.len() == 4 && (text_is(m7@[0], "ok"@)) && (text_is(m7@[1], "schema_version"@)) && (text_is(m7@[2], "command"@)) && (text_is(m7@[3], "data"@)))
}

fn schema_question_mutation() -> (r: JsonValue)
    ensures
        schema_question_mutation_is(r),
{
    let mut v1: Vec<(String, JsonValue)> = Vec::new();
    v1.push(member("type", text_value("object")));
    let mut v2: Vec<(String, JsonValue)> = Vec::new();
    let mut v3: Vec<(String, JsonValue)> = Vec::new();
    v3.push(member("type", text_value("boolean")));
    v2.push(member("ok", JsonValue::Object(v3)));
    let mut v4: Vec<(String, JsonValue)> = Vec::new();
    v4.push(member("type", text_value("string")));
    v2.push(member("schema_version", JsonValue::Object(v4)));
    let mut v5: Vec<(String, JsonValue)> = Vec::new();
    v5.push(member("type", text_value("string")));
    v2.push(member("command", JsonValue::Object(v5)));
    let mut v6: Vec<(String, JsonValue)> = Vec::new();
    v6.push(member("type", text_value("object")));
    v2.push(member("data", JsonValue::Object(v6)));
    v1.push(member("properties", JsonValue::Object(v2)));
    let mut v7: Vec<JsonValue> = Vec::new();
    v7.push(text_value("ok"));
    v7.push(text_value("schema_version"));
    v7.push(text_value("command"));
    v7.push(text_value("data"));
    v1.push(member("required", JsonValue::Array(v7)));
    JsonValue::Object(v1)
}

/// Whether `v` is the schema of `page_list`.
pub open spec fn schema_page_list_is(v: JsonValue) -> bool {
    v matches JsonValue::Object(m1) && m1@.len() == 3 && named(m1@[0], "type"@) && (text_is(m1@[0].1, "object"@)) && named(m1@[1], "properties"@) && (m1@[1].1 matches JsonValue::Object(m2) && m2@.len() == 4 && named(m2@[0], "ok"@) && (m2@[0].1 matches JsonValue::Object(m3) && m3@.len() == 1 && named(m3@[0], "type"@) && (text_is(m3@[0].1, "boolean"@))) && named(m2@[1], "schema_version"@) && (m2@[1].1 matches JsonValue::Object(m4) && m4@.len() == 1 && named(m4@[0], "type"@) && (text_is(m4@[0].1, "string"@))) && named(m2@[2], "command"@) && (m2@[2].1 matches JsonValue::Object(m5) && m5@.len() == 1 && named(m5@[0], "type"@) && (text_is(m5@[0].1, "string"@))) && named(m2@[3], "data"@) && (m2@[3].1 matches JsonValue::Object(m6) && m6@.len() == 1 && named(m6@[0], "type"@) && (text_is(m6@[0].1, "object"@)))) && named(m1@[2], "required"@) && (m1@[2].1 matches JsonValue::Array(m7) && m7@.len() == 4 && (text_is(m7@[0], "ok"@)) && (text_is(m7@[1], "schema_version"@)) && (text_is(m7@[2], "command"@)) && (text_is(m7@[3], "data"@)))
}

fn schema_page_list() -> (r: JsonValue)
    ensures
        schema_page_list_is(r),
{
    let mut v1: Vec<(String, JsonValue)> = Vec::new();
    v1.push(member("type", text_value("object")));
    let mut v2: Vec<(String, JsonValue)> = Vec::new();
    let mut v3: Vec<(String, JsonValue)> = Vec::new();
    v3.push(member("type", text_value("boolean")));
    v2.push(member("ok", JsonValue::Object(v3)));
    let mut v4: Vec<(String, JsonValue)> = Vec::new();
    v4.push(member("type", text_value("string")));
    v2.push(member("schema_version", JsonValue::Object(v4)));
    let mut v5: Vec<(String, JsonValue)> = Vec::new();
    v5.push(member("type", text_value("string")));
    v2.push(member("command", JsonValue::Object(v5)));
    let mut v6: Vec<(String, JsonValue)> = Vec::new();
    v6.push(member("type", text_value("object")));
    v2.push(member("data", JsonValue::Object(v6)));
    v1.push(member("properties", JsonValue::Object(v2)));
    let mut v7: Vec<JsonValue> = Vec::new();
    v7.push(text_value("ok"));
    v7.push(text_value("schema_version"));
    v7.push(text_value("command"));
    v7.push(text_value("data"));
    v1.push(member("required", JsonValue::Array(v7)));
    JsonValue::Object(v1)
}

/// Whether `v` is the schema of `page_mutation`.
pub open spec fn schema_page_mutation_is(v: JsonValue) -> bool {
    v matches JsonValue::Object(m1) && m1@.len() == 3 && named(m1@[0], "type"@) && (text_is(m1@[0].1, "object"@)) && named(m1@[1], "properties"@) && (m1@[1].1 matches JsonValue::Object(m2) && m2@.len() == 4 && named(m2@[0], "ok"@) && (m2@[0].1 matches JsonValue::Object(m3) && m3@.len() == 1 && named(m3@[0], "type"@) && (text_is(m3@[0].1, "boolean"@))) && named(m2@[1], "schema_version"@) && (m2@[1].1 matches JsonValue::Object(m4) && m4@.len() == 1 && named(m4@[0], "type"@) && (text_is(m4@[0].1, "string"@))) && named(m2@[2], "command"@) && (m2@[2].1 matches JsonValue::Object(m5) && m5@.len() == 1 && named(m5@[0], "type"@) && (text_is(m5@[0].1, "string"@))) && named(m2@[3], "data"@) && (m2@[3].1 matches JsonValue::Object(m6) && m6@.len() == 1 && named(m6@[0], "type"@) && (text_is(m6@[0].1, "object"@)))) && named(m1@[2], "required"@) && (m1@[2].1 matches JsonValue::Array(m7) && m7@.len() == 4 && (text_is(m7@[0], "ok"@)) && (text_is(m7@[1], "schema_version"@)) && (text_is(m7@[2], "command"@)) && (text_is(m7@[3], "data"@)))
}

fn schema_page_mutation() -> (r: JsonValue)
    ensures
        schema_page_mutation_is(r),
{
    let mut v1: Vec<(String, JsonValue)> = Vec::new();
    v1.push(member("type", text_value("object")));
    let mut v2: Vec<(String, JsonValue)> = Vec::new();
    let mut v3: Vec<(String, JsonValue)> = Vec::new();
    v3.push(member("type", text_value("boolean")));
    v2.push(member("ok", JsonValue::Object(v3)));
    let mut v4: Vec<(String, JsonValue)> = Vec::new();
    v4.push(member("type", text_value("string")));
    v2.push(member("schema_version", JsonValue::Object(v4)));
    let mut v5: Vec<(String, JsonValue)> = Vec::new();
    v5.push(member("type", text_value("string")));
    v2.push(member("command", JsonValue::Object(v5)));
    let mut v6: Vec<(String, JsonValue)> = Vec::new();
    v6.push(member("type", text_value("object")));
    v2.push(member("data", JsonValue::Object(v6)));
    v1.push(member("properties", JsonValue::Object(v2)));
    let mut v7: Vec<JsonValue> = Vec::new();
    v7.push(text_value("ok"));
    v7.push(text_value("schema_version"));
    v7.push(text_value("command"));
    v7.push(text_value("data"));
    v1.push(member("required", JsonValue::Array(v7)));
    JsonValue::Object(v1)
}

/// Whether `v` is the schema of `module_list`.
pub open spec fn schema_module_list_is(v: JsonValue) -> bool {
    v matches JsonValue::Object(m1) && m1@.len() == 3 && named(m1@[0], "type"@) && (text_is(m1@[0].1, "object"@)) && named(m1@[1], "properties"@) && (m1@[1].1 matches JsonValue::Object(m2) && m2@.len() == 4 && named(m2@[0], "ok"@) && (m2@[0].1 matches JsonValue::Object(m3) && m3@.len() == 1 && named(m3@[0], "type"@) && (text_is(m3@[0].1, "boolean"@))) && named(m2@[1], "schema_version"@) && (m2@[1].1 matches JsonValue::Object(m4) && m4@.len() == 1 && named(m4@[0], "type"@) && (text_is(m4@[0].1, "string"@))) && named(m2@[2], "command"@) && (m2@[2].1 matches JsonValue::Object(m5) && m5@.len() == 1 && named(m5@[0], "type"@) && (text_is(m5@[0].1, "string"@))) && named(m2@[3], "data"@) && (m2@[3].1 matches JsonValue::Object(m6) && m6@.len() == 1 && named(m6@[0], "type"@) && (text_is(m6@[0].1, "object"@)))) && named(m1@[2], "required"@) && (m1@[2].1 matches JsonValue::Array(m7) && m7@.len() == 4 && (text_is(m7@[0], "ok"@)) && (text_is(m7@[1], "schema_version"@)) && (text_is(m7@[2], "command"@)) && (text_is(m7@[3], "data"@)))
}

fn schema_module_list() -> (r: JsonValue)
    ensures
        schema_module_list_is(r),
{
    let mut v1: Vec<(String, JsonValue)> = Vec::new();
    v1.push(member("type", text_value("object")));
    let mut v2: Vec<(String, JsonValue)> = Vec::new();
    let mut v3: Vec<(String, JsonValue)> = Vec::new();
    v3.push(member("type", text_value("boolean")));
    v2.push(member("ok", JsonValue::Object(v3)));
    let mut v4: Vec<(String, JsonValue)> = Vec::new();
    v4.push(member("type", text_value("string")));
    v2.push(member("schema_version", JsonValue::Object(v4)));
    let mut v5: Vec<(String, JsonValue)> = Vec::new();
    v5.push(member("type", text_value("string")));
    v2.push(member("command", JsonValue::Object(v5)));
    let mut v6: Vec<(String, JsonValue)> = Vec::new();
    v6.push(member("type", text_value("object")));
    v2.push(member("data", JsonValue::Object(v6)));
    v1.push(member("properties", JsonValue::Object(v2)));
    let mut v7: Vec<JsonValue> = Vec::new();
    v7.push(text_value("ok"));
    v7.push(text_value("schema_version"));
    v7.push(text_value("command"));
    v7.push(text_value("data"));
    v1.push(member("required", JsonValue::Array(v7)));
    JsonValue::Object(v1)
}

/// Whether `v` is the schema of `module_mutation`.
pub open spec fn schema_module_mutation_is(v: JsonValue) -> bool {
    v matches JsonValue::Object(m1) && m1@.len() == 3 && named(m1@[0], "type"@) && (text_is(m1@[0].1, "object"@)) && named(m1@[1], "properties"@) && (m1@[1].1 matches JsonValue::Object(m2) && m2@.len() == 4 && named(m2@[0], "ok"@) && (m2@[0].1 matches JsonValue::Object(m3) && m3@.len() == 1 && named(m3@[0], "type"@) && (text_is(m3@[0].1, "boolean"@))) && named(m2@[1], "schema_version"@) && (m2@[1].1 matches JsonValue::Object(m4) && m4@.len() == 1 && named(m4@[0], "type"@) && (text_is(m4@[0].1, "string"@))) && named(m2@[2], "command"@) && (m2@[2].1 matches JsonValue::Object(m5) && m5@.len() == 1 && named(m5@[0], "type"@) && (text_is(m5@[0].1, "string"@))) && named(m2@[3], "data"@) && (m2@[3].1 matches JsonValue::Object(m6) && m6@.len() == 1 && named(m6@[0], "type"@) && (text_is(m6@[0].1, "object"@)))) && named(m1@[2], "required"@) && (m1@[2].1 matches JsonValue::Array(m7) && m7@.len() == 4 && (text_is(m7@[0], "ok"@)) && (text_is(m7@[1], "schema_version"@)) && (text_is(m7@[2], "command"@)) && (text_is(m7@[3], "data"@)))
}

fn schema_module_mutation() -> (r: JsonValue)
    ensures
        schema_module_mutation_is(r),
{
    let mut v1: Vec<(String, JsonValue)> = Vec::new();
    v1.push(member("type", text_value("object")));
    let mut v2: Vec<(String, JsonValue)> = Vec::new();
    let mut v3: Vec<(String, JsonValue)> = Vec::new();
    v3.push(member("type", text_value("boolean")));
    v2.push(member("ok", JsonValue::Object(v3)));
    let mut v4: Vec<(String, JsonValue)> = Vec::new();
    v4.push(member("type", text_value("string")));
    v2.push(member("schema_version", JsonValue::Object(v4)));
    let mut v5: Vec<(String, JsonValue)> = Vec::new();
    v5.push(member("type", text_value("string")));
    v2.push(member("command", JsonValue::Object(v5)));
    let mut v6: Vec<(String, JsonValue)> = Vec::new();
    v6.push(member("type", text_value("object")));
    v2.push(member("data", JsonValue::Object(v6)));
    v1.push(member("properties", JsonValue::Object(v2)));
    let mut v7: Vec<JsonValue> = Vec::new();
    v7.push(text_value("ok"));
    v7.push(text_value("schema_version"));
    v7.push(text_value("command"));
    v7.push(text_value("data"));
    v1.push(member("required", JsonValue::Array(v7)));
    JsonValue::Object(v1)
}

/// Whether `v` is the schema of `module_requirement_list`.
pub open spec fn schema_module_requirement_list_is(v: JsonValue) -> bool {
    v matches JsonValue::Object(m1) && m1@.len() == 3 && named(m1@[0], "type"@) && (text_is(m1@[0].1, "object"@)) && named(m1@[1], "properties"@) && (m1@[1].1 matches JsonValue::Object(m2) && m2@.len() == 4 && named(m2@[0], "ok"@) && (m2@[0].1 matches JsonValue::Object(m3) && m3@.len() == 1 && named(m3@[0], "type"@) && (text_is(m3@[0].1, "boolean"@))) && named(m2@[1], "schema_version"@) && (m2@[1].1 matches JsonValue::Object(m4) && m4@.len() == 1 && named(m4@[0], "type"@) && (text_is(m4@[0].1, "string"@))) && named(m2@[2], "command"@) && (m2@[2].1 matches JsonValue::Object(m5) && m5@.len() == 1 && named(m5@[0], "type"@) && (text_is(m5@[0].1, "string"@))) && named(m2@[3], "data"@) && (m2@[3].1 matches JsonValue::Object(m6) && m6@.len() == 1 && named(m6@[0], "type"@) && (text_is(m6@[0].1, "object"@)))) && named(m1@[2], "required"@) && (m1@[2].1 matches JsonValue::Array(m7) && m7@.len() == 4 && (text_is(m7@[0], "ok"@)) && (text_is(m7@[1], "schema_version"@)) && (text_is(m7@[2], "command"@)) && (text_is(m7@[3], "data"@)))
}

fn schema_module_requirement_list() -> (r: JsonValue)
    ensures
        schema_module_requirement_list_is(r),
{
    let mut v1: Vec<(String, JsonValue)> = Vec::new();
    v1.push(member("type", text_value("object")));
    let mut v2: Vec<(String, JsonValue)> = Vec::new();
    let mut v3: Vec<(String, JsonValue)> = Vec::new();
    v3.push(member("type", text_value("boolean")));
    v2.push(member("ok", JsonValue::Object(v3)));
    let mut v4: Vec<(String, JsonValue)> = Vec::new();
    v4.push(member("type", text_value("string")));
    v2.push(member("schema_version", JsonValue::Object(v4)));
    let mut v5: Vec<(String, JsonValue)> = Vec::new();
    v5.push(member("type", text_value("string")));
    v2.push(member("command", JsonValue::Object(v5)));
    let mut v6: Vec<(String, JsonValue)> = Vec::new();
    v6.push(member("type", text_value("object")));
    v2.push(member("data", JsonValue::Object(v6)));
    v1.push(member("properties", JsonValue::Object(v2)));
    let mut v7: Vec<JsonValue> = Vec::new();
    v7.push(text_value("ok"));
    v7.push(text_value("schema_version"));
    v7.push(text_value("command"));
    v7.push(text_value("data"));
    v1.push(member("required", JsonValue::Array(v7)));
    JsonValue::Object(v1)
}

/// Whether `v` is the schema of `module_requirement_update`.
pub open spec fn schema_module_requirement_update_is(v: JsonValue) -> bool {
    v matches JsonValue::Object(m1) && m1@.len() == 3 && named(m1@[0], "type"@) && (text_is(m1@[0].1, "object"@)) && named(m1@[1], "properties"@) && (m1@[1].1 matches JsonValue::Object(m2) && m2@.len() == 4 && named(m2@[0], "ok"@) && (m2@[0].1 matches JsonValue::Object(m3) && m3@.len() == 1 && named(m3@[0], "type"@) && (text_is(m3@[0].1, "boolean"@))) && named(m2@[1], "schema_version"@) && (m2@[1].1 matches JsonValue::Object(m4) && m4@.len() == 1 && named(m4@[0], "type"@) && (text_is(m4@[0].1, "string"@))) && named(m2@[2], "command"@) && (m2@[2].1 matches JsonValue::Object(m5) && m5@.len() == 1 && named(m5@[0], "type"@) && (text_is(m5@[0].1, "string"@))) && named(m2@[3], "data"@) && (m2@[3].1 matches JsonValue::Object(m6) && m6@.len() == 1 && named(m6@[0], "type"@) && (text_is(m6@[0].1, "object"@)))) && named(m1@[2], "required"@) && (m1@[2].1 matches JsonValue::Array(m7) && m7@.len() == 4 && (text_is(m7@[0], "ok"@)) && (text_is(m7@[1], "schema_version"@)) && (text_is(m7@[2], "command"@)) && (text_is(m7@[3], "data"@)))
}

fn schema_module_requirement_update() -> (r: JsonValue)
    ensures
        schema_module_requirement_update_is(r),
{
    let mut v1: Vec<(String, JsonValue)> = Vec::new();
    v1.push(member("type", text_value("object")));
    let mut v2: Vec<(String, JsonValue)> = Vec::new();
    let mut v3: Vec<(String, JsonValue)> = Vec::new();
    v3.push(member("type", text_value("boolean")));
    v2.push(member("ok", JsonValue::Object(v3)));
    let mut v4: Vec<(String, JsonValue)> = Vec::new();
    v4.push(member("type", text_value("string")));
    v2.push(member("schema_version", JsonValue::Object(v4)));
    let mut v5: Vec<(String, JsonValue)> = Vec::new();
    v5.push(member("type", text_value("string")));
    v2.push(member("command", JsonValue::Object(v5)));
    let mut v6: Vec<(String, JsonValue)> = Vec::new();
    v6.push(member("type", text_value("object")));
    v2.push(member("data", JsonValue::Object(v6)));
    v1.push(member("properties", JsonValue::Object(v2)));
    let mut v7: Vec<JsonValue> = Vec::new();
    v7.push(text_value("ok"));
    v7.push(text_value("schema_version"));
    v7.push(text_value("command"));
    v7.push(text_value("data"));
    v1.push(member("required", JsonValue::Array(v7)));
    JsonValue::Object(v1)
}

/// Whether `v` is the schema of `tool_list`.
pub open spec fn schema_tool_list_is(v: JsonValue) -> bool {
    v matches JsonValue::Object(m1) && m1@.len() == 3 && named(m1@[0], "type"@) && (text_is(m1@[0].1, "object"@)) && named(m1@[1], "properties"@) && (m1@[1].1 matches JsonValue::Object(m2) && m2@.len() == 4 && named(m2@[0], "ok"@) && (m2@[0].1 matches JsonValue::Object(m3) && m3@.len() == 1 && named(m3@[0], "type"@) && (text_is(m3@[0].1, "boolean"@))) && named(m2@[1], "schema_version"@) && (m2@[1].1 matches JsonValue::Object(m4) && m4@.len() == 1 && named(m4@[0], "type"@) && (text_is(m4@[0].1, "string"@))) && named(m2@[2], "command"@) && (m2@[2].1 matches JsonValue::Object(m5) && m5@.len() == 1 && named(m5@[0], "type"@) && (text_is(m5@[0].1, "string"@))) && named(m2@[3], "data"@) && (m2@[3].1 matches JsonValue::Object(m6) && m6@.len() == 1 && named(m6@[0], "type"@) && (text_is(m6@[0].1, "object"@)))) && named(m1@[2], "required"@) && (m1@[2].1 matches JsonValue::Array(m7) && m7@.len() == 4 && (text_is(m7@[0], "ok"@)) && (text_is(m7@[1], "schema_version"@)) && (text_is(m7@[2], "command"@)) && (text_is(m7@[3], "data"@)))
}

fn schema_tool_list() -> (r: JsonValue)
    ensures
        schema_tool_list_is(r),
{
    let mut v1: Vec<(String, JsonValue)> = Vec::new();
    v1.push(member("type", text_value("object")));
    let mut v2: Vec<(String, JsonValue)> = Vec::new();
    let mut v3: Vec<(String, JsonValue)> = Vec::new();
    v3.push(member("type", text_value("boolean")));
    v2.push(member("ok", JsonValue::Object(v3)));
    let mut v4: Vec<(String, JsonValue)> = Vec::new();
    v4.push(member("type", text_value("string")));
    v2.push(member("schema_version", JsonValue::Object(v4)));
    let mut v5: Vec<(String, JsonValue)> = Vec::new();
    v5.push(member("type", text_value("string")));
    v2.push(member("command", JsonValue::Object(v5)));
    let mut v6: Vec<(String, JsonValue)> = Vec::new();
    v6.push(member("type", text_value("object")));
    v2.push(member("data", JsonValue::Object(v6)));
    v1.push(member("properties", JsonValue::Object(v2)));
    let mut v7: Vec<JsonValue> = Vec::new();
    v7.push(text_value("ok"));
    v7.push(text_value("schema_version"));
    v7.push(text_value("command"));
    v7.push(text_value("data"));
    v1.push(member("required", JsonValue::Array(v7)));
    JsonValue::Object(v1)
}

/// Whether `v` is the schema of `tool_mutation`.
pub open spec fn schema_tool_mutation_is(v: JsonValue) -> bool {
    v matches JsonValue::Object(m1) && m1@.len() == 3 && named(m1@[0], "type"@) && (text_is(m1@[0].1, "object"@)) && named(m1@[1], "properties"@) && (m1@[1].1 matches JsonValue::Object(m2) && m2@.len() == 4 && named(m2@[0], "ok"@) && (m2@[0].1 matches JsonValue::Object(m3) && m3@.len() == 1 && named(m3@[0], "type"@) && (text_is(m3@[0].1, "boolean"@))) && named(m2@[1], "schema_version"@) && (m2@[1].1 matches JsonValue::Object(m4) && m4@.len() == 1 && named(m4@[0], "type"@) && (text_is(m4@[0].1, "string"@))) && named(m2@[2], "command"@) && (m2@[2].1 matches JsonValue::Object(m5) && m5@.len() == 1 && named(m5@[0], "type"@) && (text_is(m5@[0].1, "string"@))) && named(m2@[3], "data"@) && (m2@[3].1 matches JsonValue::Object(m6) && m6@.len() == 1 && named(m6@[0], "type"@) && (text_is(m6@[0].1, "object"@)))) && named(m1@[2], "required"@) && (m1@[2].1 matches JsonValue::Array(m7) && m7@.len() == 4 && (text_is(m7@[0], "ok"@)) && (text_is(m7@[1], "schema_version"@)) && (text_is(m7@[2], "command"@)) && (text_is(m7@[3], "data"@)))
}

fn schema_tool_mutation() -> (r: JsonValue)
    ensures
        schema_tool_mutation_is(r),
{
    let mut v1: Vec<(String, JsonValue)> = Vec::new();
    v1.push(member("type", text_value("object")));
    let mut v2: Vec<(String, JsonValue)> = Vec::new();
    let mut v3: Vec<(String, JsonValue)> = Vec::new();
    v3.push(member("type", text_value("boolean")));
    v2.push(member("ok", JsonValue::Object(v3)));
    let mut v4: Vec<(String, JsonValue)> = Vec::new();
    v4.push(member("type", text_value("string")));
    v2.push(member("schema_version", JsonValue::Object(v4)));
    let mut v5: Vec<(String, JsonValue)> = Vec::new();
    v5.push(member("type", text_value("string")));
    v2.push(member("command", JsonValue::Object(v5)));
    let mut v6: Vec<(String, JsonValue)> = Vec::new();
    v6.push(member("type", text_value("object")));
    v2.push(member("data", JsonValue::Object(v6)));
    v1.push(member("properties", JsonValue::Object(v2)));
    let mut v7: Vec<JsonValue> = Vec::new();
    v7.push(text_value("ok"));
    v7.push(text_value("schema_version"));
    v7.push(text_value("command"));
    v7.push(text_value("data"));
    v1.push(member("required", JsonValue::Array(v7)));
    JsonValue::Object(v1)
}

/// Whether `v` is the schema of `calendar_list`.
pub open spec fn schema_calendar_list_is(v: JsonValue) -> bool {
    v matches JsonValue::Object(m1) && m1@.len() == 3 && named(m1@[0], "type"@) && (text_is(m1@[0].1, "object"@)) && named(m1@[1], "properties"@) && (m1@[1].1 matches JsonValue::Object(m2) && m2@.len() == 4 && named(m2@[0], "ok"@) && (m2@[0].1 matches JsonValue::Object(m3) && m3@.len() == 1 && named(m3@[0], "type"@) && (text_is(m3@[0].1, "boolean"@))) && named(m2@[1], "schema_version"@) && (m2@[1].1 matches JsonValue::Object(m4) && m4@.len() == 1 && named(m4@[0], "type"@) && (text_is(m4@[0].1, "string"@))) && named(m2@[2], "command"@) && (m2@[2].1 matches JsonValue::Object(m5) && m5@.len() == 1 && named(m5@[0], "type"@) && (text_is(m5@[0].1, "string"@))) && named(m2@[3], "data"@) && (m2@[3].1 matches JsonValue::Object(m6) && m6@.len() == 1 && named(m6@[0], "type"@) && (text_is(m6@[0].1, "object"@)))) && named(m1@[2], "required"@) && (m1@[2].1 matches JsonValue::Array(m7) && m7@.len() == 4 && (text_is(m7@[0], "ok"@)) && (text_is(m7@[1], "schema_version"@)) && (text_is(m7@[2], "command"@)) && (text_is(m7@[3], "data"@)))
}

fn schema_calendar_list() -> (r: JsonValue)
    ensures
        schema_calendar_list_is(r),
{
    let mut v1: Vec<(String, JsonValue)> = Vec::new();
    v1.push(member("type", text_value("object")));
    let mut v2: Vec<(String, JsonValue)> = Vec::new();
    let mut v3: Vec<(String, JsonValue)> = Vec::new();
    v3.push(member("type", text_value("boolean")));
    v2.push(member("ok", JsonValue::Object(v3)));
    let mut v4: Vec<(String, JsonValue)> = Vec::new();
    v4.push(member("type", text_value("string")));
    v2.push(member("schema_version", JsonValue::Object(v4)));
    let mut v5: Vec<(String, JsonValue)> = Vec::new();
    v5.push(member("type", text_value("string")));
    v2.push(member("command", JsonValue::Object(v5)));
    let mut v6: Vec<(String, JsonValue)> = Vec::new();
    v6.push(member("type", text_value("object")));
    v2.push(member("data", JsonValue::Object(v6)));
    v1.push(member("properties", JsonValue::Object(v2)));
    let mut v7: Vec<JsonValue> = Vec::new();
    v7.push(text_value("ok"));
    v7.push(text_value("schema_version"));
    v7.push(text_value("command"));
    v7.push(text_value("data"));
    v1.push(member("required", JsonValue::Array(v7)));
    JsonValue::Object(v1)
}

/// Whether `v` is the schema of `calendar_mutation`.
pub open spec fn schema_calendar_mutation_is(v: JsonValue) -> bool {
    v matches JsonValue::Object(m1) && m1@.len() == 3 && named(m1@[0], "type"@) && (text_is(m1@[0].1, "object"@)) && named(m1@[1], "properties"@) && (m1@[1].1 matches JsonValue::Object(m2) && m2@.len() == 4 && named(m2@[0], "ok"@) && (m2@[0].1 matches JsonValue::Object(m3) && m3@.len() == 1 && named(m3@[0], "type"@) && (text_is(m3@[0].1, "boolean"@))) && named(m2@[1], "schema_version"@) && (m2@[1].1 matches JsonValue::Object(m4) && m4@.len() == 1 && named(m4@[0], "type"@) && (text_is(m4@[0].1, "string"@))) && named(m2@[2], "command"@) && (m2@[2].1 matches JsonValue::Object(m5) && m5@.len() == 1 && named(m5@[0], "type"@) && (text_is(m5@[0].1, "string"@))) && named(m2@[3], "data"@) && (m2@[3].1 matches JsonValue::Object(m6) && m6@.len() == 1 && named(m6@[0], "type"@) && (text_is(m6@[0].1, "object"@)))) && named(m1@[2], "required"@) && (m1@[2].1 matches JsonValue::Array(m7) && m7@.len() == 4 && (text_is(m7@[0], "ok"@)) && (text_is(m7@[1], "schema_version"@)) && (text_is(m7@[2], "command"@)) && (text_is(m7@[3], "data"@)))
}

fn schema_calendar_mutation() -> (r: JsonValue)
    ensures
        schema_calendar_mutation_is(r),
{
    let mut v1: Vec<(String, JsonValue)> = Vec::new();
    v1.push(member("type", text_value("object")));
    let mut v2: Vec<(String, JsonValue)> = Vec::new();
    let mut v3: Vec<(String, JsonValue)> = Vec::new();
    v3.push(member("type", text_value("boolean")));
    v2.push(member("ok", JsonValue::Object(v3)));
    let mut v4: Vec<(String, JsonValue)> = Vec::new();
    v4.push(member("type", text_value("string")));
    v2.push(member("schema_version", JsonValue::Object(v4)));
    let mut v5: Vec<(String, JsonValue)> = Vec::new();
    v5.push(member("type", text_value("string")));
    v2.push(member("command", JsonValue::Object(v5)));
    let mut v6: Vec<(String, JsonValue)> = Vec::new();
    v6.push(member("type", text_value("object")));
    v2.push(member("data", JsonValue::Object(v6)));
    v1.push(member("properties", JsonValue::Object(v2)));
    let mut v7: Vec<JsonValue> = Vec::new();
    v7.push(text_value("ok"));
    v7.push(text_value("schema_version"));
    v7.push(text_value("command"));
    v7.push(text_value("data"));
    v1.push(member("required", JsonValue::Array(v7)));
    JsonValue::Object(v1)
}

/// Whether `v` is the schema of `conference_list`.
pub open spec fn schema_conference_list_is(v: JsonValue) -> bool {
    v matches JsonValue::Object(m1) && m1@.len() == 3 && named(m1@[0], "type"@) && (text_is(m1@[0].1, "object"@)) && named(m1@[1], "properties"@) && (m1@[1].1 matches JsonValue::Object(m2) && m2@.len() == 4 && named(m2@[0], "ok"@) && (m2@[0].1 matches JsonValue::Object(m3) && m3@.len() == 1 && named(m3@[0], "type"@) && (text_is(m3@[0].1, "boolean"@))) && named(m2@[1], "schema_version"@) && (m2@[1].1 matches JsonValue::Object(m4) && m4@.len() == 1 && named(m4@[0], "type"@) && (text_is(m4@[0].1, "string"@))) && named(m2@[2], "command"@) && (m2@[2].1 matches JsonValue::Object(m5) && m5@.len() == 1 && named(m5@[0], "type"@) && (text_is(m5@[0].1, "string"@))) && named(m2@[3], "data"@) && (m2@[3].1 matches JsonValue::Object(m6) && m6@.len() == 1 && named(m6@[0], "type"@) && (text_is(m6@[0].1, "object"@)))) && named(m1@[2], "required"@) && (m1@[2].1 matches JsonValue::Array(m7) && m7@.len() == 4 && (text_is(m7@[0], "ok"@)) && (text_is(m7@[1], "schema_version"@)) && (text_is(m7@[2], "command"@)) && (text_is(m7@[3], "data"@)))
}

fn schema_conference_list() -> (r: JsonValue)
    ensures
        schema_conference_list_is(r),
{
    let mut v1: Vec<(String, JsonValue)> = Vec::new();
    v1.push(member("type", text_value("object")));
    let mut v2: Vec<(String, JsonValue)> = Vec::new();
    let mut v3: Vec<(String, JsonValue)> = Vec::new();
    v3.push(member("type", text_value("boolean")));
    v2.push(member("ok", JsonValue::Object(v3)));
    let mut v4: Vec<(String, JsonValue)> = Vec::new();
    v4.push(member("type", text_value("string")));
    v2.push(member("schema_version", JsonValue::Object(v4)));
    let mut v5: Vec<(String, JsonValue)> = Vec::new();
    v5.push(member("type", text_value("string")));
    v2.push(member("command", JsonValue::Object(v5)));
    let mut v6: Vec<(String, JsonValue)> = Vec::new();
    v6.push(member("type", text_value("object")));
    v2.push(member("data", JsonValue::Object(v6)));
    v1.push(member("properties", JsonValue::Object(v2)));
    let mut v7: Vec<JsonValue> = Vec::new();
    v7.push(text_value("ok"));
    v7.push(text_value("schema_version"));
    v7.push(text_value("command"));
    v7.push(text_value("data"));
    v1.push(member("required", JsonValue::Array(v7)));
    JsonValue::Object(v1)
}

/// Whether `v` is the schema of `conference_mutation`.
pub open spec fn schema_conference_mutation_is(v: JsonValue) -> bool {
    v matches JsonValue::Object(m1) && m1@.len() == 3 && named(m1@[0], "type"@) && (text_is(m1@[0].1, "object"@)) && named(m1@[1], "properties"@) && (m1@[1].1 matches JsonValue::Object(m2) && m2@.len() == 4 && named(m2@[0], "ok"@) && (m2@[0].1 matches JsonValue::Object(m3) && m3@.len() == 1 && named(m3@[0], "type"@) && (text_is(m3@[0].1, "boolean"@))) && named(m2@[1], "schema_version"@) && (m2@[1].1 matches JsonValue::Object(m4) && m4@.len() == 1 && named(m4@[0], "type"@) && (text_is(m4@[0].1, "string"@))) && named(m2@[2], "command"@) && (m2@[2].1 matches JsonValue::Object(m5) && m5@.len() == 1 && named(m5@[0], "type"@) && (text_is(m5@[0].1, "string"@))) && named(m2@[3], "data"@) && (m2@[3].1 matches JsonValue::Object(m6) && m6@.len() == 1 && named(m6@[0], "type"@) && (text_is(m6@[0].1, "object"@)))) && named(m1@[2], "required"@) && (m1@[2].1 matches JsonValue::Array(m7) && m7@.len() == 4 && (text_is(m7@[0], "ok"@)) && (text_is(m7@[1], "schema_version"@)) && (text_is(m7@[2], "command"@)) && (text_is(m7@[3], "data"@)))
}

fn schema_conference_mutation() -> (r: JsonValue)
    ensures
        schema_conference_mutation_is(r),
{
    let mut v1: Vec<(String, JsonValue)> = Vec::new();
    v1.push(member("type", text_value("object")));
    let mut v2: Vec<(String, JsonValue)> = Vec::new();
    let mut v3: Vec<(String, JsonValue)> = Vec::new();
    v3.push(member("type", text_value("boolean")));
    v2.push(member("ok", JsonValue::Object(v3)));
    let mut v4: Vec<(String, JsonValue)> = Vec::new();
    v4.push(member("type", text_value("string")));
    v2.push(member("schema_version", JsonValue::Object(v4)));
    let mut v5: Vec<(String, JsonValue)> = Vec::new();
    v5.push(member("type", text_value("string")));
    v2.push(member("command", JsonValue::Object(v5)));
    let mut v6: Vec<(String, JsonValue)> = Vec::new();
    v6.push(member("type", text_value("object")));
    v2.push(member("data", JsonValue::Object(v6)));
    v1.push(member("properties", JsonValue::Object(v2)));
    let mut v7: Vec<JsonValue> = Vec::new();
    v7.push(text_value("ok"));
    v7.push(text_value("schema_version"));
    v7.push(text_value("command"));
    v7.push(text_value("data"));
    v1.push(member("required", JsonValue::Array(v7)));
    JsonValue::Object(v1)
}

/// Whether `v` is the schema of `collaboration_list`.
pub open spec fn schema_collaboration_list_is(v: JsonValue) -> bool {
    v matches JsonValue::Object(m1) && m1@.len() == 3 && named(m1@[0], "type"@) && (text_is(m1@[0].1, "object"@)) && named(m1@[1], "properties"@) && (m1@[1].1 matches JsonValue::Object(m2) && m2@.len() == 4 && named(m2@[0], "ok"@) && (m2@[0].1 matches JsonValue::Object(m3) && m3@.len() == 1 && named(m3@[0], "type"@) && (text_is(m3@[0].1, "boolean"@))) && named(m2@[1], "schema_version"@) && (m2@[1].1 matches JsonValue::Object(m4) && m4@.len() == 1 && named(m4@[0], "type"@) && (text_is(m4@[0].1, "string"@))) && named(m2@[2], "command"@) && (m2@[2].1 matches JsonValue::Object(m5) && m5@.len() == 1 && named(m5@[0], "type"@) && (text_is(m5@[0].1, "string"@))) && named(m2@[3], "data"@) && (m2@[3].1 matches JsonValue::Object(m6) && m6@.len() == 1 && named(m6@[0], "type"@) && (text_is(m6@[0].1, "object"@)))) && named(m1@[2], "required"@) && (m1@[2].1 matches JsonValue::Array(m7) && m7@.len() == 4 && (text_is(m7@[0], "ok"@)) && (text_is(m7@[1], "schema_version"@)) && (text_is(m7@[2], "command"@)) && (text_is(m7@[3], "data"@)))
}

fn schema_collaboration_list() -> (r: JsonValue)
    ensures
        schema_collaboration_list_is(r),
{
    let mut v1: Vec<(String, JsonValue)> = Vec::new();
    v1.push(member("type", text_value("object")));
    let mut v2: Vec<(String, JsonValue)> = Vec::new();
    let mut v3: Vec<(String, JsonValue)> = Vec::new();
    v3.push(member("type", text_value("boolean")));
    v2.push(member("ok", JsonValue::Object(v3)));
    let mut v4: Vec<(String, JsonValue)> = Vec::new();
    v4.push(member("type", text_value("string")));
    v2.push(member("schema_version", JsonValue::Object(v4)));
    let mut v5: Vec<(String, JsonValue)> = Vec::new();
    v5.push(member("type", text_value("string")));
    v2.push(member("command", JsonValue::Object(v5)));
    let mut v6: Vec<(String, JsonValue)> = Vec::new();
    v6.push(member("type", text_value("object")));
    v2.push(member("data", JsonValue::Object(v6)));
    v1.push(member("properties", JsonValue::Object(v2)));
    let mut v7: Vec<JsonValue> = Vec::new();
    v7.push(text_value("ok"));
    v7.push(text_value("schema_version"));
    v7.push(text_value("command"));
    v7.push(text_value("data"));
    v1.push(member("required", JsonValue::Array(v7)));
    JsonValue::Object(v1)
}

/// Whether `v` is the schema of `collaboration_mutation`.
pub open spec fn schema_collaboration_mutation_is(v: JsonValue) -> bool {
    v matches JsonValue::Object(m1) && m1@.len() == 3 && named(m1@[0], "type"@) && (text_is(m1@[0].1, "object"@)) && named(m1@[1], "properties"@) && (m1@[1].1 matches JsonValue::Object(m2) && m2@.len() == 4 && named(m2@[0], "ok"@) && (m2@[0].1 matches JsonValue::Object(m3) && m3@.len() == 1 && named(m3@[0], "type"@) && (text_is(m3@[0].1, "boolean"@))) && named(m2@[1], "schema_version"@) && (m2@[1].1 matches JsonValue::Object(m4) && m4@.len() == 1 && named(m4@[0], "type"@) && (text_is(m4@[0].1, "string"@))) && named(m2@[2], "command"@) && (m2@[2].1 matches JsonValue::Object(m5) && m5@.len() == 1 && named(m5@[0], "type"@) && (text_is(m5@[0].1, "string"@))) && named(m2@[3], "data"@) && (m2@[3].1 matches JsonValue::Object(m6) && m6@.len() == 1 && named(m6@[0], "type"@) && (text_is(m6@[0].1, "object"@)))) && named(m1@[2], "required"@) && (m1@[2].1 matches JsonValue::Array(m7) && m7@.len() == 4 && (text_is(m7@[0], "ok"@)) && (text_is(m7@[1], "schema_version"@)) && (text_is(m7@[2], "command"@)) && (text_is(m7@[3], "data"@)))
}

fn schema_collaboration_mutation() -> (r: JsonValue)
    ensures
        schema_collaboration_mutation_is(r),
{
    let mut v1: Vec<(String, JsonValue)> = Vec::new();
    v1.push(member("type", text_value("object")));
    let mut v2: Vec<(String, JsonValue)> = Vec::new();
    let mut v3: Vec<(String, JsonValue)> = Vec::new();
    v3.push(member("type", text_value("boolean")));
    v2.push(member("ok", JsonValue::Object(v3)));
    let mut v4: Vec<(String, JsonValue)> = Vec::new();
    v4.push(member("type", text_value("string")));
    v2.push(member("schema_version", JsonValue::Object(v4)));
    let mut v5: Vec<(String, JsonValue)> = Vec::new();
    v5.push(member("type", text_value("string")));
    v2.push(member("command", JsonValue::Object(v5)));
    let mut v6: Vec<(String, JsonValue)> = Vec::new();
    v6.push(member("type", text_value("object")));
    v2.push(member("data", JsonValue::Object(v6)));
    v1.push(member("properties", JsonValue::Object(v2)));
    let mut v7: Vec<JsonValue> = Vec::new();
    v7.push(text_value("ok"));
    v7.push(text_value("schema_version"));
    v7.push(text_value("command"));
    v7.push(text_value("data"));
    v1.push(member("required", JsonValue::Array(v7)));
    JsonValue::Object(v1)
}

/// Whether `v` is the schema of `file_list`.
pub open spec fn schema_file_list_is(v: JsonValue) -> bool {
    v matches JsonValue::Object(m1) && m1@.len() == 3 && named(m1@[0], "type"@) && (text_is(m1@[0].1, "object"@)) && named(m1@[1], "properties"@) && (m1@[1].1 matches JsonValue::Object(m2) && m2@.len() == 4 && named(m2@[0], "ok"@) && (m2@[0].1 matches JsonValue::Object(m3) && m3@.len() == 1 && named(m3@[0], "type"@) && (text_is(m3@[0].1, "boolean"@))) && named(m2@[1], "schema_version"@) && (m2@[1].1 matches JsonValue::Object(m4) && m4@.len() == 1 && named(m4@[0], "type"@) && (text_is(m4@[0].1, "string"@))) && named(m2@[2], "command"@) && (m2@[2].1 matches JsonValue::Object(m5) && m5@.len() == 1 && named(m5@[0], "type"@) && (text_is(m5@[0].1, "string"@))) && named(m2@[3], "data"@) && (m2@[3].1 matches JsonValue::Object(m6) && m6@.len() == 1 && named(m6@[0], "type"@) && (text_is(m6@[0].1, "object"@)))) && named(m1@[2], "required"@) && (m1@[2].1 matches JsonValue::Array(m7) && m7@.len() == 4 && (text_is(m7@[0], "ok"@)) && (text_is(m7@[1], "schema_version"@)) && (text_is(m7@[2], "command"@)) && (text_is(m7@[3], "data"@)))
}

fn schema_file_list() -> (r: JsonValue)
    ensures
        schema_file_list_is(r),
{
    let mut v1: Vec<(String, JsonValue)> = Vec::new();
    v1.push(member("type", text_value("object")));
    let mut v2: Vec<(String, JsonValue)> = Vec::new();
    let mut v3: Vec<(String, JsonValue)> = Vec::new();
    v3.push(member("type", text_value("boolean")));
    v2.push(member("ok", JsonValue::Object(v3)));
    let mut v4: Vec<(String, JsonValue)> = Vec::new();
    v4.push(member("type", text_value("string")));
    v2.push(member("schema_version", JsonValue::Object(v4)));
    let mut v5: Vec<(String, JsonValue)> = Vec::new();
    v5.push(member("type", text_value("string")));
    v2.push(member("command", JsonValue::Object(v5)));
    let mut v6: Vec<(String, JsonValue)> = Vec::new();
    v6.push(member("type", text_value("object")));
    v2.push(member("data", JsonValue::Object(v6)));
    v1.push(member("properties", JsonValue::Object(v2)));
    let mut v7: Vec<JsonValue> = Vec::new();
    v7.push(text_value("ok"));
    v7.push(text_value("schema_version"));
    v7.push(text_value("command"));
    v7.push(text_value("data"));
    v1.push(member("required", JsonValue::Array(v7)));
    JsonValue::Object(v1)
}

/// Whether `v` is the schema of `file_upload`.
pub open spec fn schema_file_upload_is(v: JsonValue) -> bool {
    v matches JsonValue::Object(m1) && m1@.len() == 3 && named(m1@[0], "type"@) && (text_is(m1@[0].1, "object"@)) && named(m1@[1], "properties"@) && (m1@[1].1 matches JsonValue::Object(m2) && m2@.len() == 4 && named(m2@[0], "ok"@) && (m2@[0].1 matches JsonValue::Object(m3) && m3@.len() == 1 && named(m3@[0], "type"@) && (text_is(m3@[0].1, "boolean"@))) && named(m2@[1], "schema_version"@) && (m2@[1].1 matches JsonValue::Object(m4) && m4@.len() == 1 && named(m4@[0], "type"@) && (text_is(m4@[0].1, "string"@))) && named(m2@[2], "command"@) && (m2@[2].1 matches JsonValue::Object(m5) && m5@.len() == 1 && named(m5@[0], "type"@) && (text_is(m5@[0].1, "string"@))) && named(m2@[3], "data"@) && (m2@[3].1 matches JsonValue::Object(m6) && m6@.len() == 1 && named(m6@[0], "type"@) && (text_is(m6@[0].1, "object"@)))) && named(m1@[2], "required"@) && (m1@[2].1 matches JsonValue::Array(m7) && m7@.len() == 4 && (text_is(m7@[0], "ok"@)) && (text_is(m7@[1], "schema_version"@)) && (text_is(m7@[2], "command"@)) && (text_is(m7@[3], "data"@)))
}

fn schema_file_upload() -> (r: JsonValue)
    ensures
        schema_file_upload_is(r),
{
    let mut v1: Vec<(String, JsonValue)> = Vec::new();
    v1.push(member("type", text_value("object")));
    let mut v2: Vec<(String, JsonValue)> = Vec::new();
    let mut v3: Vec<(String, JsonValue)> = Vec::new();
    v3.push(member("type", text_value("boolean")));
    v2.push(member("ok", JsonValue::Object(v3)));
    let mut v4: Vec<(String, JsonValue)> = Vec::new();
    v4.push(member("type", text_value("string")));
    v2.push(member("schema_version", JsonValue::Object(v4)));
    let mut v5: Vec<(String, JsonValue)> = Vec::new();
    v5.push(member("type", text_value("string")));
    v2.push(member("command", JsonValue::Object(v5)));
    let mut v6: Vec<(String, JsonValue)> = Vec::new();
    v6.push(member("type", text_value("object")));
    v2.push(member("data", JsonValue::Object(v6)));
    v1.push(member("properties", JsonValue::Object(v2)));
    let mut v7: Vec<JsonValue> = Vec::new();
    v7.push(text_value("ok"));
    v7.push(text_value("schema_version"));
    v7.push(text_value("command"));
    v7.push(text_value("data"));
    v1.push(member("required", JsonValue::Array(v7)));
    JsonValue::Object(v1)
}

/// Whether `v` is the schema of `file_delete`.
pub open spec fn schema_file_delete_is(v: JsonValue) -> bool {
    v matches JsonValue::Object(m1) && m1@.len() == 3 && named(m1@[0], "type"@) && (text_is(m1@[0].1, "object"@)) && named(m1@[1], "properties"@) && (m1@[1].1 matches JsonValue::Object(m2) && m2@.len() == 4 && named(m2@[0], "ok"@) && (m2@[0].1 matches JsonValue::Object(m3) && m3@.len() == 1 && named(m3@[0], "type"@) && (text_is(m3@[0].1, "boolean"@))) && named(m2@[1], "schema_version"@) && (m2@[1].1 matches JsonValue::Object(m4) && m4@.len() == 1 && named(m4@[0], "type"@) && (text_is(m4@[0].1, "string"@))) && named(m2@[2], "command"@) && (m2@[2].1 matches JsonValue::Object(m5) && m5@.len() == 1 && named(m5@[0], "type"@) && (text_is(m5@[0].1, "string"@))) && named(m2@[3], "data"@) && (m2@[3].1 matches JsonValue::Object(m6) && m6@.len() == 1 && named(m6@[0], "type"@) && (text_is(m6@[0].1, "object"@)))) && named(m1@[2], "required"@) && (m1@[2].1 matches JsonValue::Array(m7) && m7@.len() == 4 && (text_is(m7@[0], "ok"@)) && (text_is(m7@[1], "schema_version"@)) && (text_is(m7@[2], "command"@)) && (text_is(m7@[3], "data"@)))
}

fn schema_file_delete() -> (r: JsonValue)
    ensures
        schema_file_delete_is(r),
{
    let mut v1: Vec<(String, JsonValue)> = Vec::new();
    v1.push(member("type", text_value("object")));
    let mut v2: Vec<(String, JsonValue)> = Vec::new();
    let mut v3: Vec<(String, JsonValue)> = Vec::new();
    v3.push(member("type", text_value("boolean")));
    v2.push(member("ok", JsonValue::Object(v3)));
    let mut v4: Vec<(String, JsonValue)> = Vec::new();
    v4.push(member("type", text_value("string")));
    v2.push(member("schema_version", JsonValue::Object(v4)));
    let mut v5: Vec<(String, JsonValue)> = Vec::new();
    v5.push(member("type", text_value("string")));
    v2.push(member("command", JsonValue::Object(v5)));
    let mut v6: Vec<(String, JsonValue)> = Vec::new();
    v6.push(member("type", text_value("object")));
    v2.push(member("data", JsonValue::Object(v6)));
    v1.push(member("properties", JsonValue::Object(v2)));
    let mut v7: Vec<JsonValue> = Vec::new();
    v7.push(text_value("ok"));
    v7.push(text_value("schema_version"));
    v7.push(text_value("command"));
    v7.push(text_value("data"));
    v1.push(member("required", JsonValue::Array(v7)));
    JsonValue::Object(v1)
}

/// Whether `v` is the schema of `folder_list`.
pub open spec fn schema_folder_list_is(v: JsonValue) -> bool {
    v matches JsonValue::Object(m1) && m1@.len() == 3 && named(m1@[0], "type"@) && (text_is(m1@[0].1, "object"@)) && named(m1@[1], "properties"@) && (m1@[1].1 matches JsonValue::Object(m2) && m2@.len() == 4 && named(m2@[0], "ok"@) && (m2@[0].1 matches JsonValue::Object(m3) && m3@.len() == 1 && named(m3@[0], "type"@) && (text_is(m3@[0].1, "boolean"@))) && named(m2@[1], "schema_version"@) && (m2@[1].1 matches JsonValue::Object(m4) && m4@.len() == 1 && named(m4@[0], "type"@) && (text_is(m4@[0].1, "string"@))) && named(m2@[2], "command"@) && (m2@[2].1 matches JsonValue::Object(m5) && m5@.len() == 1 && named(m5@[0], "type"@) && (text_is(m5@[0].1, "string"@))) && named(m2@[3], "data"@) && (m2@[3].1 matches JsonValue::Object(m6) && m6@.len() == 1 && named(m6@[0], "type"@) && (text_is(m6@[0].1, "object"@)))) && named(m1@[2], "required"@) && (m1@[2].1 matches JsonValue::Array(m7) && m7@.len() == 4 && (text_is(m7@[0], "ok"@)) && (text_is(m7@[1], "schema_version"@)) && (text_is(m7@[2], "command"@)) && (text_is(m7@[3], "data"@)))
}

fn schema_folder_list() -> (r: JsonValue)
    ensures
        schema_folder_list_is(r),
{
    let mut v1: Vec<(String, JsonValue)> = Vec::new();
    v1.push(member("type", text_value("object")));
    let mut v2: Vec<(String, JsonValue)> = Vec::new();
    let mut v3: Vec<(String, JsonValue)> = Vec::new();
    v3.push(member("type", text_value("boolean")));
    v2.push(member("ok", JsonValue::Object(v3)));
    let mut v4: Vec<(String, JsonValue)> = Vec::new();
    v4.push(member("type", text_value("string")));
    v2.push(member("schema_version", JsonValue::Object(v4)));
    let mut v5: Vec<(String, JsonValue)> = Vec::new();
    v5.push(member("type", text_value("string")));
    v2.push(member("command", JsonValue::Object(v5)));
    let mut v6: Vec<(String, JsonValue)> = Vec::new();
    v6.push(member("type", text_value("object")));
    v2.push(member("data", JsonValue::Object(v6)));
    v1.push(member("properties", JsonValue::Object(v2)));
    let mut v7: Vec<JsonValue> = Vec::new();
    v7.push(text_value("ok"));
    v7.push(text_value("schema_version"));
    v7.push(text_value("command"));
    v7.push(text_value("data"));
    v1.push(member("required", JsonValue::Array(v7)));
    JsonValue::Object(v1)
}

/// Whether `v` is the schema of `folder_create`.
pub open spec fn schema_folder_create_is(v: JsonValue) -> bool {
    v matches JsonValue::Object(m1) && m1@.len() == 3 && named(m1@[0], "type"@) && (text_is(m1@[0].1, "object"@)) && named(m1@[1], "properties"@) && (m1@[1].1 matches JsonValue::Object(m2) && m2@.len() == 4 && named(m2@[0], "ok"@) && (m2@[0].1 matches JsonValue::Object(m3) && m3@.len() == 1 && named(m3@[0], "type"@) && (text_is(m3@[0].1, "boolean"@))) && named(m2@[1], "schema_version"@) && (m2@[1].1 matches JsonValue::Object(m4) && m4@.len() == 1 && named(m4@[0], "type"@) && (text_is(m4@[0].1, "string"@))) && named(m2@[2], "command"@) && (m2@[2].1 matches JsonValue::Object(m5) && m5@.len() == 1 && named(m5@[0], "type"@) && (text_is(m5@[0].1, "string"@))) && named(m2@[3], "data"@) && (m2@[3].1 matches JsonValue::Object(m6) && m6@.len() == 1 && named(m6@[0], "type"@) && (text_is(m6@[0].1, "object"@)))) && named(m1@[2], "required"@) && (m1@[2].1 matches JsonValue::Array(m7) && m7@.len() == 4 && (text_is(m7@[0], "ok"@)) && (text_is(m7@[1], "schema_version"@)) && (text_is(m7@[2], "command"@)) && (text_is(m7@[3], "data"@)))
}

fn schema_folder_create() -> (r: JsonValue)
    ensures
        schema_folder_create_is(r),
{
    let mut v1: Vec<(String, JsonValue)> = Vec::new();
    v1.push(member("type", text_value("object")));
    let mut v2: Vec<(String, JsonValue)> = Vec::new();
    let mut v3: Vec<(String, JsonValue)> = Vec::new();
    v3.push(member("type", text_value("boolean")));
    v2.push(member("ok", JsonValue::Object(v3)));
    let mut v4: Vec<(String, JsonValue)> = Vec::new();
    v4.push(member("type", text_value("string")));
    v2.push(member("schema_version", JsonValue::Object(v4)));
    let mut v5: Vec<(String, JsonValue)> = Vec::new();
    v5.push(member("type", text_value("string")));
    v2.push(member("command", JsonValue::Object(v5)));
    let mut v6: Vec<(String, JsonValue)> = Vec::new();
    v6.push(member("type", text_value("object")));
    v2.push(member("data", JsonValue::Object(v6)));
    v1.push(member("properties", JsonValue::Object(v2)));
    let mut v7: Vec<JsonValue> = Vec::new();
    v7.push(text_value("ok"));
    v7.push(text_value("schema_version"));
    v7.push(text_value("command"));
    v7.push(text_value("data"));
    v1.push(member("required", JsonValue::Array(v7)));
    JsonValue::Object(v1)
}

/// Whether `v` is the schema of `content_migration_list`.
pub open spec fn schema_content_migration_list_is(v: JsonValue) -> bool {
    v matches JsonValue::Object(m1) && m1@.len() == 3 && named(m1@[0], "type"@) && (text_is(m1@[0].1, "object"@)) && named(m1@[1], "properties"@) && (m1@[1].1 matches JsonValue::Object(m2) && m2@.len() == 4 && named(m2@[0], "ok"@) && (m2@[0].1 matches JsonValue::Object(m3) && m3@.len() == 1 && named(m3@[0], "type"@) && (text_is(m3@[0].1, "boolean"@))) && named(m2@[1], "schema_version"@) && (m2@[1].1 matches JsonValue::Object(m4) && m4@.len() == 1 && named(m4@[0], "type"@) && (text_is(m4@[0].1, "string"@))) && named(m2@[2], "command"@) && (m2@[2].1 matches JsonValue::Object(m5) && m5@.len() == 1 && named(m5@[0], "type"@) && (text_is(m5@[0].1, "string"@))) && named(m2@[3], "data"@) && (m2@[3].1 matches JsonValue::Object(m6) && m6@.len() == 1 && named(m6@[0], "type"@) && (text_is(m6@[0].1, "object"@)))) && named(m1@[2], "required"@) && (m1@[2].1 matches JsonValue::Array(m7) && m7@.len() == 4 && (text_is(m7@[0], "ok"@)) && (text_is(m7@[1], "schema_version"@)) && (text_is(m7@[2], "command"@)) && (text_is(m7@[3], "data"@)))
}

fn schema_content_migration_list() -> (r: JsonValue)
    ensures
        schema_content_migration_list_is(r),
{
    let mut v1: Vec<(String, JsonValue)> = Vec::new();
    v1.push(member("type", text_value("object")));
    let mut v2: Vec<(String, JsonValue)> = Vec::new();
    let mut v3: Vec<(String, JsonValue)> = Vec::new();
    v3.push(member("type", text_value("boolean")));
    v2.push(member("ok", JsonValue::Object(v3)));
    let mut v4: Vec<(String, JsonValue)> = Vec::new();
    v4.push(member("type", text_value("string")));
    v2.push(member("schema_version", JsonValue::Object(v4)));
    let mut v5: Vec<(String, JsonValue)> = Vec::new();
    v5.push(member("type", text_value("string")));
    v2.push(member("command", JsonValue::Object(v5)));
    let mut v6: Vec<(String, JsonValue)> = Vec::new();
    v6.push(member("type", text_value("object")));
    v2.push(member("data", JsonValue::Object(v6)));
    v1.push(member("properties", JsonValue::Object(v2)));
    let mut v7: Vec<JsonValue> = Vec::new();
    v7.push(text_value("ok"));
    v7.push(text_value("schema_version"));
    v7.push(text_value("command"));
    v7.push(text_value("data"));
    v1.push(member("required", JsonValue::Array(v7)));
    JsonValue::Object(v1)
}

/// Whether `v` is the schema of `content_migration_mutation`.
pub open spec fn schema_content_migration_mutation_is(v: JsonValue) -> bool {
    v matches JsonValue::Object(m1) && m1@.len() == 3 && named(m1@[0], "type"@) && (text_is(m1@[0].1, "object"@)) && named(m1@[1], "properties"@) && (m1@[1].1 matches JsonValue::Object(m2) && m2@.len() == 4 && named(m2@[0], "ok"@) && (m2@[0].1 matches JsonValue::Object(m3) && m3@.len() == 1 && named(m3@[0], "type"@) && (text_is(m3@[0].1, "boolean"@))) && named(m2@[1], "schema_version"@) && (m2@[1].1 matches JsonValue::Object(m4) && m4@.len() == 1 && named(m4@[0], "type"@) && (text_is(m4@[0].1, "string"@))) && named(m2@[2], "command"@) && (m2@[2].1 matches JsonValue::Object(m5) && m5@.len() == 1 && named(m5@[0], "type"@) && (text_is(m5@[0].1, "string"@))) && named(m2@[3], "data"@) && (m2@[3].1 matches JsonValue::Object(m6) && m6@.len() == 1 && named(m6@[0], "type"@) && (text_is(m6@[0].1, "object"@)))) && named(m1@[2], "required"@) && (m1@[2].1 matches JsonValue::Array(m7) && m7@.len() == 4 && (text_is(m7@[0], "ok"@)) && (text_is(m7@[1], "schema_version"@)) && (text_is(m7@[2], "command"@)) && (text_is(m7@[3], "data"@)))
}

fn schema_content_migration_mutation() -> (r: JsonValue)
    ensures
        schema_content_migration_mutation_is(r),
{
    let mut v1: Vec<(String, JsonValue)> = Vec::new();
    v1.push(member("type", text_value("object")));
    let mut v2: Vec<(String, JsonValue)> = Vec::new();
    let mut v3: Vec<(String, JsonValue)> = Vec::new();
    v3.push(member("type", text_value("boolean")));
    v2.push(member("ok", JsonValue::Object(v3)));
    let mut v4: Vec<(String, JsonValue)> = Vec::new();
    v4.push(member("type", text_value("string")));
    v2.push(member("schema_version", JsonValue::Object(v4)));
    let mut v5: Vec<(String, JsonValue)> = Vec::new();
    v5.push(member("type", text_value("string")));
    v2.push(member("command", JsonValue::Object(v5)));
    let mut v6: Vec<(String, JsonValue)> = Vec::new();
    v6.push(member("type", text_value("object")));
    v2.push(member("data", JsonValue::Object(v6)));
    v1.push(member("properties", JsonValue::Object(v2)));
    let mut v7: Vec<JsonValue> = Vec::new();
    v7.push(text_value("ok"));
    v7.push(text_value("schema_version"));
    v7.push(text_value("command"));
    v7.push(text_value("data"));
    v1.push(member("required", JsonValue::Array(v7)));
    JsonValue::Object(v1)
}

/// Whether `v` is the schema of `announcement_list`.
pub open spec fn schema_announcement_list_is(v: JsonValue) -> bool {
    v matches JsonValue::Object(m1) && m1@.len() == 3 && named(m1@[0], "type"@) && (text_is(m1@[0].1, "object"@)) && named(m1@[1], "properties"@) && (m1@[1].1 matches JsonValue::Object(m2) && m2@.len() == 4 && named(m2@[0], "ok"@) && (m2@[0].1 matches JsonValue::Object(m3) && m3@.len() == 1 && named(m3@[0], "type"@) && (text_is(m3@[0].1, "boolean"@))) && named(m2@[1], "schema_version"@) && (m2@[1].1 matches JsonValue::Object(m4) && m4@.len() == 1 && named(m4@[0], "type"@) && (text_is(m4@[0].1, "string"@))) && named(m2@[2], "command"@) && (m2@[2].1 matches JsonValue::Object(m5) && m5@.len() == 1 && named(m5@[0], "type"@) && (text_is(m5@[0].1, "string"@))) && named(m2@[3], "data"@) && (m2@[3].1 matches JsonValue::Object(m6) && m6@.len() == 1 && named(m6@[0], "type"@) && (text_is(m6@[0].1, "object"@)))) && named(m1@[2], "required"@) && (m1@[2].1 matches JsonValue::Array(m7) && m7@.len() == 4 && (text_is(m7@[0], "ok"@)) && (text_is(m7@[1], "schema_version"@)) && (text_is(m7@[2], "command"@)) && (text_is(m7@[3], "data"@)))
}

fn schema_announcement_list() -> (r: JsonValue)
    ensures
        schema_announcement_list_is(r),
{
    let mut v1: Vec<(String, JsonValue)> = Vec::new();
    v1.push(member("type", text_value("object")));
    let mut v2: Vec<(String, JsonValue)> = Vec::new();
    let mut v3: Vec<(String, JsonValue)> = Vec::new();
    v3.push(member("type", text_value("boolean")));
    v2.push(member("ok", JsonValue::Object(v3)));
    let mut v4: Vec<(String, JsonValue)> = Vec::new();
    v4.push(member("type", text_value("string")));
    v2.push(member("schema_version", JsonValue::Object(v4)));
    let mut v5: Vec<(String, JsonValue)> = Vec::new();
    v5.push(member("type", text_value("string")));
    v2.push(member("command", JsonValue::Object(v5)));
    let mut v6: Vec<(String, JsonValue)> = Vec::new();
    v6.push(member("type", text_value("object")));
    v2.push(member("data", JsonValue::Object(v6)));
    v1.push(member("properties", JsonValue::Object(v2)));
    let mut v7: Vec<JsonValue> = Vec::new();
    v7.push(text_value("ok"));
    v7.push(text_value("schema_version"));
    v7.push(text_value("command"));
    v7.push(text_value("data"));
    v1.push(member("required", JsonValue::Array(v7)));
    JsonValue::Object(v1)
}

/// Whether `v` is the schema of `announcement_create`.
pub open spec fn schema_announcement_create_is(v: JsonValue) -> bool {
    v matches JsonValue::Object(m1) && m1@.len() == 3 && named(m1@[0], "type"@) && (text_is(m1@[0].1, "object"@)) && named(m1@[1], "properties"@) && (m1@[1].1 matches JsonValue::Object(m2) && m2@.len() == 4 && named(m2@[0], "ok"@) && (m2@[0].1 matches JsonValue::Object(m3) && m3@.len() == 1 && named(m3@[0], "type"@) && (text_is(m3@[0].1, "boolean"@))) && named(m2@[1], "schema_version"@) && (m2@[1].1 matches JsonValue::Object(m4) && m4@.len() == 1 && named(m4@[0], "type"@) && (text_is(m4@[0].1, "string"@))) && named(m2@[2], "command"@) && (m2@[2].1 matches JsonValue::Object(m5) && m5@.len() == 1 && named(m5@[0], "type"@) && (text_is(m5@[0].1, "string"@))) && named(m2@[3], "data"@) && (m2@[3].1 matches JsonValue::Object(m6) && m6@.len() == 1 && named(m6@[0], "type"@) && (text_is(m6@[0].1, "object"@)))) && named(m1@[2], "required"@) && (m1@[2].1 matches JsonValue::Array(m7) && m7@.len() == 4 && (text_is(m7@[0], "ok"@)) && (text_is(m7@[1], "schema_version"@)) && (text_is(m7@[2], "command"@)) && (text_is(m7@[3], "data"@)))
}

fn schema_announcement_create() -> (r: JsonValue)
    ensures
        schema_announcement_create_is(r),
{
    let mut v1: Vec<(String, JsonValue)> = Vec::new();
    v1.push(member("type", text_value("object")));
    let mut v2: Vec<(String, JsonValue)> = Vec::new();
    let mut v3: Vec<(String, JsonValue)> = Vec::new();
    v3.push(member("type", text_value("boolean")));
    v2.push(member("ok", JsonValue::Object(v3)));
    let mut v4: Vec<(String, JsonValue)> = Vec::new();
    v4.push(member("type", text_value("string")));
    v2.push(member("schema_version", JsonValue::Object(v4)));
    let mut v5: Vec<(String, JsonValue)> = Vec::new();
    v5.push(member("type", text_value("string")));
    v2.push(member("command", JsonValue::Object(v5)));
    let mut v6: Vec<(String, JsonValue)> = Vec::new();
    v6.push(member("type", text_value("object")));
    v2.push(member("data", JsonValue::Object(v6)));
    v1.push(member("properties", JsonValue::Object(v2)));
    let mut v7: Vec<JsonValue> = Vec::new();
    v7.push(text_value("ok"));
    v7.push(text_value("schema_version"));
    v7.push(text_value("command"));
    v7.push(text_value("data"));
    v1.push(member("required", JsonValue::Array(v7)));
    JsonValue::Object(v1)
}

/// Whether `v` is the schema of `discussion_list`.
pub open spec fn schema_discussion_list_is(v: JsonValue) -> bool {
    v matches JsonValue::Object(m1) && m1@.len() == 3 && named(m1@[0], "type"@) && (text_is(m1@[0].1, "object"@)) && named(m1@[1], "properties"@) && (m1@[1].1 matches JsonValue::Object(m2) && m2@.len() == 4 && named(m2@[0], "ok"@) && (m2@[0].1 matches JsonValue::Object(m3) && m3@.len() == 1 && named(m3@[0], "type"@) && (text_is(m3@[0].1, "boolean"@))) && named(m2@[1], "schema_version"@) && (m2@[1].1 matches JsonValue::Object(m4) && m4@.len() == 1 && named(m4@[0], "type"@) && (text_is(m4@[0].1, "string"@))) && named(m2@[2], "command"@) && (m2@[2].1 matches JsonValue::Object(m5) && m5@.len() == 1 && named(m5@[0], "type"@) && (text_is(m5@[0].1, "string"@))) && named(m2@[3], "data"@) && (m2@[3].1 matches JsonValue::Object(m6) && m6@.len() == 1 && named(m6@[0], "type"@) && (text_is(m6@[0].1, "object"@)))) && named(m1@[2], "required"@) && (m1@[2].1 matches JsonValue::Array(m7) && m7@.len() == 4 && (text_is(m7@[0], "ok"@)) && (text_is(m7@[1], "schema_version"@)) && (text_is(m7@[2], "command"@)) && (text_is(m7@[3], "data"@)))
}

fn schema_discussion_list() -> (r: JsonValue)
    ensures
        schema_discussion_list_is(r),
{
    let mut v1: Vec<(String, JsonValue)> = Vec::new();
    v1.push(member("type", text_value("object")));
    let mut v2: Vec<(String, JsonValue)> = Vec::new();
    let mut v3: Vec<(String, JsonValue)> = Vec::new();
    v3.push(member("type", text_value("boolean")));
    v2.push(member("ok", JsonValue::Object(v3)));
    let mut v4: Vec<(String, JsonValue)> = Vec::new();
    v4.push(member("type", text_value("string")));
    v2.push(member("schema_version", JsonValue::Object(v4)));
    let mut v5: Vec<(String, JsonValue)> = Vec::new();
    v5.push(member("type", text_value("string")));
    v2.push(member("command", JsonValue::Object(v5)));
    let mut v6: Vec<(String, JsonValue)> = Vec::new();
    v6.push(member("type", text_value("object")));
    v2.push(member("data", JsonValue::Object(v6)));
    v1.push(member("properties", JsonValue::Object(v2)));
    let mut v7: Vec<JsonValue> = Vec::new();
    v7.push(text_value("ok"));
    v7.push(text_value("schema_version"));
    v7.push(text_value("command"));
    v7.push(text_value("data"));
    v1.push(member("required", JsonValue::Array(v7)));
    JsonValue::Object(v1)
}

/// Whether `v` is the schema of `discussion_create`.
pub open spec fn schema_discussion_create_is(v: JsonValue) -> bool {
    v matches JsonValue::Object(m1) && m1@.len() == 3 && named(m1@[0], "type"@) && (text_is(m1@[0].1, "object"@)) && named(m1@[1], "properties"@) && (m1@[1].1 matches JsonValue::Object(m2) && m2@.len() == 4 && named(m2@[0], "ok"@) && (m2@[0].1 matches JsonValue::Object(m3) && m3@.len() == 1 && named(m3@[0], "type"@) && (text_is(m3@[0].1, "boolean"@))) && named(m2@[1], "schema_version"@) && (m2@[1].1 matches JsonValue::Object(m4) && m4@.len() == 1 && named(m4@[0], "type"@) && (text_is(m4@[0].1, "string"@))) && named(m2@[2], "command"@) && (m2@[2].1 matches JsonValue::Object(m5) && m5@.len() == 1 && named(m5@[0], "type"@) && (text_is(m5@[0].1, "string"@))) && named(m2@[3], "data"@) && (m2@[3].1 matches JsonValue::Object(m6) && m6@.len() == 1 && named(m6@[0], "type"@) && (text_is(m6@[0].1, "object"@)))) && named(m1@[2], "required"@) && (m1@[2].1 matches JsonValue::Array(m7) && m7@.len() == 4 && (text_is(m7@[0], "ok"@)) && (text_is(m7@[1], "schema_version"@)) && (text_is(m7@[2], "command"@)) && (text_is(m7@[3], "data"@)))
}

fn schema_discussion_create() -> (r: JsonValue)
    ensures
        schema_discussion_create_is(r),
{
    let mut v1: Vec<(String, JsonValue)> = Vec::new();
    v1.push(member("type", text_value("object")));
    let mut v2: Vec<(String, JsonValue)> = Vec::new();
    let mut v3: Vec<(String, JsonValue)> = Vec::new();
    v3.push(member("type", text_value("boolean")));
    v2.push(member("ok", JsonValue::Object(v3)));
    let mut v4: Vec<(String, JsonValue)> = Vec::new();
    v4.push(member("type", text_value("string")));
    v2.push(member("schema_version", JsonValue::Object(v4)));
    let mut v5: Vec<(String, JsonValue)> = Vec::new();
    v5.push(member("type", text_value("string")));
    v2.push(member("command", JsonValue::Object(v5)));
    let mut v6: Vec<(String, JsonValue)> = Vec::new();
    v6.push(member("type", text_value("object")));
    v2.push(member("data", JsonValue::Object(v6)));
    v1.push(member("properties", JsonValue::Object(v2)));
    let mut v7: Vec<JsonValue> = Vec::new();
    v7.push(text_value("ok"));
    v7.push(text_value("schema_version"));
    v7.push(text_value("command"));
    v7.push(text_value("data"));
    v1.push(member("required", JsonValue::Array(v7)));
    JsonValue::Object(v1)
}

/// Whether `v` is the schema of `user_list`.
pub open spec fn schema_user_list_is(v: JsonValue) -> bool {
    v matches JsonValue::Object(m1) && m1@.len() == 3 && named(m1@[0], "type"@) && (text_is(m1@[0].1, "object"@)) && named(m1@[1], "properties"@) && (m1@[1].1 matches JsonValue::Object(m2) && m2@.len() == 4 && named(m2@[0], "ok"@) && (m2@[0].1 matches JsonValue::Object(m3) && m3@.len() == 1 && named(m3@[0], "type"@) && (text_is(m3@[0].1, "boolean"@))) && named(m2@[1], "schema_version"@) && (m2@[1].1 matches JsonValue::Object(m4) && m4@.len() == 1 && named(m4@[0], "type"@) && (text_is(m4@[0].1, "string"@))) && named(m2@[2], "command"@) && (m2@[2].1 matches JsonValue::Object(m5) && m5@.len() == 1 && named(m5@[0], "type"@) && (text_is(m5@[0].1, "string"@))) && named(m2@[3], "data"@) && (m2@[3].1 matches JsonValue::Object(m6) && m6@.len() == 1 && named(m6@[0], "type"@) && (text_is(m6@[0].1, "object"@)))) && named(m1@[2], "required"@) && (m1@[2].1 matches JsonValue::Array(m7) && m7@.len() == 4 && (text_is(m7@[0], "ok"@)) && (text_is(m7@[1], "schema_version"@)) && (text_is(m7@[2], "command"@)) && (text_is(m7@[3], "data"@)))
}

fn schema_user_list() -> (r: JsonValue)
    ensures
        schema_user_list_is(r),
{
    let mut v1: Vec<(String, JsonValue)> = Vec::new();
    v1.push(member("type", text_value("object")));
    let mut v2: Vec<(String, JsonValue)> = Vec::new();
    let mut v3: Vec<(String, JsonValue)> = Vec::new();
    v3.push(member("type", text_value("boolean")));
    v2.push(member("ok", JsonValue::Object(v3)));
    let mut v4: Vec<(String, JsonValue)> = Vec::new();
    v4.push(member("type", text_value("string")));
    v2.push(member("schema_version", JsonValue::Object(v4)));
    let mut v5: Vec<(String, JsonValue)> = Vec::new();
    v5.push(member("type", text_value("string")));
    v2.push(member("command", JsonValue::Object(v5)));
    let mut v6: Vec<(String, JsonValue)> = Vec::new();
    v6.push(member("type", text_value("object")));
    v2.push(member("data", JsonValue::Object(v6)));
    v1.push(member("properties", JsonValue::Object(v2)));
    let mut v7: Vec<JsonValue> = Vec::new();
    v7.push(text_value("ok"));
    v7.push(text_value("schema_version"));
    v7.push(text_value("command"));
    v7.push(text_value("data"));
    v1.push(member("required", JsonValue::Array(v7)));
    JsonValue::Object(v1)
}

/// Whether `v` is the schema of `message_send`.
pub open spec fn schema_message_send_is(v: JsonValue) -> bool {
    v matches JsonValue::Object(m1) && m1@.len() == 3 && named(m1@[0], "type"@) && (text_is(m1@[0].1, "object"@)) && named(m1@[1], "properties"@) && (m1@[1].1 matches JsonValue::Object(m2) && m2@.len() == 4 && named(m2@[0], "ok"@) && (m2@[0].1 matches JsonValue::Object(m3) && m3@.len() == 1 && named(m3@[0], "type"@) && (text_is(m3@[0].1, "boolean"@))) && named(m2@[1], "schema_version"@) && (m2@[1].1 matches JsonValue::Object(m4) && m4@.len() == 1 && named(m4@[0], "type"@) && (text_is(m4@[0].1, "string"@))) && named(m2@[2], "command"@) && (m2@[2].1 matches JsonValue::Object(m5) && m5@.len() == 1 && named(m5@[0], "type"@) && (text_is(m5@[0].1, "string"@))) && named(m2@[3], "data"@) && (m2@[3].1 matches JsonValue::Object(m6) && m6@.len() == 1 && named(m6@[0], "type"@) && (text_is(m6@[0].1, "object"@)))) && named(m1@[2], "required"@) && (m1@[2].1 matches JsonValue::Array(m7) && m7@.len() == 4 && (text_is(m7@[0], "ok"@)) && (text_is(m7@[1], "schema_version"@)) && (text_is(m7@[2], "command"@)) && (text_is(m7@[3], "data"@)))
}

fn schema_message_send() -> (r: JsonValue)
    ensures
        schema_message_send_is(r),
{
    let mut v1: Vec<(String, JsonValue)> = Vec::new();
    v1.push(member("type", text_value("object")));
    let mut v2: Vec<(String, JsonValue)> = Vec::new();
    let mut v3: Vec<(String, JsonValue)> = Vec::new();
    v3.push(member("type", text_value("boolean")));
    v2.push(member("ok", JsonValue::Object(v3)));
    let mut v4: Vec<(String, JsonValue)> = Vec::new();
    v4.push(member("type", text_value("string")));
    v2.push(member("schema_version", JsonValue::Object(v4)));
    let mut v5: Vec<(String, JsonValue)> = Vec::new();
    v5.push(member("type", text_value("string")));
    v2.push(member("command", JsonValue::Object(v5)));
    let mut v6: Vec<(String, JsonValue)> = Vec::new();
    v6.push(member("type", text_value("object")));
    v2.push(member("data", JsonValue::Object(v6)));
    v1.push(member("properties", JsonValue::Object(v2)));
    let mut v7: Vec<JsonValue> = Vec::new();
    v7.push(text_value("ok"));
    v7.push(text_value("schema_version"));
    v7.push(text_value("command"));
    v7.push(text_value("data"));
    v1.push(member("required", JsonValue::Array(v7)));
    JsonValue::Object(v1)
}

/// Whether `v` is the schema of `group_list`.
pub open spec fn schema_group_list_is(v: JsonValue) -> bool {
    v matches JsonValue::Object(m1) && m1@.len() == 3 && named(m1@[0], "type"@) && (text_is(m1@[0].1, "object"@)) && named(m1@[1], "properties"@) && (m1@[1].1 matches JsonValue::Object(m2) && m2@.len() == 4 && named(m2@[0], "ok"@) && (m2@[0].1 matches JsonValue::Object(m3) && m3@.len() == 1 && named(m3@[0], "type"@) && (text_is(m3@[0].1, "boolean"@))) && named(m2@[1], "schema_version"@) && (m2@[1].1 matches JsonValue::Object(m4) && m4@.len() == 1 && named(m4@[0], "type"@) && (text_is(m4@[0].1, "string"@))) && named(m2@[2], "command"@) && (m2@[2].1 matches JsonValue::Object(m5) && m5@.len() == 1 && named(m5@[0], "type"@) && (text_is(m5@[0].1, "string"@))) && named(m2@[3], "data"@) && (m2@[3].1 matches JsonValue::Object(m6) && m6@.len() == 1 && named(m6@[0], "type"@) && (text_is(m6@[0].1, "object"@)))) && named(m1@[2], "required"@) && (m1@[2].1 matches JsonValue::Array(m7) && m7@.len() == 4 && (text_is(m7@[0], "ok"@)) && (text_is(m7@[1], "schema_version"@)) && (text_is(m7@[2], "command"@)) && (text_is(m7@[3], "data"@)))
}

fn schema_group_list() -> (r: JsonValue)
    ensures
        schema_group_list_is(r),
{
    let mut v1: Vec<(String, JsonValue)> = Vec::new();
    v1.push(member("type", text_value("object")));
    let mut v2: Vec<(String, JsonValue)> = Vec::new();
    let mut v3: Vec<(String, JsonValue)> = Vec::new();
    v3.push(member("type", text_value("boolean")));
    v2.push(member("ok", JsonValue::Object(v3)));
    let mut v4: Vec<(String, JsonValue)> = Vec::new();
    v4.push(member("type", text_value("string")));
    v2.push(member("schema_version", JsonValue::Object(v4)));
    let mut v5: Vec<(String, JsonValue)> = Vec::new();
    v5.push(member("type", text_value("string")));
    v2.push(member("command", JsonValue::Object(v5)));
    let mut v6: Vec<(String, JsonValue)> = Vec::new();
    v6.push(member("type", text_value("object")));
    v2.push(member("data", JsonValue::Object(v6)));
    v1.push(member("properties", JsonValue::Object(v2)));
    let mut v7: Vec<JsonValue> = Vec::new();
    v7.push(text_value("ok"));
    v7.push(text_value("schema_version"));
    v7.push(text_value("command"));
    v7.push(text_value("data"));
    v1.push(member("required", JsonValue::Array(v7)));
    JsonValue::Object(v1)
}

/// Whether `v` is the schema of `group_create`.
pub open spec fn schema_group_create_is(v: JsonValue) -> bool {
    v matches JsonValue::Object(m1) && m1@.len() == 3 && named(m1@[0], "type"@) && (text_is(m1@[0].1, "object"@)) && named(m1@[1], "properties"@) && (m1@[1].1 matches JsonValue::Object(m2) && m2@.len() == 4 && named(m2@[0], "ok"@) && (m2@[0].1 matches JsonValue::Object(m3) && m3@.len() == 1 && named(m3@[0], "type"@) && (text_is(m3@[0].1, "boolean"@))) && named(m2@[1], "schema_version"@) && (m2@[1].1 matches JsonValue::Object(m4) && m4@.len() == 1 && named(m4@[0], "type"@) && (text_is(m4@[0].1, "string"@))) && named(m2@[2], "command"@) && (m2@[2].1 matches JsonValue::Object(m5) && m5@.len() == 1 && named(m5@[0], "type"@) && (text_is(m5@[0].1, "string"@))) && named(m2@[3], "data"@) && (m2@[3].1 matches JsonValue::Object(m6) && m6@.len() == 1 && named(m6@[0], "type"@) && (text_is(m6@[0].1, "object"@)))) && named(m1@[2], "required"@) && (m1@[2].1 matches JsonValue::Array(m7) && m7@.len() == 4 && (text_is(m7@[0], "ok"@)) && (text_is(m7@[1], "schema_version"@)) && (text_is(m7@[2], "command"@)) && (text_is(m7@[3], "data"@)))
}

fn schema_group_create() -> (r: JsonValue)
    ensures
        schema_group_create_is(r),
{
    let mut v1: Vec<(String, JsonValue)> = Vec::new();
    v1.push(member("type", text_value("object")));
    let mut v2: Vec<(String, JsonValue)> = Vec::new();
    let mut v3: Vec<(String, JsonValue)> = Vec::new();
    v3.push(member("type", text_value("boolean")));
    v2.push(member("ok", JsonValue::Object(v3)));
    let mut v4: Vec<(String, JsonValue)> = Vec::new();
    v4.push(member("type", text_value("string")));
    v2.push(member("schema_version", JsonValue::Object(v4)));
    let mut v5: Vec<(String, JsonValue)> = Vec::new();
    v5.push(member("type", text_value("string")));
    v2.push(member("command", JsonValue::Object(v5)));
    let mut v6: Vec<(String, JsonValue)> = Vec::new();
    v6.push(member("type", text_value("object")));
    v2.push(member("data", JsonValue::Object(v6)));
    v1.push(member("properties", JsonValue::Object(v2)));
    let mut v7: Vec<JsonValue> = Vec::new();
    v7.push(text_value("ok"));
    v7.push(text_value("schema_version"));
    v7.push(text_value("command"));
    v7.push(text_value("data"));
    v1.push(member("required", JsonValue::Array(v7)));
    JsonValue::Object(v1)
}

/// Whether `v` is the schema of `section_list`.
pub open spec fn schema_section_list_is(v: JsonValue) -> bool {
    v matches JsonValue::Object(m1) && m1@.len() == 3 && named(m1@[0], "type"@) && (text_is(m1@[0].1, "object"@)) && named(m1@[1], "properties"@) && (m1@[1].1 matches JsonValue::Object(m2) && m2@.len() == 4 && named(m2@[0], "ok"@) && (m2@[0].1 matches JsonValue::Object(m3) && m3@.len() == 1 && named(m3@[0], "type"@) && (text_is(m3@[0].1, "boolean"@))) && named(m2@[1], "schema_version"@) && (m2@[1].1 matches JsonValue::Object(m4) && m4@.len() == 1 && named(m4@[0], "type"@) && (text_is(m4@[0].1, "string"@))) && named(m2@[2], "command"@) && (m2@[2].1 matches JsonValue::Object(m5) && m5@.len() == 1 && named(m5@[0], "type"@) && (text_is(m5@[0].1, "string"@))) && named(m2@[3], "data"@) && (m2@[3].1 matches JsonValue::Object(m6) && m6@.len() == 1 && named(m6@[0], "type"@) && (text_is(m6@[0].1, "object"@)))) && named(m1@[2], "required"@) && (m1@[2].1 matches JsonValue::Array(m7) && m7@.len() == 4 && (text_is(m7@[0], "ok"@)) && (text_is(m7@[1], "schema_version"@)) && (text_is(m7@[2], "command"@)) && (text_is(m7@[3], "data"@)))
}

fn schema_section_list() -> (r: JsonValue)
    ensures
        schema_section_list_is(r),
{
    let mut v1: Vec<(String, JsonValue)> = Vec::new();
    v1.push(member("type", text_value("object")));
    let mut v2: Vec<(String, JsonValue)> = Vec::new();
    let mut v3: Vec<(String, JsonValue)> = Vec::new();
    v3.push(member("type", text_value("boolean")));
    v2.push(member("ok", JsonValue::Object(v3)));
    let mut v4: Vec<(String, JsonValue)> = Vec::new();
    v4.push(member("type", text_value("string")));
    v2.push(member("schema_version", JsonValue::Object(v4)));
    let mut v5: Vec<(String, JsonValue)> = Vec::new();
    v5.push(member("type", text_value("string")));
    v2.push(member("command", JsonValue::Object(v5)));
    let mut v6: Vec<(String, JsonValue)> = Vec::new();
    v6.push(member("type", text_value("object")));
    v2.push(member("data", JsonValue::Object(v6)));
    v1.push(member("properties", JsonValue::Object(v2)));
    let mut v7: Vec<JsonValue> = Vec::new();
    v7.push(text_value("ok"));
    v7.push(text_value("schema_version"));
    v7.push(text_value("command"));
    v7.push(text_value("data"));
    v1.push(member("required", JsonValue::Array(v7)));
    JsonValue::Object(v1)
}

/// Whether `v` is the schema of `section_create`.
pub open spec fn schema_section_create_is(v: JsonValue) -> bool {
    v matches JsonValue::Object(m1) && m1@.len() == 3 && named(m1@[0], "type"@) && (text_is(m1@[0].1, "object"@)) && named(m1@[1], "properties"@) && (m1@[1].1 matches JsonValue::Object(m2) && m2@.len() == 4 && named(m2@[0], "ok"@) && (m2@[0].1 matches JsonValue::Object(m3) && m3@.len() == 1 && named(m3@[0], "type"@) && (text_is(m3@[0].1, "boolean"@))) && named(m2@[1], "schema_version"@) && (m2@[1].1 matches JsonValue::Object(m4) && m4@.len() == 1 && named(m4@[0], "type"@) && (text_is(m4@[0].1, "string"@))) && named(m2@[2], "command"@) && (m2@[2].1 matches JsonValue::Object(m5) && m5@.len() == 1 && named(m5@[0], "type"@) && (text_is(m5@[0].1, "string"@))) && named(m2@[3], "data"@) && (m2@[3].1 matches JsonValue::Object(m6) && m6@.len() == 1 && named(m6@[0], "type"@) && (text_is(m6@[0].1, "object"@)))) && named(m1@[2], "required"@) && (m1@[2].1 matches JsonValue::Array(m7) && m7@.len() == 4 && (text_is(m7@[0], "ok"@)) && (text_is(m7@[1], "schema_version"@)) && (text_is(m7@[2], "command"@)) && (text_is(m7@[3], "data"@)))
}

fn schema_section_create() -> (r: JsonValue)
    ensures
        schema_section_create_is(r),
{
    let mut v1: Vec<(String, JsonValue)> = Vec::new();
    v1.push(member("type", text_value("object")));
    let mut v2: Vec<(String, JsonValue)> = Vec::new();
    let mut v3: Vec<(String, JsonValue)> = Vec::new();
    v3.push(member("type", text_value("boolean")));
    v2.push(member("ok", JsonValue::Object(v3)));
    let mut v4: Vec<(String, JsonValue)> = Vec::new();
    v4.push(member("type", text_value("string")));
    v2.push(member("schema_version", JsonValue::Object(v4)));
    let mut v5: Vec<(String, JsonValue)> = Vec::new();
    v5.push(member("type", text_value("string")));
    v2.push(member("command", JsonValue::Object(v5)));
    let mut v6: Vec<(String, JsonValue)> = Vec::new();
    v6.push(member("type", text_value("object")));
    v2.push(member("data", JsonValue::Object(v6)));
    v1.push(member("properties", JsonValue::Object(v2)));
    let mut v7: Vec<JsonValue> = Vec::new();
    v7.push(text_value("ok"));
    v7.push(text_value("schema_version"));
    v7.push(text_value("command"));
    v7.push(text_value("data"));
    v1.push(member("required", JsonValue::Array(v7)));
    JsonValue::Object(v1)
}

/// Whether `v` is the schema of `section_update`.
pub open spec fn schema_section_update_is(v: JsonValue) -> bool {
    v matches JsonValue::Object(m1) && m1@.len() == 3 && named(m1@[0], "type"@) && (text_is(m1@[0].1, "object"@)) && named(m1@[1], "properties"@) && (m1@[1].1 matches JsonValue::Object(m2) && m2@.len() == 4 && named(m2@[0], "ok"@) && (m2@[0].1 matches JsonValue::Object(m3) && m3@.len() == 1 && named(m3@[0], "type"@) && (text_is(m3@[0].1, "boolean"@))) && named(m2@[1], "schema_version"@) && (m2@[1].1 matches JsonValue::Object(m4) && m4@.len() == 1 && named(m4@[0], "type"@) && (text_is(m4@[0].1, "string"@))) && named(m2@[2], "command"@) && (m2@[2].1 matches JsonValue::Object(m5) && m5@.len() == 1 && named(m5@[0], "type"@) && (text_is(m5@[0].1, "string"@))) && named(m2@[3], "data"@) && (m2@[3].1 matches JsonValue::Object(m6) && m6@.len() == 1 && named(m6@[0], "type"@) && (text_is(m6@[0].1, "object"@)))) && named(m1@[2], "required"@) && (m1@[2].1 matches JsonValue::Array(m7) && m7@.len() == 4 && (text_is(m7@[0], "ok"@)) && (text_is(m7@[1], "schema_version"@)) && (text_is(m7@[2], "command"@)) && (text_is(m7@[3], "data"@)))
}

fn schema_section_update() -> (r: JsonValue)
    ensures
        schema_section_update_is(r),
{
    let mut v1: Vec<(String, JsonValue)> = Vec::new();
    v1.push(member("type", text_value("object")));
    let mut v2: Vec<(String, JsonValue)> = Vec::new();
    let mut v3: Vec<(String, JsonValue)> = Vec::new();
    v3.push(member("type", text_value("boolean")));
    v2.push(member("ok", JsonValue::Object(v3)));
    let mut v4: Vec<(String, JsonValue)> = Vec::new();
    v4.push(member("type", text_value("string")));
    v2.push(member("schema_version", JsonValue::Object(v4)));
    let mut v5: Vec<(String, JsonValue)> = Vec::new();
    v5.push(member("type", text_value("string")));
    v2.push(member("command", JsonValue::Object(v5)));
    let mut v6: Vec<(String, JsonValue)> = Vec::new();
    v6.push(member("type", text_value("object")));
    v2.push(member("data", JsonValue::Object(v6)));
    v1.push(member("properties", JsonValue::Object(v2)));
    let mut v7: Vec<JsonValue> = Vec::new();
    v7.push(text_value("ok"));
    v7.push(text_value("schema_version"));
    v7.push(text_value("command"));
    v7.push(text_value("data"));
    v1.push(member("required", JsonValue::Array(v7)));
    JsonValue::Object(v1)
}

/// Whether `v` is the schema of `section_delete`.
pub open spec fn schema_section_delete_is(v: JsonValue) -> bool {
    v matches JsonValue::Object(m1) && m1@.len() == 3 && named(m1@[0], "type"@) && (text_is(m1@[0].1, "object"@)) && named(m1@[1], "properties"@) && (m1@[1].1 matches JsonValue::Object(m2) && m2@.len() == 4 && named(m2@[0], "ok"@) && (m2@[0].1 matches JsonValue::Object(m3) && m3@.len() == 1 && named(m3@[0], "type"@) && (text_is(m3@[0].1, "boolean"@))) && named(m2@[1], "schema_version"@) && (m2@[1].1 matches JsonValue::Object(m4) && m4@.len() == 1 && named(m4@[0], "type"@) && (text_is(m4@[0].1, "string"@))) && named(m2@[2], "command"@) && (m2@[2].1 matches JsonValue::Object(m5) && m5@.len() == 1 && named(m5@[0], "type"@) && (text_is(m5@[0].1, "string"@))) && named(m2@[3], "data"@) && (m2@[3].1 matches JsonValue::Object(m6) && m6@.len() == 1 && named(m6@[0], "type"@) && (text_is(m6@[0].1, "object"@)))) && named(m1@[2], "required"@) && (m1@[2].1 matches JsonValue::Array(m7) && m7@.len() == 4 && (text_is(m7@[0], "ok"@)) && (text_is(m7@[1], "schema_version"@)) && (text_is(m7@[2], "command"@)) && (text_is(m7@[3], "data"@)))
}

fn schema_section_delete() -> (r: JsonValue)
    ensures
        schema_section_delete_is(r),
{
    let mut v1: Vec<(String, JsonValue)> = Vec::new();
    v1.push(member("type", text_value("object")));
    let mut v2: Vec<(String, JsonValue)> = Vec::new();
    let mut v3: Vec<(String, JsonValue)> = Vec::new();
    v3.push(member("type", text_value("boolean")));
    v2.push(member("ok", JsonValue::Object(v3)));
    let mut v4: Vec<(String, JsonValue)> = Vec::new();
    v4.push(member("type", text_value("string")));
    v2.push(member("schema_version", JsonValue::Object(v4)));
    let mut v5: Vec<(String, JsonValue)> = Vec::new();
    v5.push(member("type", text_value("string")));
    v2.push(member("command", JsonValue::Object(v5)));
    let mut v6: Vec<(String, JsonValue)> = Vec::new();
    v6.push(member("type", text_value("object")));
    v2.push(member("data", JsonValue::Object(v6)));
    v1.push(member("properties", JsonValue::Object(v2)));
    let mut v7: Vec<JsonValue> = Vec::new();
    v7.push(text_value("ok"));
    v7.push(text_value("schema_version"));
    v7.push(text_value("command"));
    v7.push(text_value("data"));
    v1.push(member("required", JsonValue::Array(v7)));
    JsonValue::Object(v1)
}

/// Whether `v` is the schema of `enrollment_list`.
pub open spec fn schema_enrollment_list_is(v: JsonValue) -> bool {
    v matches JsonValue::Object(m1) && m1@.len() == 3 && named(m1@[0], "type"@) && (text_is(m1@[0].1, "object"@)) && named(m1@[1], "properties"@) && (m1@[1].1 matches JsonValue::Object(m2) && m2@.len() == 4 && named(m2@[0], "ok"@) && (m2@[0].1 matches JsonValue::Object(m3) && m3@.len() == 1 && named(m3@[0], "type"@) && (text_is(m3@[0].1, "boolean"@))) && named(m2@[1], "schema_version"@) && (m2@[1].1 matches JsonValue::Object(m4) && m4@.len() == 1 && named(m4@[0], "type"@) && (text_is(m4@[0].1, "string"@))) && named(m2@[2], "command"@) && (m2@[2].1 matches JsonValue::Object(m5) && m5@.len() == 1 && named(m5@[0], "type"@) && (text_is(m5@[0].1, "string"@))) && named(m2@[3], "data"@) && (m2@[3].1 matches JsonValue::Object(m6) && m6@.len() == 1 && named(m6@[0], "type"@) && (text_is(m6@[0].1, "object"@)))) && named(m1@[2], "required"@) && (m1@[2].1 matches JsonValue::Array(m7) && m7@.len() == 4 && (text_is(m7@[0], "ok"@)) && (text_is(m7@[1], "schema_version"@)) && (text_is(m7@[2], "command"@)) && (text_is(m7@[3], "data"@)))
}

fn schema_enrollment_list() -> (r: JsonValue)
    ensures
        schema_enrollment_list_is(r),
{
    let mut v1: Vec<(String, JsonValue)> = Vec::new();
    v1.push(member("type", text_value("object")));
    let mut v2: Vec<(String, JsonValue)> = Vec::new();
    let mut v3: Vec<(String, JsonValue)> = Vec::new();
    v3.push(member("type", text_value("boolean")));
    v2.push(member("ok", JsonValue::Object(v3)));
    let mut v4: Vec<(String, JsonValue)> = Vec::new();
    v4.push(member("type", text_value("string")));
    v2.push(member("schema_version", JsonValue::Object(v4)));
    let mut v5: Vec<(String, JsonValue)> = Vec::new();
    v5.push(member("type", text_value("string")));
    v2.push(member("command", JsonValue::Object(v5)));
    let mut v6: Vec<(String, JsonValue)> = Vec::new();
    v6.push(member("type", text_value("object")));
    v2.push(member("data", JsonValue::Object(v6)));
    v1.push(member("properties", JsonValue::Object(v2)));
    let mut v7: Vec<JsonValue> = Vec::new();
    v7.push(text_value("ok"));
    v7.push(text_value("schema_version"));
    v7.push(text_value("command"));
    v7.push(text_value("data"));
    v1.push(member("required", JsonValue::Array(v7)));
    JsonValue::Object(v1)
}

/// Whether `v` is the schema of `enrollment_add`.
pub open spec fn schema_enrollment_add_is(v: JsonValue) -> bool {
    v matches JsonValue::Object(m1) && m1@.len() == 3 && named(m1@[0], "type"@) && (text_is(m1@[0].1, "object"@)) && named(m1@[1], "properties"@) && (m1@[1].1 matches JsonValue::Object(m2) && m2@.len() == 4 && named(m2@[0], "ok"@) && (m2@[0].1 matches JsonValue::Object(m3) && m3@.len() == 1 && named(m3@[0], "type"@) && (text_is(m3@[0].1, "boolean"@))) && named(m2@[1], "schema_version"@) && (m2@[1].1 matches JsonValue::Object(m4) && m4@.len() == 1 && named(m4@[0], "type"@) && (text_is(m4@[0].1, "string"@))) && named(m2@[2], "command"@) && (m2@[2].1 matches JsonValue::Object(m5) && m5@.len() == 1 && named(m5@[0], "type"@) && (text_is(m5@[0].1, "string"@))) && named(m2@[3], "data"@) && (m2@[3].1 matches JsonValue::Object(m6) && m6@.len() == 1 && named(m6@[0], "type"@) && (text_is(m6@[0].1, "object"@)))) && named(m1@[2], "required"@) && (m1@[2].1 matches JsonValue::Array(m7) && m7@.len() == 4 && (text_is(m7@[0], "ok"@)) && (text_is(m7@[1], "schema_version"@)) && (text_is(m7@[2], "command"@)) && (text_is(m7@[3], "data"@)))
}

fn schema_enrollment_add() -> (r: JsonValue)
    ensures
        schema_enrollment_add_is(r),
{
    let mut v1: Vec<(String, JsonValue)> = Vec::new();
    v1.push(member("type", text_value("object")));
    let mut v2: Vec<(String, JsonValue)> = Vec::new();
    let mut v3: Vec<(String, JsonValue)> = Vec::new();
    v3.push(member("type", text_value("boolean")));
    v2.push(member("ok", JsonValue::Object(v3)));
    let mut v4: Vec<(String, JsonValue)> = Vec::new();
    v4.push(member("type", text_value("string")));
    v2.push(member("schema_version", JsonValue::Object(v4)));
    let mut v5: Vec<(String, JsonValue)> = Vec::new();
    v5.push(member("type", text_value("string")));
    v2.push(member("command", JsonValue::Object(v5)));
    let mut v6: Vec<(String, JsonValue)> = Vec::new();
    v6.push(member("type", text_value("object")));
    v2.push(member("data", JsonValue::Object(v6)));
    v1.push(member("properties", JsonValue::Object(v2)));
    let mut v7: Vec<JsonValue> = Vec::new();
    v7.push(text_value("ok"));
    v7.push(text_value("schema_version"));
    v7.push(text_value("command"));
    v7.push(text_value("data"));
    v1.push(member("required", JsonValue::Array(v7)));
    JsonValue::Object(v1)
}

/// Whether `v` is the schema of `enrollment_remove`.
pub open spec fn schema_enrollment_remove_is(v: JsonValue) -> bool {
    v matches JsonValue::Object(m1) && m1@.len() == 3 && named(m1@[0], "type"@) && (text_is(m1@[0].1, "object"@)) && named(m1@[1], "properties"@) && (m1@[1].1 matches JsonValue::Object(m2) && m2@.len() == 4 && named(m2@[0], "ok"@) && (m2@[0].1 matches JsonValue::Object(m3) && m3@.len() == 1 && named(m3@[0], "type"@) && (text_is(m3@[0].1, "boolean"@))) && named(m2@[1], "schema_version"@) && (m2@[1].1 matches JsonValue::Object(m4) && m4@.len() == 1 && named(m4@[0], "type"@) && (text_is(m4@[0].1, "string"@))) && named(m2@[2], "command"@) && (m2@[2].1 matches JsonValue::Object(m5) && m5@.len() == 1 && named(m5@[0], "type"@) && (text_is(m5@[0].1, "string"@))) && named(m2@[3], "data"@) && (m2@[3].1 matches JsonValue::Object(m6) && m6@.len() == 1 && named(m6@[0], "type"@) && (text_is(m6@[0].1, "object"@)))) && named(m1@[2], "required"@) && (m1@[2].1 matches JsonValue::Array(m7) && m7@.len() == 4 && (text_is(m7@[0], "ok"@)) && (text_is(m7@[1], "schema_version"@)) && (text_is(m7@[2], "command"@)) && (text_is(m7@[3], "data"@)))
}

fn schema_enrollment_remove() -> (r: JsonValue)
    ensures
        schema_enrollment_remove_is(r),
{
    let mut v1: Vec<(String, JsonValue)> = Vec::new();
    v1.push(member("type", text_value("object")));
    let mut v2: Vec<(String, JsonValue)> = Vec::new();
    let mut v3: Vec<(String, JsonValue)> = Vec::new();
    v3.push(member("type", text_value("boolean")));
    v2.push(member("ok", JsonValue::Object(v3)));
    let mut v4: Vec<(String, JsonValue)> = Vec::new();
    v4.push(member("type", text_value("string")));
    v2.push(member("schema_version", JsonValue::Object(v4)));
    let mut v5: Vec<(String, JsonValue)> = Vec::new();
    v5.push(member("type", text_value("string")));
    v2.push(member("command", JsonValue::Object(v5)));
    let mut v6: Vec<(String, JsonValue)> = Vec::new();
    v6.push(member("type", text_value("object")));
    v2.push(member("data", JsonValue::Object(v6)));
    v1.push(member("properties", JsonValue::Object(v2)));
    let mut v7: Vec<JsonValue> = Vec::new();
    v7.push(text_value("ok"));
    v7.push(text_value("schema_version"));
    v7.push(text_value("command"));
    v7.push(text_value("data"));
    v1.push(member("required", JsonValue::Array(v7)));
    JsonValue::Object(v1)
}

/// Whether `v` is the schema of `report_export`.
pub open spec fn schema_report_export_is(v: JsonValue) -> bool {
    v matches JsonValue::Object(m1) && m1@.len() == 3 && named(m1@[0], "type"@) && (text_is(m1@[0].1, "object"@)) && named(m1@[1], "properties"@) && (m1@[1].1 matches JsonValue::Object(m2) && m2@.len() == 4 && named(m2@[0], "ok"@) && (m2@[0].1 matches JsonValue::Object(m3) && m3@.len() == 1 && named(m3@[0], "type"@) && (text_is(m3@[0].1, "boolean"@))) && named(m2@[1], "schema_version"@) && (m2@[1].1 matches JsonValue::Object(m4) && m4@.len() == 1 && named(m4@[0], "type"@) && (text_is(m4@[0].1, "string"@))) && named(m2@[2], "command"@) && (m2@[2].1 matches JsonValue::Object(m5) && m5@.len() == 1 && named(m5@[0], "type"@) && (text_is(m5@[0].1, "string"@))) && named(m2@[3], "data"@) && (m2@[3].1 matches JsonValue::Object(m6) && m6@.len() == 1 && named(m6@[0], "type"@) && (text_is(m6@[0].1, "object"@)))) && named(m1@[2], "required"@) && (m1@[2].1 matches JsonValue::Array(m7) && m7@.len() == 4 && (text_is(m7@[0], "ok"@)) && (text_is(m7@[1], "schema_version"@)) && (text_is(m7@[2], "command"@)) && (text_is(m7@[3], "data"@)))
}

fn schema_report_export() -> (r: JsonValue)
    ensures
        schema_report_export_is(r),
{
    let mut v1: Vec<(String, JsonValue)> = Vec::new();
    v1.push(member("type", text_value("object")));
    let mut v2: Vec<(String, JsonValue)> = Vec::new();
    let mut v3: Vec<(String, JsonValue)> = Vec::new();
    v3.push(member("type", text_value("boolean")));
    v2.push(member("ok", JsonValue::Object(v3)));
    let mut v4: Vec<(String, JsonValue)> = Vec::new();
    v4.push(member("type", text_value("string")));
    v2.push(member("schema_version", JsonValue::Object(v4)));
    let mut v5: Vec<(String, JsonValue)> = Vec::new();
    v5.push(member("type", text_value("string")));
    v2.push(member("command", JsonValue::Object(v5)));
    let mut v6: Vec<(String, JsonValue)> = Vec::new();
    v6.push(member("type", text_value("object")));
    v2.push(member("data", JsonValue::Object(v6)));
    v1.push(member("properties", JsonValue::Object(v2)));
    let mut v7: Vec<JsonValue> = Vec::new();
    v7.push(text_value("ok"));
    v7.push(text_value("schema_version"));
    v7.push(text_value("command"));
    v7.push(text_value("data"));
    v1.push(member("required", JsonValue::Array(v7)));
    JsonValue::Object(v1)
}

/// Whether `v` is the schema of `gradebook_grading_period_list`.
pub open spec fn schema_gradebook_grading_period_list_is(v: JsonValue) -> bool {
    v matches JsonValue::Object(m1) && m1@.len() == 3 && named(m1@[0], "type"@) && (text_is(m1@[0].1, "object"@)) && named(m1@[1], "properties"@) && (m1@[1].1 matches JsonValue::Object(m2) && m2@.len() == 4 && named(m2@[0], "ok"@) && (m2@[0].1 matches JsonValue::Object(m3) && m3@.len() == 1 && named(m3@[0], "type"@) && (text_is(m3@[0].1, "boolean"@))) && named(m2@[1], "schema_version"@) && (m2@[1].1 matches JsonValue::Object(m4) && m4@.len() == 1 && named(m4@[0], "type"@) && (text_is(m4@[0].1, "string"@))) && named(m2@[2], "command"@) && (m2@[2].1 matches JsonValue::Object(m5) && m5@.len() == 1 && named(m5@[0], "type"@) && (text_is(m5@[0].1, "string"@))) && named(m2@[3], "data"@) && (m2@[3].1 matches JsonValue::Object(m6) && m6@.len() == 1 && named(m6@[0], "type"@) && (text_is(m6@[0].1, "object"@)))) && named(m1@[2], "required"@) && (m1@[2].1 matches JsonValue::Array(m7) && m7@.len() == 4 && (text_is(m7@[0], "ok"@)) && (text_is(m7@[1], "schema_version"@)) && (text_is(m7@[2], "command"@)) && (text_is(m7@[3], "data"@)))
}

fn schema_gradebook_grading_period_list() -> (r: JsonValue)
    ensures
        schema_gradebook_grading_period_list_is(r),
{
    let mut v1: Vec<(String, JsonValue)> = Vec::new();
    v1.push(member("type", text_value("object")));
    let mut v2: Vec<(String, JsonValue)> = Vec::new();
    let mut v3: Vec<(String, JsonValue)> = Vec::new();
    v3.push(member("type", text_value("boolean")));
    v2.push(member("ok", JsonValue::Object(v3)));
    let mut v4: Vec<(String, JsonValue)> = Vec::new();
    v4.push(member("type", text_value("string")));
    v2.push(member("schema_version", JsonValue::Object(v4)));
    let mut v5: Vec<(String, JsonValue)> = Vec::new();
    v5.push(member("type", text_value("string")));
    v2.push(member("command", JsonValue::Object(v5)));
    let mut v6: Vec<(String, JsonValue)> = Vec::new();
    v6.push(member("type", text_value("object")));
    v2.push(member("data", JsonValue::Object(v6)));
    v1.push(member("properties", JsonValue::Object(v2)));
    let mut v7: Vec<JsonValue> = Vec::new();
    v7.push(text_value("ok"));
    v7.push(text_value("schema_version"));
    v7.push(text_value("command"));
    v7.push(text_value("data"));
    v1.push(member("required", JsonValue::Array(v7)));
    JsonValue::Object(v1)
}

/// Whether `v` is the schema of `gradebook_grading_period_show`.
pub open spec fn schema_gradebook_grading_period_show_is(v: JsonValue) -> bool {
    v matches JsonValue::Object(m1) && m1@.len() == 3 && named(m1@[0], "type"@) && (text_is(m1@[0].1, "object"@)) && named(m1@[1], "properties"@) && (m1@[1].1 matches JsonValue::Object(m2) && m2@.len() == 4 && named(m2@[0], "ok"@) && (m2@[0].1 matches JsonValue::Object(m3) && m3@.len() == 1 && named(m3@[0], "type"@) && (text_is(m3@[0].1, "boolean"@))) && named(m2@[1], "schema_version"@) && (m2@[1].1 matches JsonValue::Object(m4) && m4@.len() == 1 && named(m4@[0], "type"@) && (text_is(m4@[0].1, "string"@))) && named(m2@[2], "command"@) && (m2@[2].1 matches JsonValue::Object(m5) && m5@.len() == 1 && named(m5@[0], "type"@) && (text_is(m5@[0].1, "string"@))) && named(m2@[3], "data"@) && (m2@[3].1 matches JsonValue::Object(m6) && m6@.len() == 1 && named(m6@[0], "type"@) && (text_is(m6@[0].1, "object"@)))) && named(m1@[2], "required"@) && (m1@[2].1 matches JsonValue::Array(m7) && m7@.len() == 4 && (text_is(m7@[0], "ok"@)) && (text_is(m7@[1], "schema_version"@)) && (text_is(m7@[2], "command"@)) && (text_is(m7@[3], "data"@)))
}

fn schema_gradebook_grading_period_show() -> (r: JsonValue)
    ensures
        schema_gradebook_grading_period_show_is(r),
{
    let mut v1: Vec<(String, JsonValue)> = Vec::new();
    v1.push(member("type", text_value("object")));
    let mut v2: Vec<(String, JsonValue)> = Vec::new();
    let mut v3: Vec<(String, JsonValue)> = Vec::new();
    v3.push(member("type", text_value("boolean")));
    v2.push(member("ok", JsonValue::Object(v3)));
    let mut v4: Vec<(String, JsonValue)> = Vec::new();
    v4.push(member("type", text_value("string")));
    v2.push(member("schema_version", JsonValue::Object(v4)));
    let mut v5: Vec<(String, JsonValue)> = Vec::new();
    v5.push(member("type", text_value("string")));
    v2.push(member("command", JsonValue::Object(v5)));
    let mut v6: Vec<(String, JsonValue)> = Vec::new();
    v6.push(member("type", text_value("object")));
    v2.push(member("data", JsonValue::Object(v6)));
    v1.push(member("properties", JsonValue::Object(v2)));
    let mut v7: Vec<JsonValue> = Vec::new();
    v7.push(text_value("ok"));
    v7.push(text_value("schema_version"));
    v7.push(text_value("command"));
    v7.push(text_value("data"));
    v1.push(member("required", JsonValue::Array(v7)));
    JsonValue::Object(v1)
}

/// Whether `v` is the schema of `gradebook_posting_policy_get`.
pub open spec fn schema_gradebook_posting_policy_get_is(v: JsonValue) -> bool {
    v matches JsonValue::Object(m1) && m1@.len() == 3 && named(m1@[0], "type"@) && (text_is(m1@[0].1, "object"@)) && named(m1@[1], "properties"@) && (m1@[1].1 matches JsonValue::Object(m2) && m2@.len() == 4 && named(m2@[0], "ok"@) && (m2@[0].1 matches JsonValue::Object(m3) && m3@.len() == 1 && named(m3@[0], "type"@) && (text_is(m3@[0].1, "boolean"@))) && named(m2@[1], "schema_version"@) && (m2@[1].1 matches JsonValue::Object(m4) && m4@.len() == 1 && named(m4@[0], "type"@) && (text_is(m4@[0].1, "string"@))) && named(m2@[2], "command"@) && (m2@[2].1 matches JsonValue::Object(m5) && m5@.len() == 1 && named(m5@[0], "type"@) && (text_is(m5@[0].1, "string"@))) && named(m2@[3], "data"@) && (m2@[3].1 matches JsonValue::Object(m6) && m6@.len() == 1 && named(m6@[0], "type"@) && (text_is(m6@[0].1, "object"@)))) && named(m1@[2], "required"@) && (m1@[2].1 matches JsonValue::Array(m7) && m7@.len() == 4 && (text_is(m7@[0], "ok"@)) && (text_is(m7@[1], "schema_version"@)) && (text_is(m7@[2], "command"@)) && (text_is(m7@[3], "data"@)))
}

fn schema_gradebook_posting_policy_get() -> (r: JsonValue)
    ensures
        schema_gradebook_posting_policy_get_is(r),
{
    let mut v1: Vec<(String, JsonValue)> = Vec::new();
    v1.push(member("type", text_value("object")));
    let mut v2: Vec<(String, JsonValue)> = Vec::new();
    let mut v3: Vec<(String, JsonValue)> = Vec::new();
    v3.push(member("type", text_value("boolean")));
    v2.push(member("ok", JsonValue::Object(v3)));
    let mut v4: Vec<(String, JsonValue)> = Vec::new();
    v4.push(member("type", text_value("string")));
    v2.push(member("schema_version", JsonValue::Object(v4)));
    let mut v5: Vec<(String, JsonValue)> = Vec::new();
    v5.push(member("type", text_value("string")));
    v2.push(member("command", JsonValue::Object(v5)));
    let mut v6: Vec<(String, JsonValue)> = Vec::new();
    v6.push(member("type", text_value("object")));
    v2.push(member("data", JsonValue::Object(v6)));
    v1.push(member("properties", JsonValue::Object(v2)));
    let mut v7: Vec<JsonValue> = Vec::new();
    v7.push(text_value("ok"));
    v7.push(text_value("schema_version"));
    v7.push(text_value("command"));
    v7.push(text_value("data"));
    v1.push(member("required", JsonValue::Array(v7)));
    JsonValue::Object(v1)
}

/// Whether `v` is the schema of `gradebook_posting_policy_set`.
pub open spec fn schema_gradebook_posting_policy_set_is(v: JsonValue) -> bool {
    v matches JsonValue::Object(m1) && m1@.len() == 3 && named(m1@[0], "type"@) && (text_is(m1@[0].1, "object"@)) && named(m1@[1], "properties"@) && (m1@[1].1 matches JsonValue::Object(m2) && m2@.len() == 4 && named(m2@[0], "ok"@) && (m2@[0].1 matches JsonValue::Object(m3) && m3@.len() == 1 && named(m3@[0], "type"@) && (text_is(m3@[0].1, "boolean"@))) && named(m2@[1], "schema_version"@) && (m2@[1].1 matches JsonValue::Object(m4) && m4@.len() == 1 && named(m4@[0], "type"@) && (text_is(m4@[0].1, "string"@))) && named(m2@[2], "command"@) && (m2@[2].1 matches JsonValue::Object(m5) && m5@.len() == 1 && named(m5@[0], "type"@) && (text_is(m5@[0].1, "string"@))) && named(m2@[3], "data"@) && (m2@[3].1 matches JsonValue::Object(m6) && m6@.len() == 1 && named(m6@[0], "type"@) && (text_is(m6@[0].1, "object"@)))) && named(m1@[2], "required"@) && (m1@[2].1 matches JsonValue::Array(m7) && m7@.len() == 4 && (text_is(m7@[0], "ok"@)) && (text_is(m7@[1], "schema_version"@)) && (text_is(m7@[2], "command"@)) && (text_is(m7@[3], "data"@)))
}

fn schema_gradebook_posting_policy_set() -> (r: JsonValue)
    ensures
        schema_gradebook_posting_policy_set_is(r),
{
    let mut v1: Vec<(String, JsonValue)> = Vec::new();
    v1.push(member("type", text_value("object")));
    let mut v2: Vec<(String, JsonValue)> = Vec::new();
    let mut v3: Vec<(String, JsonValue)> = Vec::new();
    v3.push(member("type", text_value("boolean")));
    v2.push(member("ok", JsonValue::Object(v3)));
    let mut v4: Vec<(String, JsonValue)> = Vec::new();
    v4.push(member("type", text_value("string")));
    v2.push(member("schema_version", JsonValue::Object(v4)));
    let mut v5: Vec<(String, JsonValue)> = Vec::new();
    v5.push(member("type", text_value("string")));
    v2.push(member("command", JsonValue::Object(v5)));
    let mut v6: Vec<(String, JsonValue)> = Vec::new();
    v6.push(member("type", text_value("object")));
    v2.push(member("data", JsonValue::Object(v6)));
    v1.push(member("properties", JsonValue::Object(v2)));
    let mut v7: Vec<JsonValue> = Vec::new();
    v7.push(text_value("ok"));
    v7.push(text_value("schema_version"));
    v7.push(text_value("command"));
    v7.push(text_value("data"));
    v1.push(member("required", JsonValue::Array(v7)));
    JsonValue::Object(v1)
}

/// Whether `v` is the schema of `course_activity_summary`.
pub open spec fn schema_course_activity_summary_is(v: JsonValue) -> bool {
    v matches JsonValue::Object(m1) && m1@.len() == 3 && named(m1@[0], "type"@) && (text_is(m1@[0].1, "object"@)) && named(m1@[1], "properties"@) && (m1@[1].1 matches JsonValue::Object(m2) && m2@.len() == 4 && named(m2@[0], "ok"@) && (m2@[0].1 matches JsonValue::Object(m3) && m3@.len() == 1 && named(m3@[0], "type"@) && (text_is(m3@[0].1, "boolean"@))) && named(m2@[1], "schema_version"@) && (m2@[1].1 matches JsonValue::Object(m4) && m4@.len() == 1 && named(m4@[0], "type"@) && (text_is(m4@[0].1, "string"@))) && named(m2@[2], "command"@) && (m2@[2].1 matches JsonValue::Object(m5) && m5@.len() == 1 && named(m5@[0], "type"@) && (text_is(m5@[0].1, "string"@))) && named(m2@[3], "data"@) && (m2@[3].1 matches JsonValue::Object(m6) && m6@.len() == 1 && named(m6@[0], "type"@) && (text_is(m6@[0].1, "object"@)))) && named(m1@[2], "required"@) && (m1@[2].1 matches JsonValue::Array(m7) && m7@.len() == 4 && (text_is(m7@[0], "ok"@)) && (text_is(m7@[1], "schema_version"@)) && (text_is(m7@[2], "command"@)) && (text_is(m7@[3], "data"@)))
}

fn schema_course_activity_summary() -> (r: JsonValue)
    ensures
        schema_course_activity_summary_is(r),
{
    let mut v1: Vec<(String, JsonValue)> = Vec::new();
    v1.push(member("type", text_value("object")));
    let mut v2: Vec<(String, JsonValue)> = Vec::new();
    let mut v3: Vec<(String, JsonValue)> = Vec::new();
    v3.push(member("type", text_value("boolean")));
    v2.push(member("ok", JsonValue::Object(v3)));
    let mut v4: Vec<(String, JsonValue)> = Vec::new();
    v4.push(member("type", text_value("string")));
    v2.push(member("schema_version", JsonValue::Object(v4)));
    let mut v5: Vec<(String, JsonValue)> = Vec::new();
    v5.push(member("type", text_value("string")));
    v2.push(member("command", JsonValue::Object(v5)));
    let mut v6: Vec<(String, JsonValue)> = Vec::new();
    v6.push(member("type", text_value("object")));
    v2.push(member("data", JsonValue::Object(v6)));
    v1.push(member("properties", JsonValue::Object(v2)));
    let mut v7: Vec<JsonValue> = Vec::new();
    v7.push(text_value("ok"));
    v7.push(text_value("schema_version"));
    v7.push(text_value("command"));
    v7.push(text_value("data"));
    v1.push(member("required", JsonValue::Array(v7)));
    JsonValue::Object(v1)
}

/// Whether `v` is the schema of `error`.
pub open spec fn schema_error_is(v: JsonValue) -> bool {
    v matches JsonValue::Object(m1) && m1@.len() == 3 && named(m1@[0], "type"@) && (text_is(m1@[0].1, "object"@)) && named(m1@[1], "properties"@) && (m1@[1].1 matches JsonValue::Object(m2) && m2@.len() == 4 && named(m2@[0], "ok"@) && (m2@[0].1 matches JsonValue::Object(m3) && m3@.len() == 1 && named(m3@[0], "type"@) && (text_is(m3@[0].1, "boolean"@))) && named(m2@[1], "schema_version"@) && (m2@[1].1 matches JsonValue::Object(m4) && m4@.len() == 1 && named(m4@[0], "type"@) && (text_is(m4@[0].1, "string"@))) && named(m2@[2], "command"@) && (m2@[2].1 matches JsonValue::Object(m5) && m5@.len() == 1 && named(m5@[0], "type"@) && (text_is(m5@[0].1, "string"@))) && named(m2@[3], "error"@) && (m2@[3].1 matches JsonValue::Object(m6) && m6@.len() == 3 && named(m6@[0], "type"@) && (text_is(m6@[0].1, "object"@)) && named(m6@[1], "properties"@) && (m6@[1].1 matches JsonValue::Object(m7) && m7@.len() == 3 && named(m7@[0], "code"@) && (m7@[0].1 matches JsonValue::Object(m8) && m8@.len() == 1 && named(m8@[0], "type"@) && (text_is(m8@[0].1, "string"@))) && named(m7@[1], "message"@) && (m7@[1].1 matches JsonValue::Object(m9) && m9@.len() == 1 && named(m9@[0], "type"@) && (text_is(m9@[0].1, "string"@))) && named(m7@[2], "details"@) && (m7@[2].1 matches JsonValue::Object(m10) && m10@.len() == 1 && named(m10@[0], "type"@) && (text_is(m10@[0].1, "object"@)))) && named(m6@[2], "required"@) && (m6@[2].1 matches JsonValue::Array(m11) && m11@.len() == 3 && (text_is(m11@[0], "code"@)) && (text_is(m11@[1], "message"@)) && (text_is(m11@[2], "details"@))))) && named(m1@[2], "required"@) && (m1@[2].1 matches JsonValue::Array(m12) && m12@.len() == 4 && (text_is(m12@[0], "ok"@)) && (text_is(m12@[1], "schema_version"@)) && (text_is(m12@[2], "command"@)) && (text_is(m12@[3], "error"@)))
}

fn schema_error() -> (r: JsonValue)
    ensures
        schema_error_is(r),
{
    let mut v1: Vec<(String, JsonValue)> = Vec::new();
    v1.push(member("type", text_value("object")));
    let mut v2: Vec<(String, JsonValue)> = Vec::new();
    let mut v3: Vec<(String, JsonValue)> = Vec::new();
    v3.push(member("type", text_value("boolean")));
    v2.push(member("ok", JsonValue::Object(v3)));
    let mut v4: Vec<(String, JsonValue)> = Vec::new();
    v4.push(member("type", text_value("string")));
    v2.push(member("schema_version", JsonValue::Object(v4)));
    let mut v5: Vec<(String, JsonValue)> = Vec::new();
    v5.push(member("type", text_value("string")));
    v2.push(member("command", JsonValue::Object(v5)));
    let mut v6: Vec<(String, JsonValue)> = Vec::new();
    v6.push(member("type", text_value("object")));
    let mut v7: Vec<(String, JsonValue)> = Vec::new();
    let mut v8: Vec<(String, JsonValue)> = Vec::new();
    v8.push(member("type", text_value("string")));
    v7.push(member("code", JsonValue::Object(v8)));
    let mut v9: Vec<(String, JsonValue)> = Vec::new();
    v9.push(member("type", text_value("string")));
    v7.push(member("message", JsonValue::Object(v9)));
    let mut v10: Vec<(String, JsonValue)> = Vec::new();
    v10.push(member("type", text_value("object")));
    v7.push(member("details", JsonValue::Object(v10)));
    v6.push(member("properties", JsonValue::Object(v7)));
    let mut v11: Vec<JsonValue> = Vec::new();
    v11.push(text_value("code"));
    v11.push(text_value("message"));
    v11.push(text_value("details"));
    v6.push(member("required", JsonValue::Array(v11)));
    v2.push(member("error", JsonValue::Object(v6)));
    v1.push(member("properties", JsonValue::Object(v2)));
    let mut v12: Vec<JsonValue> = Vec::new();
    v12.push(text_value("ok"));
    v12.push(text_value("schema_version"));
    v12.push(text_value("command"));
    v12.push(text_value("error"));
    v1.push(member("required", JsonValue::Array(v12)));
    JsonValue::Object(v1)
}

/// Whether `v` is the schema at position `k` of [`schema_names`].
pub open spec fn schema_at(k: int, v: JsonValue) -> bool {
    if k == 0 {
        schema_command_result_is(v)
    } else if k == 1 {
        schema_planned_actions_is(v)
    } else if k == 2 {
        schema_ask_plan_is(v)
    } else if k == 3 {
        schema_auth_check_is(v)
    } else if k == 4 {
        schema_config_init_is(v)
    } else if k == 5 {
        schema_course_list_is(v)
    } else if k == 6 {
        schema_course_show_is(v)
    } else if k == 7 {
        schema_course_set_is(v)
    } else if k == 8 {
        schema_course_update_is(v)
    } else if k == 9 {
        schema_assignment_list_is(v)
    } else if k == 10 {
        schema_assignment_mutation_is(v)
    } else if k == 11 {
        schema_outcome_list_is(v)
    } else if k == 12 {
        schema_outcome_mutation_is(v)
    } else if k == 13 {
        schema_rubric_list_is(v)
    } else if k == 14 {
        schema_rubric_mutation_is(v)
    } else if k == 15 {
        schema_rubric_association_is(v)
    } else if k == 16 {
        schema_submission_list_is(v)
    } else if k == 17 {
        schema_submission_grade_is(v)
    } else if k == 18 {
        schema_submission_import_is(v)
    } else if k == 19 {
        schema_quiz_list_is(v)
    } else if k == 20 {
        schema_quiz_mutation_is(v)
    } else if k == 21 {
        schema_quiz_submission_list_is(v)
    } else if k == 22 {
        schema_quiz_submission_grade_is(v)
    } else if k == 23 {
        schema_question_bank_list_is(v)
    } else if k == 24 {
        schema_question_bank_mutation_is(v)
    } else if k == 25 {
        schema_question_list_is(v)
    } else if k == 26 {
        schema_question_mutation_is(v)
    } else if k == 27 {
        schema_page_list_is(v)
    } else if k == 28 {
        schema_page_mutation_is(v)
    } else if k == 29 {
        schema_module_list_is(v)
    } else if k == 30 {
        schema_module_mutation_is(v)
    } else if k == 31 {
        schema_module_requirement_list_is(v)
    } else if k == 32 {
        schema_module_requirement_update_is(v)
    } else if k == 33 {
        schema_tool_list_is(v)
    } else if k == 34 {
        schema_tool_mutation_is(v)
    } else if k == 35 {
        schema_calendar_list_is(v)
    } else if k == 36 {
        schema_calendar_mutation_is(v)
    } else if k == 37 {
        schema_conference_list_is(v)
    } else if k == 38 {
        schema_conference_mutation_is(v)
    } else if k == 39 {
        schema_collaboration_list_is(v)
    } else if k == 40 {
        schema_collaboration_mutation_is(v)
    } else if k == 41 {
        schema_file_list_is(v)
    } else if k == 42 {
        schema_file_upload_is(v)
    } else if k == 43 {
        schema_file_delete_is(v)
    } else if k == 44 {
        schema_folder_list_is(v)
    } else if k == 45 {
        schema_folder_create_is(v)
    } else if k == 46 {
        schema_content_migration_list_is(v)
    } else if k == 47 {
        schema_content_migration_mutation_is(v)
    } else if k == 48 {
        schema_announcement_list_is(v)
    } else if k == 49 {
        schema_announcement_create_is(v)
    } else if k == 50 {
        schema_discussion_list_is(v)
    } else if k == 51 {
        schema_discussion_create_is(v)
    } else if k == 52 {
        schema_user_list_is(v)
    } else if k == 53 {
        schema_message_send_is(v)
    } else if k == 54 {
        schema_group_list_is(v)
    } else if k == 55 {
        schema_group_create_is(v)
    } else if k == 56 {
        schema_section_list_is(v)
    } else if k == 57 {
        schema_section_create_is(v)
    } else if k == 58 {
        schema_section_update_is(v)
    } else if k == 59 {
        schema_section_delete_is(v)
    } else if k == 60 {
        schema_enrollment_list_is(v)
    } else if k == 61 {
        schema_enrollment_add_is(v)
    } else if k == 62 {
        schema_enrollment_remove_is(v)
    } else if k == 63 {
        schema_report_export_is(v)
    } else if k == 64 {
        schema_gradebook_grading_period_list_is(v)
    } else if k == 65 {
        schema_gradebook_grading_period_show_is(v)
    } else if k == 66 {
        schema_gradebook_posting_policy_get_is(v)
    } else if k == 67 {
        schema_gradebook_posting_policy_set_is(v)
    } else if k == 68 {
        schema_course_activity_summary_is(v)
    } else if k == 69 {
        schema_error_is(v)
    } else {
        false
    }
}

/// The schemas of every JSON output: an object with the schema `version`
/// and `schema_version` (both `v10`) and, under `schemas`, the schema of
/// each name of [`schema_names`], in that order.
#[verifier::rlimit(100)]
pub fn schema_definition() -> (r: JsonValue)
    ensures
        r matches JsonValue::Object(m) && m@.len() == 3 && m@[0].0@ == "version"@ && text_is(
            m@[0].1,
            "v10"@,
        ) && m@[1].0@ == "schema_version"@ && text_is(m@[1].1, "v10"@) && m@[2].0@ == "schemas"@
            && (m@[2].1 matches JsonValue::Object(s) && s@.len() == schema_names().len() && forall|
            k: int,
        | 0 <= k < s@.len() ==> #[trigger] s@[k].0@ == schema_names()[k] && schema_at(k, s@[k].1)),
{
    let mut s: Vec<(String, JsonValue)> = Vec::new();
    s.push(member("command_result", schema_command_result()));
    assert(schema_at(0, s@[0].1));
    s.push(member("planned_actions", schema_planned_actions()));
    assert(schema_at(1, s@[1].1));
    s.push(member("ask_plan", schema_ask_plan()));
    assert(schema_at(2, s@[2].1));
    s.push(member("auth_check", schema_auth_check()));
    assert(schema_at(3, s@[3].1));
    s.push(member("config_init", schema_config_init()));
    assert(schema_at(4, s@[4].1));
    s.push(member("course_list", schema_course_list()));
    assert(schema_at(5, s@[5].1));
    s.push(member("course_show", schema_course_show()));
    assert(schema_at(6, s@[6].1));
    s.push(member("course_set", schema_course_set()));
    assert(schema_at(7, s@[7].1));
    s.push(member("course_update", schema_course_update()));
    assert(schema_at(8, s@[8].1));
    s.push(member("assignment_list", schema_assignment_list()));
    assert(schema_at(9, s@[9].1));
    s.push(member("assignment_mutation", schema_assignment_mutation()));
    assert(schema_at(10, s@[10].1));
    s.push(member("outcome_list", schema_outcome_list()));
    assert(schema_at(11, s@[11].1));
    s.push(member("outcome_mutation", schema_outcome_mutation()));
    assert(schema_at(12, s@[12].1));
    s.push(member("rubric_list", schema_rubric_list()));
    assert(schema_at(13, s@[13].1));
    s.push(member("rubric_mutation", schema_rubric_mutation()));
    assert(schema_at(14, s@[14].1));
    s.push(member("rubric_association", schema_rubric_association()));
    assert(schema_at(15, s@[15].1));
    s.push(member("submission_list", schema_submission_list()));
    assert(schema_at(16, s@[16].1));
    s.push(member("submission_grade", schema_submission_grade()));
    assert(schema_at(17, s@[17].1));
    s.push(member("submission_import", schema_submission_import()));
    assert(schema_at(18, s@[18].1));
    s.push(member("quiz_list", schema_quiz_list()));
    assert(schema_at(19, s@[19].1));
    s.push(member("quiz_mutation", schema_quiz_mutation()));
    assert(schema_at(20, s@[20].1));
    s.push(member("quiz_submission_list", schema_quiz_submission_list()));
    assert(schema_at(21, s@[21].1));
    s.push(member("quiz_submission_grade", schema_quiz_submission_grade()));
    assert(schema_at(22, s@[22].1));
    s.push(member("question_bank_list", schema_question_bank_list()));
    assert(schema_at(23, s@[23].1));
    s.push(member("question_bank_mutation", schema_question_bank_mutation()));
    assert(schema_at(24, s@[24].1));
    s.push(member("question_list", schema_question_list()));
    assert(schema_at(25, s@[25].1));
    s.push(member("question_mutation", schema_question_mutation()));
    assert(schema_at(26, s@[26].1));
    s.push(member("page_list", schema_page_list()));
    assert(schema_at(27, s@[27].1));
    s.push(member("page_mutation", schema_page_mutation()));
    assert(schema_at(28, s@[28].1));
    s.push(member("module_list", schema_module_list()));
    assert(schema_at(29, s@[29].1));
    s.push(member("module_mutation", schema_module_mutation()));
    assert(schema_at(30, s@[30].1));
    s.push(member("module_requirement_list", schema_module_requirement_list()));
    assert(schema_at(31, s@[31].1));
    s.push(member("module_requirement_update", schema_module_requirement_update()));
    assert(schema_at(32, s@[32].1));
    s.push(member("tool_list", schema_tool_list()));
    assert(schema_at(33, s@[33].1));
    s.push(member("tool_mutation", schema_tool_mutation()));
    assert(schema_at(34, s@[34].1));
    s.push(member("calendar_list", schema_calendar_list()));
    assert(schema_at(35, s@[35].1));
    s.push(member("calendar_mutation", schema_calendar_mutation()));
    assert(schema_at(36, s@[36].1));
    s.push(member("conference_list", schema_conference_list()));
    assert(schema_at(37, s@[37].1));
    s.push(member("conference_mutation", schema_conference_mutation()));
    assert(schema_at(38, s@[38].1));
    s.push(member("collaboration_list", schema_collaboration_list()));
    assert(schema_at(39, s@[39].1));
    s.push(member("collaboration_mutation", schema_collaboration_mutation()));
    assert(schema_at(40, s@[40].1));
    s.push(member("file_list", schema_file_list()));
    assert(schema_at(41, s@[41].1));
    s.push(member("file_upload", schema_file_upload()));
    assert(schema_at(42, s@[42].1));
    s.push(member("file_delete", schema_file_delete()));
    assert(schema_at(43, s@[43].1));
    s.push(member("folder_list", schema_folder_list()));
    assert(schema_at(44, s@[44].1));
    s.push(member("folder_create", schema_folder_create()));
    assert(schema_at(45, s@[45].1));
    s.push(member("content_migration_list", schema_content_migration_list()));
    assert(schema_at(46, s@[46].1));
    s.push(member("content_migration_mutation", schema_content_migration_mutation()));
    assert(schema_at(47, s@[47].1));
    s.push(member("announcement_list", schema_announcement_list()));
    assert(schema_at(48, s@[48].1));
    s.push(member("announcement_create", schema_announcement_create()));
    assert(schema_at(49, s@[49].1));
    s.push(member("discussion_list", schema_discussion_list()));
    assert(schema_at(50, s@[50].1));
    s.push(member("discussion_create", schema_discussion_create()));
    assert(schema_at(51, s@[51].1));
    s.push(member("user_list", schema_user_list()));
    assert(schema_at(52, s@[52].1));
    s.push(member("message_send", schema_message_send()));
    assert(schema_at(53, s@[53].1));
    s.push(member("group_list", schema_group_list()));
    assert(schema_at(54, s@[54].1));
    s.push(member("group_create", schema_group_create()));
    assert(schema_at(55, s@[55].1));
    s.push(member("section_list", schema_section_list()));
    assert(schema_at(56, s@[56].1));
    s.push(member("section_create", schema_section_create()));
    assert(schema_at(57, s@[57].1));
    s.push(member("section_update", schema_section_update()));
    assert(schema_at(58, s@[58].1));
    s.push(member("section_delete", schema_section_delete()));
    assert(schema_at(59, s@[59].1));
    s.push(member("enrollment_list", schema_enrollment_list()));
    assert(schema_at(60, s@[60].1));
    s.push(member("enrollment_add", schema_enrollment_add()));
    assert(schema_at(61, s@[61].1));
    s.push(member("enrollment_remove", schema_enrollment_remove()));
    assert(schema_at(62, s@[62].1));
    s.push(member("report_export", schema_report_export()));
    assert(schema_at(63, s@[63].1));
    s.push(member("gradebook_grading_period_list", schema_gradebook_grading_period_list()));
    assert(schema_at(64, s@[64].1));
    s.push(member("gradebook_grading_period_show", schema_gradebook_grading_period_show()));
    assert(schema_at(65, s@[65].1));
    s.push(member("gradebook_posting_policy_get", schema_gradebook_posting_policy_get()));
    assert(schema_at(66, s@[66].1));
    s.push(member("gradebook_posting_policy_set", schema_gradebook_posting_policy_set()));
    assert(schema_at(67, s@[67].1));
    s.push(member("course_activity_summary", schema_course_activity_summary()));
    assert(schema_at(68, s@[68].1));
    s.push(member("error", schema_error()));
    assert(schema_at(69, s@[69].1));
    assert(s@.len() == schema_names().len());
    let mut m: Vec<(String, JsonValue)> = Vec::new();
    m.push(member("version", text_value(schema_version())));
    m.push(member("schema_version", text_value(schema_version())));
    m.push(member("schemas", JsonValue::Object(s)));
    JsonValue::Object(m)
}

} // verus!
