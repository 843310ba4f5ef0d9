use canvas_core::ask::plan_from_prompt;
use canvas_core::details::ErrorDetails;
use canvas_core::envelopes::{
    ask_plan_envelope, details_json, error_envelope, plan_envelope, success_envelope,
    PlannedAction,
};
use canvas_core::errors::{CanvasError, CliError};
use canvas_core::hosts::{CanvasHost, CanvasHostParseError, ExternalToolConfigUrl};
use canvas_core::ids::CourseId;
use canvas_core::json::JsonValue;
use canvas_core::kinds::QuestionType;
use canvas_core::migrations::{course_copy_form, file_import_form};
use canvas_core::envelopes::schema_version;
use canvas_core::schema::schema_definition;

fn text(s: &str) -> JsonValue {
    JsonValue::Text(s.to_string())
}

fn members(v: &JsonValue) -> &Vec<(String, JsonValue)> {
    match v {
        JsonValue::Object(m) => m,
        _ => panic!("expected an object"),
    }
}

fn get<'a>(v: &'a JsonValue, key: &str) -> &'a JsonValue {
    &members(v).iter().find(|(k, _)| k == key).expect("member").1
}

fn is_text(v: &JsonValue, s: &str) -> bool {
    matches!(v, JsonValue::Text(t) if t == s)
}

#[test]
fn success_envelope_has_the_stable_keys() {
    let env = success_envelope("course list", text("payload"));
    let keys: Vec<&str> = members(&env).iter().map(|(k, _)| k.as_str()).collect();
    assert_eq!(keys, vec!["ok", "schema_version", "command", "data"]);
    assert!(matches!(get(&env, "ok"), JsonValue::Bool(true)));
    assert!(is_text(get(&env, "schema_version"), "v10"));
    assert!(is_text(get(&env, "command"), "course list"));
    assert!(is_text(get(&env, "data"), "payload"));
}

#[test]
fn error_envelope_carries_code_message_details_and_command() {
    let err = CliError::Canvas(CanvasError::InvalidCourseId("abc".to_string()));
    let env = error_envelope("course", &err);
    assert!(matches!(get(&env, "ok"), JsonValue::Bool(false)));
    assert!(is_text(get(&env, "schema_version"), "v10"));
    assert!(is_text(get(&env, "command"), "course"));
    let error = get(&env, "error");
    assert!(is_text(get(error, "code"), "invalid_course_id"));
    assert!(is_text(get(error, "message"), "invalid course id: abc"));
    assert!(is_text(get(get(error, "details"), "input"), "abc"));
}

#[test]
fn details_json_names_each_detail() {
    let api = details_json(ErrorDetails::Api { status: Some(404), request_id: None, body: Some("gone".to_string()) });
    assert!(matches!(get(&api, "status"), JsonValue::Number(n) if n == "404"));
    assert!(matches!(get(&api, "request_id"), JsonValue::Null));
    assert!(is_text(get(&api, "body"), "gone"));
    let quiz = details_json(ErrorDetails::QuizId(7));
    assert!(matches!(get(&quiz, "quiz_id"), JsonValue::Number(n) if n == "7"));
    assert!(members(&details_json(ErrorDetails::NoDetails)).is_empty());
    let both = details_json(ErrorDetails::PathDetail("a.json".to_string(), "missing".to_string()));
    assert!(is_text(get(&both, "path"), "a.json"));
    assert!(is_text(get(&both, "detail"), "missing"));
}

#[test]
fn plan_envelopes_list_actions_and_commands() {
    let actions = [PlannedAction { action: "delete quiz", risk: "deletes remote quiz", requires_confirmation: true }];
    let env = plan_envelope("quiz delete", &actions);
    match get(&env, "planned_actions") {
        JsonValue::Array(items) => {
            assert_eq!(items.len(), 1);
            assert!(is_text(get(&items[0], "action"), "delete quiz"));
            assert!(matches!(get(&items[0], "requires_confirmation"), JsonValue::Bool(true)));
        }
        _ => panic!("expected actions"),
    }
    let ask = ask_plan_envelope(&plan_from_prompt("list courses"));
    assert!(is_text(get(&ask, "command"), "ask"));
    match get(get(&ask, "data"), "commands") {
        JsonValue::Array(cs) => assert!(is_text(get(&cs[0], "command"), "course list")),
        _ => panic!("expected commands"),
    }
}

#[test]
fn schema_includes_core_groups() {
    let schema = schema_definition();
    let schemas = members(get(&schema, "schemas"));
    for key in ["auth_check", "config_init", "course_list", "course_show", "course_set", "course_update"] {
        assert!(schemas.iter().any(|(k, _)| k == key), "missing schema {key}");
    }
    assert!(is_text(get(&schema, "schema_version"), schema_version()));
}

#[test]
fn schema_has_every_group() {
    let schema = schema_definition();
    assert!(is_text(get(&schema, "version"), "v10"));
    assert!(is_text(get(&schema, "schema_version"), "v10"));
    let groups = members(get(&schema, "schemas"));
    assert_eq!(groups.len(), 70);
    assert_eq!(groups[0].0, "command_result");
    assert_eq!(groups[69].0, "error");
    let course_list = get(get(&schema, "schemas"), "course_list");
    assert!(is_text(get(course_list, "type"), "object"));
}

#[test]
fn migration_forms_name_their_fields() {
    let copy = course_copy_form(CourseId::parse("12").expect("course"));
    assert!(is_text(get(&copy, "migration_type"), "course_copy_importer"));
    assert!(matches!(get(&copy, "settings[source_course_id]"), JsonValue::Number(n) if n == "12"));
    let import = file_import_form("course.zip", 2048);
    assert!(is_text(get(&import, "migration_type"), "zip_file_importer"));
    assert!(is_text(get(&import, "pre_attachment[name]"), "course.zip"));
    assert!(matches!(get(&import, "pre_attachment[size]"), JsonValue::Number(n) if n == "2048"));
    assert!(is_text(get(&import, "pre_attachment[content_type]"), "application/zip"));
}

#[test]
fn url_readings_decide_hosts_and_tool_urls() {
    let reading = Some(("https://canvas.test/".to_string(), "https".to_string(), true));
    let host = CanvasHost::from_url_reading("https://canvas.test//", reading).expect("host");
    assert_eq!(host.as_str(), "https://canvas.test");
    let ftp = Some(("ftp://canvas.test/".to_string(), "ftp".to_string(), true));
    assert_eq!(CanvasHost::from_url_reading("ftp://canvas.test", ftp).err(), Some(CanvasHostParseError::InvalidScheme));
    let no_host = Some(("http:x".to_string(), "http".to_string(), false));
    assert_eq!(CanvasHost::from_url_reading("http:x", no_host).err(), Some(CanvasHostParseError::MissingHost));
    assert_eq!(CanvasHost::from_url_reading("nope", None).err(), Some(CanvasHostParseError::InvalidUrl));
    let tool = ExternalToolConfigUrl::from_url_reading(Some((
        "https://tool.test/config.xml".to_string(),
        "https".to_string(),
        true,
    )))
    .expect("tool url");
    assert_eq!(tool.as_str(), "https://tool.test/config.xml");
}

#[test]
fn question_types_parse_back_in_capitals() {
    for q in [QuestionType::Essay, QuestionType::FillInMultipleBlanks, QuestionType::TextOnly] {
        assert_eq!(q.as_str().to_uppercase().parse::<QuestionType>().ok(), Some(q));
        assert!(q.as_str().ends_with("_question"));
    }
}
