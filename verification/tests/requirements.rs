use canvas_core::cli::GlobalOptions;
use canvas_core::errors::{CanvasError, CliError};
use canvas_core::ids::CourseId;
use canvas_core::json::DocumentSource;
use canvas_core::modules::{module_request, ModuleCommand, ModuleRequest};
use canvas_core::requirements::{
    min_score_texts, parse_module_requirements, requirements_input, ModuleRequirement,
    ModuleRequirements,
};

/// The readings of the minimum score texts as the command line makes them:
/// finite, non-negative decimals.
fn readings(raw: &str) -> Vec<Option<f64>> {
    min_score_texts(raw)
        .into_iter()
        .map(|t| t.and_then(|t| t.parse::<f64>().ok()).filter(|v| v.is_finite() && *v >= 0.0))
        .collect()
}

fn parse(raw: &str) -> Result<ModuleRequirements<f64>, CanvasError> {
    parse_module_requirements(raw, &readings(raw))
}

fn requirement_error(raw: &str) -> String {
    match parse(raw) {
        Err(CanvasError::InvalidModuleRequirement(d)) => d,
        other => panic!("unexpected {:?}", other),
    }
}

#[test]
fn parse_module_requirements_accepts_score() {
    let raw = r#"[{"item_id":5,"type":"score","min_score":3.5}]"#;
    let parsed = parse_module_requirements(raw, &readings(raw));
    assert!(parsed.is_ok());
}

#[test]
fn parse_module_requirements_rejects_missing_min_score() {
    let raw = r#"[{"item_id":5,"type":"score"}]"#;
    let parsed = parse_module_requirements(raw, &readings(raw));
    assert!(parsed.is_err());
}

#[test]
fn requirements_keep_order_and_values() {
    let raw = r#"[{"item_id":"7","type":" View "},{"item_id":5,"type":"score","min_score":"2.25"},{"type":"contribute","item_id":9}]"#;
    let scores = readings(raw);
    assert_eq!(scores, vec![None, Some(2.25), None]);
    let parsed = parse_module_requirements(raw, &scores).expect("requirements");
    let items = parsed.requirements();
    assert_eq!(items.len(), 3);
    assert!(matches!(items[0], ModuleRequirement::View { item_id } if item_id.get() == 7));
    assert!(
        matches!(items[1], ModuleRequirement::Score { item_id, min_score } if item_id.get() == 5 && min_score == 2.25)
    );
    assert!(matches!(items[2], ModuleRequirement::Contribute { item_id } if item_id.get() == 9));
    assert_eq!(parse("[]").expect("empty").requirements().len(), 0);
    assert!(min_score_texts("{").is_empty());
}

#[test]
fn requirements_report_each_refusal() {
    assert_eq!(requirement_error("[{"), "invalid_json");
    assert_eq!(requirement_error(r#""x""#), "expected_array");
    assert_eq!(requirement_error("[1]"), "expected_object");
    assert_eq!(requirement_error(r#"[{"type":"view"}]"#), "missing_item_id");
    assert_eq!(requirement_error(r#"[{"item_id":true,"type":"view"}]"#), "invalid_item_id");
    assert!(matches!(
        parse(r#"[{"item_id":"0","type":"view"}]"#),
        Err(CanvasError::InvalidModuleItemId(t)) if t == "0"
    ));
    assert_eq!(requirement_error(r#"[{"item_id":3}]"#), "missing_type");
    assert_eq!(requirement_error(r#"[{"item_id":3,"type":1}]"#), "invalid_type");
    assert!(matches!(
        parse(r#"[{"item_id":3,"type":"watch"}]"#),
        Err(CanvasError::InvalidModuleRequirementType(t)) if t == "watch"
    ));
    assert_eq!(requirement_error(r#"[{"item_id":3,"type":"view","min_score":1}]"#), "unexpected_min_score");
    assert_eq!(requirement_error(r#"[{"item_id":3,"type":"score","min_score":"-1"}]"#), "invalid_min_score");
    assert_eq!(
        requirement_error(r#"[{"item_id":3,"type":"score","min_score":"NaN"}]"#),
        "invalid_min_score"
    );
    assert_eq!(requirement_error(r#"[{"item_id":3,"type":"score","min_score":null}]"#), "invalid_min_score");
}

#[test]
fn requirements_input_refuses_two_sources() {
    let scores: Vec<Option<f64>> = vec![];
    assert!(matches!(requirements_input(DocumentSource::Absent, &scores), Ok(None)));
    assert!(matches!(
        requirements_input(DocumentSource::Conflicting, &scores),
        Err(CliError::Canvas(CanvasError::InvalidModuleRequirement(d))) if d == "multiple_sources"
    ));
}

fn global(course: Option<u64>) -> GlobalOptions {
    let course = course.map(|c| CourseId::parse(&c.to_string()).expect("course"));
    GlobalOptions { course, json: false, quiet: false, confirm: false, explain: false }
}

fn update(
    requirements: DocumentSource,
    prerequisites: DocumentSource,
    unlock_at: Option<&str>,
    sequential_progress: Option<bool>,
) -> ModuleCommand<f64> {
    ModuleCommand::RequirementUpdate {
        course: None,
        module: "4".to_string(),
        requirements,
        min_scores: vec![Some(1.5)],
        prerequisites,
        unlock_at: unlock_at.map(|s| s.to_string()),
        sequential_progress,
    }
}

#[test]
fn requirement_update_builds_input() {
    let command = update(
        DocumentSource::Read(r#"[{"item_id":5,"type":"score","min_score":1.5}]"#.to_string()),
        DocumentSource::Read("[2]".to_string()),
        Some("2025-02-01T00:00:00Z"),
        Some(true),
    );
    match module_request(command, &global(Some(9))) {
        Ok(ModuleRequest::RequirementUpdate { course_id, module_id, input }) => {
            assert_eq!(course_id.get(), 9);
            assert_eq!(module_id.get(), 4);
            let requirements = input.requirements.expect("requirements");
            assert!(matches!(
                requirements.requirements()[0],
                ModuleRequirement::Score { min_score, .. } if min_score == 1.5
            ));
            assert_eq!(input.prerequisites.expect("prerequisites").ids().len(), 1);
            let rules = input.unlock_rules.expect("rules");
            assert!(rules.unlock_at.is_some());
            assert_eq!(rules.require_sequential_progress, Some(true));
        },
        other => panic!("unexpected {:?}", other),
    }
    let only_order = update(DocumentSource::Absent, DocumentSource::Absent, None, Some(false));
    match module_request(only_order, &global(Some(9))) {
        Ok(ModuleRequest::RequirementUpdate { input, .. }) => {
            assert!(input.requirements.is_none() && input.prerequisites.is_none());
            let rules = input.unlock_rules.expect("rules");
            assert!(rules.unlock_at.is_none());
            assert_eq!(rules.require_sequential_progress, Some(false));
        },
        other => panic!("unexpected {:?}", other),
    }
}

#[test]
fn requirement_update_refusals_in_order() {
    let nothing = update(DocumentSource::Absent, DocumentSource::Absent, None, None);
    assert!(matches!(
        module_request(nothing, &global(Some(9))),
        Err(CliError::Canvas(CanvasError::InvalidModuleRequirementUpdate(d))) if d == "no_fields"
    ));
    let no_course = update(DocumentSource::Conflicting, DocumentSource::Absent, None, None);
    assert!(matches!(module_request(no_course, &global(None)), Err(CliError::MissingCourseId)));
    let both = update(DocumentSource::Conflicting, DocumentSource::Conflicting, Some("bad"), None);
    assert!(matches!(
        module_request(both, &global(Some(9))),
        Err(CliError::Canvas(CanvasError::InvalidModuleRequirement(d))) if d == "multiple_sources"
    ));
    let prereq = update(DocumentSource::Absent, DocumentSource::Conflicting, Some("bad"), None);
    assert!(matches!(
        module_request(prereq, &global(Some(9))),
        Err(CliError::Canvas(CanvasError::InvalidModulePrerequisites(d))) if d == "multiple_sources"
    ));
    let date = update(DocumentSource::Absent, DocumentSource::Absent, Some("tomorrow"), None);
    assert!(matches!(
        module_request(date, &global(Some(9))),
        Err(CliError::Canvas(CanvasError::InvalidDueDate(d))) if d == "tomorrow"
    ));
}
