use canvas_core::cli::GlobalOptions;
use canvas_core::errors::{CanvasError, CliError};
use canvas_core::ids::CourseId;
use canvas_core::kinds::PublishState;
use canvas_core::modules::{module_request, ModuleCommand, ModuleRequest};

fn global(course: Option<u64>) -> GlobalOptions {
    let course = course.map(|c| CourseId::parse(&c.to_string()).expect("course"));
    GlobalOptions { course, json: false, quiet: false, confirm: false, explain: false }
}

#[test]
fn module_create_reads_name_and_state() {
    let create = ModuleCommand::<f64>::Create {
        course: Some("12".to_string()),
        name: " Week 1 ".to_string(),
        publish_state: Some(" Unpublished ".to_string()),
    };
    match module_request(create, &global(None)) {
        Ok(ModuleRequest::Create { course_id, input }) => {
            assert_eq!(course_id.get(), 12);
            assert_eq!(input.name.as_str(), "Week 1");
            assert_eq!(input.publish_state, Some(PublishState::Unpublished));
        }
        _ => panic!("expected create"),
    }
    let blank = ModuleCommand::<f64>::Create {
        course: None,
        name: "   ".to_string(),
        publish_state: None,
    };
    assert!(matches!(
        module_request(blank, &global(Some(3))),
        Err(CliError::Canvas(CanvasError::InvalidModuleName(s))) if s == "   "
    ));
    let no_course = ModuleCommand::<f64>::List { course: None };
    assert!(matches!(module_request(no_course, &global(None)), Err(CliError::MissingCourseId)));
}

#[test]
fn module_update_needs_a_change_and_a_module() {
    let nothing = ModuleCommand::<f64>::Update {
        course: None,
        module: "7".to_string(),
        name: None,
        publish_state: None,
    };
    assert!(matches!(
        module_request(nothing, &global(Some(3))),
        Err(CliError::Canvas(CanvasError::InvalidModuleUpdate(s))) if s == "no_fields"
    ));
    let bad_module = ModuleCommand::<f64>::Update {
        course: None,
        module: "seven".to_string(),
        name: Some("Renamed".to_string()),
        publish_state: None,
    };
    assert!(matches!(
        module_request(bad_module, &global(Some(3))),
        Err(CliError::Canvas(CanvasError::InvalidModuleId(s))) if s == "seven"
    ));
    let rename = ModuleCommand::<f64>::Update {
        course: None,
        module: "7".to_string(),
        name: Some("Renamed".to_string()),
        publish_state: None,
    };
    match module_request(rename, &global(Some(3))) {
        Ok(ModuleRequest::Update { module_id, input, .. }) => {
            assert_eq!(module_id.get(), 7);
            assert_eq!(input.name.map(|n| n.as_str().to_string()), Some("Renamed".to_string()));
            assert_eq!(input.publish_state, None);
        }
        _ => panic!("expected update"),
    }
}

#[test]
fn module_reorder_keeps_order_and_refuses_empty() {
    let reorder = ModuleCommand::<f64>::Reorder {
        course: None,
        module_ids: vec!["3".to_string(), " 1 ".to_string(), "2".to_string()],
    };
    match module_request(reorder, &global(Some(9))) {
        Ok(ModuleRequest::Reorder { module_ids, .. }) => {
            let ids: Vec<u64> = module_ids.iter().map(|m| m.get()).collect();
            assert_eq!(ids, vec![3, 1, 2]);
        }
        _ => panic!("expected reorder"),
    }
    let empty = ModuleCommand::<f64>::Reorder { course: None, module_ids: vec![] };
    assert!(matches!(
        module_request(empty, &global(Some(9))),
        Err(CliError::Canvas(CanvasError::InvalidModuleReorder(s))) if s == "empty_order"
    ));
    let bad = ModuleCommand::<f64>::Reorder {
        course: None,
        module_ids: vec!["4".to_string(), "x".to_string(), "0".to_string()],
    };
    assert!(matches!(
        module_request(bad, &global(Some(9))),
        Err(CliError::Canvas(CanvasError::InvalidModuleId(s))) if s == "x"
    ));
}

#[test]
fn module_publish_and_requirement_list() {
    let publish = ModuleCommand::<f64>::Publish {
        course: None,
        module: "4".to_string(),
        publish_state: "sideways".to_string(),
    };
    assert!(matches!(
        module_request(publish, &global(Some(9))),
        Err(CliError::Canvas(CanvasError::InvalidPublishState(s))) if s == "sideways"
    ));
    let list = ModuleCommand::<f64>::RequirementList { course: None, module: "4".to_string() };
    match module_request(list, &global(Some(9))) {
        Ok(ModuleRequest::RequirementList { course_id, module_id }) => {
            assert_eq!(course_id.get(), 9);
            assert_eq!(module_id.get(), 4);
        }
        _ => panic!("expected requirement list"),
    }
}
