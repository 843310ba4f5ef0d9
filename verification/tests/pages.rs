use canvas_core::cli::GlobalOptions;
use canvas_core::errors::{CanvasError, CliError};
use canvas_core::ids::CourseId;
use canvas_core::kinds::PublishState;
use canvas_core::pages::{page_request, PageCommand, PageRequest};

fn global(course: Option<u64>) -> GlobalOptions {
    let course = course.map(|c| CourseId::parse(&c.to_string()).expect("course"));
    GlobalOptions { course, json: false, quiet: false, confirm: false, explain: false }
}

#[test]
fn page_create_reads_title_body_and_state() {
    let create = PageCommand::Create {
        course: None,
        title: " Welcome ".to_string(),
        body: "<p>Hi</p>".to_string(),
        publish_state: Some("published".to_string()),
    };
    match page_request(create, &global(Some(5))) {
        Ok(PageRequest::Create { course_id, input }) => {
            assert_eq!(course_id.get(), 5);
            assert_eq!(input.title.as_str(), "Welcome");
            assert_eq!(input.body.as_str(), "<p>Hi</p>");
            assert_eq!(input.publish_state, Some(PublishState::Published));
        }
        _ => panic!("expected create"),
    }
    let blank_body = PageCommand::Create {
        course: None,
        title: "T".to_string(),
        body: "  ".to_string(),
        publish_state: None,
    };
    assert!(matches!(
        page_request(blank_body, &global(Some(5))),
        Err(CliError::Canvas(CanvasError::InvalidPageBody(s))) if s == "  "
    ));
}

#[test]
fn page_update_needs_a_change() {
    let update = PageCommand::Update {
        course: None,
        page: "syllabus".to_string(),
        title: None,
        body: None,
        publish_state: None,
    };
    assert!(matches!(
        page_request(update, &global(Some(5))),
        Err(CliError::Canvas(CanvasError::InvalidPageUpdate(s))) if s == "no_fields"
    ));
    let publish = PageCommand::Publish {
        course: None,
        page: "syllabus".to_string(),
        publish_state: "unpublished".to_string(),
    };
    match page_request(publish, &global(Some(5))) {
        Ok(PageRequest::Publish { page_id, publish_state, .. }) => {
            assert_eq!(page_id.as_str(), "syllabus");
            assert_eq!(publish_state, PublishState::Unpublished);
        }
        _ => panic!("expected publish"),
    }
}
