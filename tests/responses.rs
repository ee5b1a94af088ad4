use lily_cms::content::{Content, ContentPayload, ASSIGNED_ID};
use lily_cms::errors::Error;
use lily_cms::problems::{Problem, PROBLEM_CONTENT_TYPE};
use lily_cms::responses::{
    respond_created, respond_deleted, respond_disabled, respond_read_one, respond_value, ApiResponse,
};
use lily_cms::routes::{HttpMethod, Routes};
use lily_cms::routing::{build_endpoint, EndpointDef, Repository};
use lily_cms::schema::{Field, StructFields};

fn content_endpoint(allow: &[&str]) -> EndpointDef {
    let fields = StructFields::Named(vec![
        Field::new("title", "String"),
        Field::new("body", "String"),
        Field::new("summary", "Option<String>"),
    ]);
    let allow: Vec<String> = allow.iter().map(|s| s.to_string()).collect();
    build_endpoint("X", &fields, &allow).unwrap()
}

fn payload(body: &str) -> ContentPayload {
    ContentPayload {
        title: "A title".to_string(),
        body: body.to_string(),
        summary: Some("A summary".to_string()),
    }
}

#[test]
fn unknown_id_is_a_resource_not_found_problem() {
    let d = content_endpoint(&[]);
    let reply = d.handle_read_one::<Content, ContentPayload, Content>(&"unknown".to_string());
    assert!(reply.error.is_none());
    assert_eq!(reply.response.status(), 404);
    let problem = match reply.response {
        ApiResponse::NotFound(p) => p,
        _ => panic!("expected a not-found response"),
    };
    let j = problem.to_json_problem();
    assert_eq!(j.type_uri, "/errors/resource-not-found");
    assert_eq!(j.title, "Not Found");
    assert_eq!(j.status, 404);
    assert_eq!(j.detail, "The resource 'x' with id 'unknown' was not found.");
    assert_eq!(PROBLEM_CONTENT_TYPE, "application/problem+json");
}

#[test]
fn resource_not_found_body_names_resource_and_id() {
    let j = Problem::ResourceNotFound { resource: "X".to_string(), id: "unknown".to_string() }
        .to_json_problem();
    assert_eq!(j.type_uri, "/errors/resource-not-found");
    assert_eq!(j.title, "Not Found");
    assert_eq!(j.status, 404);
    assert_eq!(j.detail, "The resource 'X' with id 'unknown' was not found.");
}

#[test]
fn capability_error_is_an_opaque_internal_error() {
    let d = content_endpoint(&[]);
    let reply = d.handle_read_one::<Content, ContentPayload, Content>(&"invalid".to_string());
    assert_eq!(reply.error, Some(Error::Example));
    assert_eq!(reply.response.status(), 500);
    let problem = match reply.response {
        ApiResponse::Erroneous(p) => p,
        _ => panic!("expected an internal error"),
    };
    let j = problem.to_json_problem();
    assert_eq!(j.type_uri, "/errors/internal-server-error");
    assert_eq!(j.title, "Internal Server Error");
    assert_eq!(j.status, 500);
    assert_eq!(j.detail, "An unexpected error occurred on the server.");
    let message = Error::Example.message();
    assert_eq!(message, "This is an example error.");
    assert_eq!(Error::Unknown.message(), "An unknown error occured.");
    for text in [&j.type_uri, &j.title, &j.detail] {
        assert!(!text.contains(message));
    }
}

#[test]
fn create_assigns_id_and_creation_time() {
    let d = content_endpoint(&[]);
    let reply = d.handle_create_one::<Content, ContentPayload, Content>(&payload("Some text"));
    assert!(reply.error.is_none());
    assert_eq!(reply.response.status(), 201);
    let created = match reply.response {
        ApiResponse::Created(c) => c,
        _ => panic!("expected a created response"),
    };
    assert!(!created.id.is_empty());
    assert_eq!(created.id, ASSIGNED_ID);
    assert!(created.created_at > 0);
    assert_eq!(created.title, "A title");
    assert_eq!(created.body, "Some text");
    assert_eq!(created.summary.as_deref(), Some("A summary"));
}

#[test]
fn failed_create_is_an_internal_error() {
    let d = content_endpoint(&[]);
    let reply = d.handle_create_one::<Content, ContentPayload, Content>(&payload("invalid"));
    assert_eq!(reply.error, Some(Error::Example));
    assert_eq!(reply.response.status(), 500);
}

#[test]
fn omitted_operation_answers_endpoint_not_found() {
    let d = content_endpoint(&["create_one"]);
    let reply = d.handle_read_one::<Content, ContentPayload, Content>(&"abc".to_string());
    assert!(reply.error.is_none());
    assert_eq!(reply.response.status(), 404);
    let problem = match reply.response {
        ApiResponse::NotFound(p) => p,
        _ => panic!("expected a not-found response"),
    };
    let j = problem.to_json_problem();
    assert_eq!(j.type_uri, "/errors/endpoint-not-found");
    assert_eq!(j.title, "Not Found");
    assert_eq!(j.detail, "The endpoint was not found.");
    let reply = d.handle_delete_one::<Content, ContentPayload, Content>(&"abc".to_string());
    assert_eq!(reply.response.status(), 404);
    let reply = d.handle_create_one::<Content, ContentPayload, Content>(&payload("Some text"));
    assert_eq!(reply.response.status(), 201);
}

#[test]
fn reading_twice_gives_the_same_resource() {
    let d = content_endpoint(&[]);
    let id = "86e4fc36".to_string();
    let first = d.handle_read_one::<Content, ContentPayload, Content>(&id);
    let second = d.handle_read_one::<Content, ContentPayload, Content>(&id);
    let (a, b) = match (first.response, second.response) {
        (ApiResponse::Success(a), ApiResponse::Success(b)) => (a, b),
        _ => panic!("expected two successful reads"),
    };
    assert_eq!(a.id, id);
    assert_eq!(a.id, b.id);
    assert_eq!(a.created_at, b.created_at);
    assert_eq!(a.title, b.title);
    assert_eq!(a.body, b.body);
    assert_eq!(a.summary, b.summary);
}

#[test]
fn read_many_update_replace_and_delete() {
    let d = content_endpoint(&[]);
    let reply = d.handle_read_many::<Content, ContentPayload, Content>();
    assert_eq!(reply.response.status(), 200);
    match reply.response {
        ApiResponse::Success(items) => assert_eq!(items.len(), 4),
        _ => panic!("expected a list"),
    }
    let id = "abc".to_string();
    let updated = d.handle_update_one::<Content, ContentPayload, Content>(&id, &payload("New"));
    let replaced = d.handle_replace_one::<Content, ContentPayload, Content>(&id, &payload("New"));
    for reply in [updated, replaced] {
        assert_eq!(reply.response.status(), 200);
        match reply.response {
            ApiResponse::Success(c) => {
                assert_eq!(c.id, "abc");
                assert_eq!(c.body, "New");
            }
            _ => panic!("expected the updated item"),
        }
    }
    let reply = d.handle_delete_one::<Content, ContentPayload, Content>(&id);
    assert_eq!(reply.response.status(), 204);
    assert!(matches!(reply.response, ApiResponse::NoContent));
}

#[test]
fn registered_routes_follow_the_table() {
    let d = content_endpoint(&["read_one", "create_one", "delete_many"]);
    assert_eq!(d.get_name(), "x");
    assert_eq!(d.get_path(), "/x");
    assert_eq!(d.get_path_with_id(), "/x/{id}");
    let routes = d.routes();
    let got: Vec<(Routes, HttpMethod, String, bool)> =
        routes.into_iter().map(|r| (r.operation, r.method, r.path, r.enabled)).collect();
    assert_eq!(
        got,
        vec![
            (Routes::CreateOne, HttpMethod::Post, "/x".to_string(), true),
            (Routes::ReadOne, HttpMethod::Get, "/x/{id}".to_string(), true),
            (Routes::ReadMany, HttpMethod::Get, "/x".to_string(), false),
            (Routes::UpdateOne, HttpMethod::Patch, "/x/{id}".to_string(), false),
            (Routes::ReplaceOne, HttpMethod::Put, "/x/{id}".to_string(), false),
            (Routes::DeleteOne, HttpMethod::Delete, "/x/{id}".to_string(), false),
        ]
    );
}

#[test]
fn outcome_mapping() {
    assert_eq!(respond_created::<u8>(Ok(1)).status(), 201);
    assert_eq!(respond_created::<u8>(Err(Error::Example)).status(), 500);
    assert!(matches!(respond_read_one::<u8>("x", "1", Ok(Some(7))), ApiResponse::Success(7)));
    assert_eq!(respond_read_one::<u8>("x", "1", Ok(None)).status(), 404);
    assert_eq!(respond_read_one::<u8>("x", "1", Err(Error::Unknown)).status(), 500);
    assert_eq!(respond_value::<u8>(Ok(3)).status(), 200);
    assert_eq!(respond_deleted::<u8>(Ok(())).status(), 204);
    assert_eq!(respond_deleted::<u8>(Err(Error::Unknown)).status(), 500);
    assert_eq!(respond_disabled::<u8>().status(), 404);
    assert_eq!(ApiResponse::Custom(418, 0u8).status(), 418);
}

#[test]
fn build_rejects_unknown_operation_before_fields() {
    let allow = vec!["read_single".to_string()];
    let r = build_endpoint("X", &StructFields::Unit, &allow);
    assert!(matches!(r, Err(lily_cms::errors::BuildError::UnknownOperation(ref n)) if n == "read_single"));
    let r = build_endpoint("X", &StructFields::Unit, &Vec::new());
    assert!(matches!(r, Err(lily_cms::errors::BuildError::UnnamedFields)));
}

#[test]
fn content_endpoint_serves_every_operation() {
    let d = Content::endpoint().unwrap();
    assert_eq!(d.name, "Content");
    assert_eq!(d.get_name(), "content");
    assert!(d.routes().iter().all(|r| r.enabled));
    let c = Content::new();
    assert_eq!(c.id, "86e4fc36-7ce7-4d22-b5a0-5bd819804cce");
    let e = Content::invalid();
    assert!(e.id.is_empty() && e.body.is_empty() && e.summary.is_none());
}

#[test]
fn content_capabilities() {
    let c = <Content as Repository<Content, ContentPayload>>::read_one(&"abc".to_string())
        .unwrap()
        .unwrap();
    assert_eq!(c.id, "abc");
    assert_eq!(c.title, "Lorem Ipsum");
    assert!(<Content as Repository<Content, ContentPayload>>::read_one(&"unknown".to_string())
        .unwrap()
        .is_none());
    let all = <Content as Repository<Content, ContentPayload>>::read_all().unwrap();
    assert_eq!(all.len(), 4);
    assert!(all.iter().all(|c| c.id == lily_cms::content::SAMPLE_ID));
    let u = <Content as Repository<Content, ContentPayload>>::update_one(&"k".to_string(), &payload("B"))
        .unwrap();
    assert_eq!((u.id.as_str(), u.body.as_str()), ("k", "B"));
    assert!(<Content as Repository<Content, ContentPayload>>::delete_one(&"k".to_string()).is_ok());
}
