use todo_api::error::Error;
use todo_api::extractors::{JsonExtractor, Path};
use todo_api::handlers::{
    create_todo_request, delete_todo_request, deleted_response, get_todo_request,
    list_todos_request, todo_response, todos_response, update_todo_request, Response,
    ResponseBody,
};
use todo_api::model::{FieldViolation, Todo, TodoInput, TodoState};
use todo_api::todo_store::inmemory::InMemoryTodoStore;
use todo_api::use_cases::{TodoInputPort, TodoService};

fn body(text: &str, state: TodoState) -> Result<TodoInput, String> {
    Ok(TodoInput { text: text.to_owned(), state })
}

fn length_violation() -> Vec<FieldViolation> {
    vec![FieldViolation {
        field: "text".to_owned(),
        message: "Can not be empty or longer then 200 characters".to_owned(),
    }]
}

#[test]
fn buy_milk_scenario() {
    let mut service = TodoService::new(InMemoryTodoStore::new());
    let created = create_todo_request(&mut service, body("Buy milk", TodoState::Opened));
    let expected = Todo { id: 2, text: "Buy milk".to_owned(), state: TodoState::Opened };
    assert_eq!(
        todo_response(&created),
        Response { status: 200, body: ResponseBody::Todo(expected.clone()) }
    );

    let fetched = get_todo_request(&service, "2");
    assert_eq!(
        todo_response(&fetched),
        Response { status: 200, body: ResponseBody::Todo(expected) }
    );

    let deleted = delete_todo_request(&mut service, "2");
    assert_eq!(deleted_response(&deleted), Response { status: 204, body: ResponseBody::Empty });

    let missing = todo_response(&get_todo_request(&service, "2"));
    assert_eq!(missing.status, 404);
    match missing.body {
        ResponseBody::Problem(p) => {
            assert_eq!(p.error_code, "error.entity.not-found");
            assert_eq!(p.type_url, "type://error.entity.not-found");
        }
        other => panic!("expected a problem document, got {:?}", other),
    }
}

#[test]
fn empty_text_is_refused_before_the_store() {
    let mut service = TodoService::new(InMemoryTodoStore::new());
    let r = create_todo_request(&mut service, body("", TodoState::Opened));
    assert_eq!(r, Err(Error::Validator(length_violation())));
    assert_eq!(todo_response(&r).status, 400);
    assert!(service.list_todos().unwrap().is_empty());
}

#[test]
fn text_over_limit_is_refused_before_the_store() {
    let mut service = TodoService::new(InMemoryTodoStore::new());
    let long = "x".repeat(201);
    let r = create_todo_request(&mut service, body(&long, TodoState::Opened));
    assert_eq!(r, Err(Error::Validator(length_violation())));
    assert!(service.list_todos().unwrap().is_empty());
    let t = create_todo_request(&mut service, body("keep", TodoState::Opened)).unwrap();
    let u = update_todo_request(&mut service, "2", body(&long, TodoState::Closed));
    assert_eq!(u, Err(Error::Validator(length_violation())));
    assert_eq!(service.get_todo(t.id).unwrap(), t);
}

#[test]
fn text_at_limits_is_accepted() {
    let mut service = TodoService::new(InMemoryTodoStore::new());
    assert!(create_todo_request(&mut service, body("a", TodoState::Opened)).is_ok());
    let wide = "é".repeat(200);
    let t = create_todo_request(&mut service, body(&wide, TodoState::Closed)).unwrap();
    assert_eq!(t.text, wide);
    assert_eq!(service.list_todos().unwrap().len(), 2);
}

#[test]
fn unparsable_body_is_invalid_body() {
    let mut service = TodoService::new(InMemoryTodoStore::new());
    let r = create_todo_request(&mut service, Err("expected value at line 1".to_owned()));
    assert_eq!(r, Err(Error::JSONExtractor("expected value at line 1".to_owned())));
    let resp = todo_response(&r);
    assert_eq!(resp.status, 400);
    match resp.body {
        ResponseBody::Problem(p) => {
            assert_eq!(p.error_code, "error.payload.invalid");
            assert_eq!(p.detail, Some("expected value at line 1".to_owned()));
        }
        other => panic!("expected a problem document, got {:?}", other),
    }
    assert!(service.list_todos().unwrap().is_empty());
}

#[test]
fn bad_path_is_invalid_path() {
    let mut service = TodoService::new(InMemoryTodoStore::new());
    let r = get_todo_request(&service, "abc");
    assert_eq!(
        r,
        Err(Error::PathExtractor("Invalid URL: Cannot parse `\"abc\"` to a `u32`".to_owned()))
    );
    assert_eq!(todo_response(&r).status, 400);
    assert!(delete_todo_request(&mut service, "-1").is_err());
    assert!(update_todo_request(&mut service, "4294967296", body("x", TodoState::Opened)).is_err());
}

#[test]
fn update_through_pipeline() {
    let mut service = TodoService::new(InMemoryTodoStore::new());
    create_todo_request(&mut service, body("first", TodoState::Opened)).unwrap();
    let u = update_todo_request(&mut service, "+2", body("second", TodoState::Closed)).unwrap();
    assert_eq!(u, Todo { id: 2, text: "second".to_owned(), state: TodoState::Closed });
    let missing = update_todo_request(&mut service, "9", body("x", TodoState::Closed));
    assert_eq!(todo_response(&missing).status, 404);
}

#[test]
fn list_through_pipeline() {
    let mut service = TodoService::new(InMemoryTodoStore::new());
    let a = create_todo_request(&mut service, body("a", TodoState::Opened)).unwrap();
    let resp = todos_response(list_todos_request(&service));
    assert_eq!(resp, Response { status: 200, body: ResponseBody::Todos(vec![a]) });
}

#[test]
fn delete_missing_through_pipeline_is_404() {
    let mut service = TodoService::new(InMemoryTodoStore::new());
    let r = delete_todo_request(&mut service, "3");
    assert_eq!(deleted_response(&r).status, 404);
}

#[test]
fn extractors_directly() {
    assert_eq!(Path::<u32>::from_segment("17").unwrap().0, 17);
    assert!(Path::<u32>::from_segment("").is_err());
    let ok = JsonExtractor::<TodoInput>::from_parsed(body("fine", TodoState::Opened)).unwrap();
    assert_eq!(ok.0.text, "fine");
}
