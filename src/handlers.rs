use vstd::prelude::*;

use crate::decimal::unsigned_value;
use crate::error::{is_problem_of, is_todo_not_found, status_of, Error, Problem};
use crate::extractors::{is_u32_segment, path_rejection_text, JsonExtractor, Path};
use crate::model::{todo_from_input, violations_of, violations_view, Todo, TodoInput};
use crate::use_cases::{
    can_create, created, has_id, ids_unique, lookup, rows_after_create, rows_after_delete,
    rows_after_update, TodoInputPort,
};

verus! {

/// What a response carries in its body.
#[derive(Clone, Debug, PartialEq)]
pub enum ResponseBody {
    /// One todo as JSON.
    Todo(Todo),
    /// A JSON array of todos.
    Todos(Vec<Todo>),
    /// A problem document.
    Problem(Problem),
    /// No body at all.
    Empty,
}

/// A response: its status and its body.
#[derive(Clone, Debug, PartialEq)]
pub struct Response {
    pub status: u16,
    pub body: ResponseBody,
}

/// Whether a response answers an error: its status, and its problem document.
pub open spec fn answers_error(r: Response, e: Error) -> bool {
    &&& r.status == status_of(e)
    &&& (r.body matches ResponseBody::Problem(p) && is_problem_of(p, e))
}

/// Whether an error is the refusal of a path segment that is not a `u32`.
pub open spec fn is_path_refusal(e: Error, raw: Seq<char>) -> bool {
    e matches Error::PathExtractor(m) && m@ == path_rejection_text(raw)
}

/// Whether an error is the refusal of a body that did not parse, or broke a field rule.
pub open spec fn is_body_refusal(e: Error, body: Result<TodoInput, String>) -> bool {
    match body {
        Err(m) => e == Error::JSONExtractor(m),
        Ok(input) => e matches Error::Validator(v) && violations_view(v@) == violations_of(input),
    }
}

/// Whether a parsed body is fit to reach the use cases.
pub open spec fn body_accepted(body: Result<TodoInput, String>) -> bool {
    body matches Ok(input) && violations_of(input).len() == 0
}

/// The answer to an error.
pub fn error_response(e: &Error) -> (r: Response)
    ensures
        answers_error(r, *e),
{
    Response { status: e.status_code(), body: ResponseBody::Problem(Problem::from_error(e)) }
}

/// A todo, or the error met instead, as a response: 200 with the todo as JSON.
pub fn todo_response(result: &Result<Todo, Error>) -> (r: Response)
    ensures
        *result matches Ok(t) ==> r == (Response { status: 200, body: ResponseBody::Todo(t) }),
        *result matches Err(e) ==> answers_error(r, e),
{
    match result {
        Ok(t) => Response { status: 200, body: ResponseBody::Todo(t.duplicate()) },
        Err(e) => error_response(e),
    }
}

/// A list of todos, or the error met instead, as a response: 200 with a JSON array.
pub fn todos_response(result: Result<Vec<Todo>, Error>) -> (r: Response)
    ensures
        result matches Ok(v) ==> r == (Response { status: 200, body: ResponseBody::Todos(v) }),
        result matches Err(e) ==> answers_error(r, e),
{
    match result {
        Ok(v) => Response { status: 200, body: ResponseBody::Todos(v) },
        Err(e) => error_response(&e),
    }
}

/// The outcome of a delete as a response: 204 with no body.
pub fn deleted_response(result: &Result<(), Error>) -> (r: Response)
    ensures
        *result is Ok ==> r == (Response { status: 204, body: ResponseBody::Empty }),
        *result matches Err(e) ==> answers_error(r, e),
{
    match result {
        Ok(()) => Response { status: 204, body: ResponseBody::Empty },
        Err(e) => error_response(e),
    }
}

/// Lists every todo.
pub fn list_todos_request<P: TodoInputPort>(port: &P) -> (r: Result<Vec<Todo>, Error>)
    requires
        ids_unique(port.rows()),
    ensures
        r matches Ok(v) && v@ == port.rows(),
{
    port.list_todos()
}

/// Reads the id in the path, then looks the todo up.
pub fn get_todo_request<P: TodoInputPort>(port: &P, raw_id: &str) -> (r: Result<Todo, Error>)
    requires
        ids_unique(port.rows()),
    ensures
        !is_u32_segment(raw_id@) ==> (r matches Err(e) && is_path_refusal(e, raw_id@)),
        is_u32_segment(raw_id@) ==> ({
            let id = unsigned_value(raw_id@) as u32;
            &&& r is Ok <==> has_id(port.rows(), id)
            &&& r matches Ok(t) ==> Some(t) == lookup(port.rows(), id)
            &&& r matches Err(e) ==> is_todo_not_found(e, id)
        }),
{
    let Path(id) = Path::<u32>::from_segment(raw_id)?;
    port.get_todo(id)
}

/// Checks the body, then creates a todo from it; a refused body never reaches the store.
pub fn create_todo_request<P: TodoInputPort>(port: &mut P, body: Result<TodoInput, String>) -> (r:
    Result<Todo, Error>)
    requires
        ids_unique(old(port).rows()),
    ensures
        ids_unique(final(port).rows()),
        !body_accepted(body) ==> final(port).rows() == old(port).rows(),
        !body_accepted(body) ==> (r matches Err(e) && is_body_refusal(e, body)),
        body_accepted(body) ==> ({
            let input = body->Ok_0;
            &&& final(port).rows() == rows_after_create(old(port).rows(), input)
            &&& r is Ok <==> can_create(old(port).rows())
            &&& r matches Ok(t) ==> t == created(old(port).rows(), input)
        }),
{
    let JsonExtractor(input) = match JsonExtractor::<TodoInput>::from_parsed(body) {
        Ok(j) => j,
        Err(e) => return Err(e),
    };
    port.create_todo(input)
}

/// Reads the id in the path and checks the body, then replaces that todo's text and state.
pub fn update_todo_request<P: TodoInputPort>(
    port: &mut P,
    raw_id: &str,
    body: Result<TodoInput, String>,
) -> (r: Result<Todo, Error>)
    requires
        ids_unique(old(port).rows()),
    ensures
        ids_unique(final(port).rows()),
        !is_u32_segment(raw_id@) ==> final(port).rows() == old(port).rows(),
        !is_u32_segment(raw_id@) ==> (r matches Err(e) && is_path_refusal(e, raw_id@)),
        is_u32_segment(raw_id@) && !body_accepted(body) ==> final(port).rows() == old(port).rows(),
        is_u32_segment(raw_id@) && !body_accepted(body) ==> (r matches Err(e) && is_body_refusal(
            e,
            body,
        )),
        is_u32_segment(raw_id@) && body_accepted(body) ==> ({
            let id = unsigned_value(raw_id@) as u32;
            let input = body->Ok_0;
            &&& final(port).rows() == rows_after_update(old(port).rows(), id, input)
            &&& r is Ok <==> has_id(old(port).rows(), id)
            &&& r matches Ok(t) ==> t == todo_from_input(id, input)
            &&& r matches Err(e) ==> is_todo_not_found(e, id)
        }),
{
    let Path(id) = match Path::<u32>::from_segment(raw_id) {
        Ok(p) => p,
        Err(e) => return Err(e),
    };
    let JsonExtractor(input) = match JsonExtractor::<TodoInput>::from_parsed(body) {
        Ok(j) => j,
        Err(e) => return Err(e),
    };
    port.update_todo(id, input)
}

/// Reads the id in the path, then removes that todo.
pub fn delete_todo_request<P: TodoInputPort>(port: &mut P, raw_id: &str) -> (r: Result<(), Error>)
    requires
        ids_unique(old(port).rows()),
    ensures
        ids_unique(final(port).rows()),
        !is_u32_segment(raw_id@) ==> final(port).rows() == old(port).rows(),
        !is_u32_segment(raw_id@) ==> (r matches Err(e) && is_path_refusal(e, raw_id@)),
        is_u32_segment(raw_id@) ==> ({
            let id = unsigned_value(raw_id@) as u32;
            &&& final(port).rows() == rows_after_delete(old(port).rows(), id)
            &&& r is Ok <==> has_id(old(port).rows(), id)
            &&& r matches Err(e) ==> is_todo_not_found(e, id)
        }),
{
    let Path(id) = match Path::<u32>::from_segment(raw_id) {
        Ok(p) => p,
        Err(e) => return Err(e),
    };
    port.delete_todo(id)
}

} // verus!
