//! The decisions of the HTTP endpoints.
//!
//! Each request is answered on its own: there is no state but the store.
//! `GET /health` is answered at once. `POST /todo` and `GET /todo` start an
//! operation of the service, whose outcome `respond` turns into the status
//! and the payload of the response. Reading bytes from the wire, running
//! statements and writing bytes are left to the caller.

use vstd::prelude::*;
use vstd::string::StringExecFns;
use crate::error::ServiceError;
use crate::record::{RegisterTodo, Row, TodoList};
use crate::service::{create, create_step, list, list_step, outcome_view, run_step, Step, StepView};
use crate::task_id::is_random_v4;
use crate::timestamp::CivilTime;

verus! {

/// The payload of a response.
#[derive(Debug)]
pub enum Body {
    /// No payload.
    Empty,
    /// Plain text.
    Text(String),
    /// Todo items, to be written as a JSON array.
    Json(TodoList),
}

/// The answer to a request.
#[derive(Debug)]
pub struct Response {
    pub status: u16,
    pub body: Body,
}

/// Whether `response` answers an operation that ended with `outcome`: the
/// list under status 200, or the status of the failure and no payload.
pub open spec fn response_to(outcome: Result<TodoList, ServiceError>, response: Response) -> bool {
    match outcome {
        Ok(todos) => response.status == 200 && response.body == Body::Json(todos),
        Err(e) => response.status == e.spec_status_code() && response.body == Body::Empty,
    }
}

/// Turns the outcome of an operation into a response.
pub fn respond(outcome: Result<TodoList, ServiceError>) -> (response: Response)
    ensures
        response_to(outcome, response),
{
    match outcome {
        Ok(todos) => Response { status: 200, body: Body::Json(todos) },
        Err(e) => Response { status: e.status_code(), body: Body::Empty },
    }
}

/// `GET /health`: always status 200 and the text `OK`. Nothing is put to
/// the store.
pub fn hc() -> (response: Response)
    ensures
        response.status == 200,
        response.body matches Body::Text(text) && text@ == "OK"@,
{
    Response { status: 200, body: Body::Text(String::from_str("OK")) }
}

/// `POST /todo`. `req` is the decoded body, `None` where the body was not
/// valid JSON or held no text under `description`.
///
/// Without a body the request ends at once as a bad request, and nothing is
/// put to the store. With one, a todo item of that description is created;
/// the outcome of the creation is a list of the one item that was read back.
pub fn register_todo(req: Option<RegisterTodo>) -> (step: Step)
    ensures
        req is None ==> step@ == StepView::Done(Err(ServiceError::BadRequest)),
        req is Some ==> step@ == StepView::Done(Err(ServiceError::StorageFailure)) || exists|
            id: u128,
            now: CivilTime,
        |
            is_random_v4(id) && now.is_valid() && step@ == create_step(
                id,
                req->Some_0.description@,
                now,
            ),
{
    match req {
        None => Step::Done(Err(ServiceError::BadRequest)),
        Some(body) => create(body.description),
    }
}

/// `POST /todo` without a description, run on any table: the answer is
/// status 400 with no payload, and the table is left as it was, so that no
/// row is inserted.
pub proof fn lemma_post_without_description(
    rows: Seq<Row>,
    outcome: Result<TodoList, ServiceError>,
    after: Seq<Row>,
    response: Response,
)
    requires
        (outcome_view(outcome), after) == run_step(
            StepView::Done(Err(ServiceError::BadRequest)),
            rows,
        ),
        response_to(outcome, response),
    ensures
        response.status == 400,
        response.body == Body::Empty,
        after == rows,
{
}

/// `GET /todo`: every todo item, in the order of the store.
pub fn list_todo() -> (step: Step)
    ensures
        step@ == list_step(),
{
    list()
}

} // verus!
