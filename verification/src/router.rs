//! The route table and the two handlers behind it.
//!
//! A request is known by its method token (`GET`, `POST`, ...; case matters)
//! and by the path of its target, without the query. Nothing else of it is
//! read, and nothing is kept from one request to the next.

use vstd::prelude::*;
use vstd::string::StringExecFns;
use crate::health::{health, lemma_health_json, Health, Status};
use crate::response::{ContentType, Response, ResponseView};
use crate::text::str_eq;

verus! {

/// Where a request is sent.
#[derive(Clone, Copy, Debug, PartialEq, Eq, Structural)]
pub enum Route {
    /// The greeting.
    Root,
    /// The health check.
    Health,
    /// No handler: the path is unknown, or the method is not `GET`.
    NotFound,
}

/// The route table: `GET /` and `GET /health`, and nothing else.
pub open spec fn route_of(method: Seq<char>, path: Seq<char>) -> Route {
    if method == "GET"@ && path == "/"@ {
        Route::Root
    } else if method == "GET"@ && path == "/health"@ {
        Route::Health
    } else {
        Route::NotFound
    }
}

/// What is sent back for each route.
pub open spec fn response_of(route: Route) -> ResponseView {
    match route {
        Route::Root => ResponseView {
            status: 200,
            content_type: Some(ContentType::TextPlain),
            body: "Hello from Axum!"@,
        },
        Route::Health => ResponseView {
            status: 200,
            content_type: Some(ContentType::Json),
            body: "{\"status\":\"ok\"}"@,
        },
        Route::NotFound => ResponseView { status: 404, content_type: None, body: Seq::empty() },
    }
}

/// The response to a request: a function of its method and path alone.
pub open spec fn response_for(method: Seq<char>, path: Seq<char>) -> ResponseView {
    response_of(route_of(method, path))
}

/// Finds the handler for a request.
pub fn route(method: &str, path: &str) -> (found: Route)
    ensures
        found == route_of(method@, path@),
{
    if !str_eq(method, "GET") {
        Route::NotFound
    } else if str_eq(path, "/") {
        Route::Root
    } else if str_eq(path, "/health") {
        Route::Health
    } else {
        Route::NotFound
    }
}

/// The root handler: a fixed greeting.
pub fn root() -> (greeting: &'static str)
    ensures
        greeting@ == "Hello from Axum!"@,
{
    "Hello from Axum!"
}

/// Runs the handler of `route` and wraps what it gives into a response.
pub fn dispatch(route: Route) -> (response: Response)
    ensures
        response@ == response_of(route),
{
    match route {
        Route::Root => Response {
            status: 200,
            content_type: Some(ContentType::TextPlain),
            body: String::from_str(root()),
        },
        Route::Health => {
            let payload = health();
            proof {
                lemma_health_json();
            }
            Response {
                status: 200,
                content_type: Some(ContentType::Json),
                body: payload.to_json(),
            }
        },
        Route::NotFound => Response { status: 404, content_type: None, body: String::new() },
    }
}

/// Answers a request.
pub fn respond(method: &str, path: &str) -> (response: Response)
    ensures
        response@ == response_for(method@, path@),
{
    dispatch(route(method, path))
}

/// A `GET` of `/` is answered with status 200 and the greeting, as plain text.
pub proof fn lemma_root_greets(method: Seq<char>, path: Seq<char>)
    requires
        method == "GET"@,
        path == "/"@,
    ensures
        response_for(method, path).status == 200,
        response_for(method, path).content_type == Some(ContentType::TextPlain),
        response_for(method, path).body == "Hello from Axum!"@,
{
}

/// A `GET` of `/health` is answered with status 200 and, as JSON, the text of
/// the healthy payload: `{"status":"ok"}`, one member and no other.
pub proof fn lemma_health_reports_ok(method: Seq<char>, path: Seq<char>)
    requires
        method == "GET"@,
        path == "/health"@,
    ensures
        response_for(method, path).status == 200,
        response_for(method, path).content_type == Some(ContentType::Json),
        response_for(method, path).body == "{\"status\":\"ok\"}"@,
        response_for(method, path).body == (Health { status: Status::Healthy }).json(),
{
    reveal_strlit("/");
    reveal_strlit("/health");
    assert("/"@.len() != "/health"@.len());
    lemma_health_json();
}

/// Any path but `/` and `/health` is answered with status 404 and an empty
/// body, whatever the method.
pub proof fn lemma_unknown_path_not_found(method: Seq<char>, path: Seq<char>)
    requires
        path != "/"@,
        path != "/health"@,
    ensures
        response_for(method, path).status == 404,
        response_for(method, path).content_type.is_none(),
        response_for(method, path).body.len() == 0,
{
}

/// A request is answered with status 200 exactly when it is a `GET` of one of
/// the two known paths; every other request is answered with 404.
pub proof fn lemma_status_is_200_or_404(method: Seq<char>, path: Seq<char>)
    ensures
        response_for(method, path).status == 200 <==> {
            &&& method == "GET"@
            &&& (path == "/"@ || path == "/health"@)
        },
        response_for(method, path).status == 200 || response_for(method, path).status == 404,
{
}

/// The responses to a run of requests, each a pair of method and path, in the
/// order of the requests.
pub open spec fn responses_to(requests: Seq<(Seq<char>, Seq<char>)>) -> Seq<ResponseView>
    decreases requests.len(),
{
    if requests.len() == 0 {
        Seq::empty()
    } else {
        responses_to(requests.drop_last()).push(
            response_for(requests.last().0, requests.last().1),
        )
    }
}

/// No request leaves a trace: in any run of requests, each is answered as it
/// would be alone, whatever came before it and whatever comes after.
pub proof fn lemma_responses_independent(requests: Seq<(Seq<char>, Seq<char>)>, i: int)
    requires
        0 <= i < requests.len(),
    ensures
        responses_to(requests).len() == requests.len(),
        responses_to(requests)[i] == response_for(requests[i].0, requests[i].1),
    decreases requests.len(),
{
    lemma_responses_len(requests);
    if i < requests.len() - 1 {
        lemma_responses_independent(requests.drop_last(), i);
    }
}

/// A run of requests gets as many responses as it has requests.
pub proof fn lemma_responses_len(requests: Seq<(Seq<char>, Seq<char>)>)
    ensures
        responses_to(requests).len() == requests.len(),
    decreases requests.len(),
{
    if requests.len() > 0 {
        lemma_responses_len(requests.drop_last());
    }
}

} // verus!
