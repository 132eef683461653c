use vstd::prelude::*;

use crate::errors::{load_error_message, LoadError};
use crate::model::{is_first_match, no_match, Expectation, HttpMethod, HttpResponse, IncomingRequest};
use crate::pipeline::{compiled_batch, ADMIN_SOURCE};
use crate::store::State;

verus! {

/// A response to send back: status, body and headers.
#[derive(Debug, Clone, PartialEq)]
pub struct Reply {
    pub status: u16,
    pub body: String,
    pub headers: Vec<(String, String)>,
}

pub open spec fn template_status(t: HttpResponse) -> u16 {
    match t.status_code {
        Some(c) => c,
        None => 200,
    }
}

pub open spec fn template_body(t: HttpResponse) -> Seq<char> {
    match t.body {
        Some(b) => b@,
        None => Seq::empty(),
    }
}

/// `r` is the response that template `t` describes.
pub open spec fn is_reply_for(r: Reply, t: HttpResponse) -> bool {
    &&& r.status == template_status(t)
    &&& r.body@ == template_body(t)
    &&& r.headers@ == t.headers@
}

pub open spec fn is_not_found(r: Reply) -> bool {
    &&& r.status == 404
    &&& r.body@ == "404 NotFound"@
    &&& r.headers@.len() == 0
}

pub open spec fn is_plain(r: Reply, status: u16, body: Seq<char>) -> bool {
    &&& r.status == status
    &&& r.body@ == body
    &&& r.headers@.len() == 0
}

fn copy_pairs(v: &Vec<(String, String)>) -> (r: Vec<(String, String)>)
    ensures
        r@ == v@,
{
    let mut r: Vec<(String, String)> = Vec::new();
    let mut i: usize = 0;
    while i < v.len()
        invariant
            i <= v.len(),
            r@ == v@.subrange(0, i as int),
        decreases v.len() - i,
    {
        r.push((v[i].0.clone(), v[i].1.clone()));
        assert(r@ =~= v@.subrange(0, i + 1));
        i += 1;
    }
    assert(r@ =~= v@);
    r
}

/// The answer to a request that nothing matches.
pub fn not_found_response() -> (r: Reply)
    ensures
        is_not_found(r),
{
    Reply { status: 404, body: String::from_str("404 NotFound"), headers: Vec::new() }
}

impl Reply {
    /// The response of a template: its status or 200, its body or nothing,
    /// and its headers as they are.
    pub fn from_template(t: &HttpResponse) -> (r: Reply)
        ensures
            is_reply_for(r, *t),
    {
        let status = match t.status_code {
            Some(c) => c,
            None => 200,
        };
        let body = match &t.body {
            Some(b) => b.clone(),
            None => String::new(),
        };
        Reply { status, body, headers: copy_pairs(&t.headers) }
    }
}

/// The mock endpoint's answer to `req`: the response of the first stored
/// expectation that matches it, else the not-found response.
pub fn mock_response(state: &State, req: &IncomingRequest) -> (r: Reply)
    ensures
        (exists|i: int| is_first_match(state@, req, i) && is_reply_for(r, state@[i].response)) || (
        no_match(state@, req) && is_not_found(r)),
{
    match state.first_match(req) {
        Some(i) => {
            let e: &Expectation = &state.snapshot()[i];
            Reply::from_template(&e.response)
        },
        None => not_found_response(),
    }
}

/// The routes of the admin endpoint.
#[derive(Debug, Clone, Copy, PartialEq, Eq, Structural)]
pub enum AdminRoute {
    Health,
    ListExpectations,
    AddExpectations,
    NotFound,
}

pub open spec fn admin_route_of(method: HttpMethod, path: Seq<char>) -> AdminRoute {
    if method == HttpMethod::GET && path == "/health"@ {
        AdminRoute::Health
    } else if method == HttpMethod::GET && path == "/expectations"@ {
        AdminRoute::ListExpectations
    } else if method == HttpMethod::POST && path == "/expectations"@ {
        AdminRoute::AddExpectations
    } else {
        AdminRoute::NotFound
    }
}

/// Which admin route a request with this method and path asks for.
pub fn admin_route(method: HttpMethod, path: &String) -> (r: AdminRoute)
    ensures
        r == admin_route_of(method, path@),
{
    let health = String::from_str("/health");
    let expectations = String::from_str("/expectations");
    if method == HttpMethod::GET && *path == health {
        AdminRoute::Health
    } else if method == HttpMethod::GET && *path == expectations {
        AdminRoute::ListExpectations
    } else if method == HttpMethod::POST && *path == expectations {
        AdminRoute::AddExpectations
    } else {
        AdminRoute::NotFound
    }
}

/// The answer to a liveness probe.
pub fn health_response() -> (r: Reply)
    ensures
        is_plain(r, 200, Seq::empty()),
{
    Reply { status: 200, body: String::new(), headers: Vec::new() }
}

/// The admin endpoint's answer to a submission that ended with `outcome`:
/// 201 with no body, or 400 with the error chain.
pub fn admin_post_response(outcome: &Result<(), LoadError>) -> (r: Reply)
    ensures
        match outcome {
            Ok(()) => is_plain(r, 201, Seq::empty()),
            Err(e) => is_plain(r, 400, load_error_message(*e)),
        },
{
    match outcome {
        Ok(()) => Reply { status: 201, body: String::new(), headers: Vec::new() },
        Err(e) => Reply { status: 400, body: e.message(), headers: Vec::new() },
    }
}

/// Submits configuration posted to the admin endpoint, given what the
/// compiler made of it: a compiled batch is appended whole, a failure leaves
/// the store as it was.
pub fn admin_post(state: &mut State, compiled: Result<Vec<Expectation>, String>) -> (r: Reply)
    ensures
        match compiled {
            Ok(batch) => final(state)@ == old(state)@ + batch@ && is_plain(r, 201, Seq::empty()),
            Err(cause) => final(state)@ == old(state)@ && is_plain(
                r,
                400,
                "Error compiling "@ + ADMIN_SOURCE@ + ": "@ + cause@,
            ),
        },
{
    let outcome = match compiled_batch(ADMIN_SOURCE, compiled) {
        Ok(batch) => {
            state.add_expectations(batch);
            Ok(())
        },
        Err(e) => Err(e),
    };
    admin_post_response(&outcome)
}

} // verus!
