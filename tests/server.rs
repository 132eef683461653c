use dhall_mock::cli::{load_cli_args, CliOpt};
use dhall_mock::dispatch::{
    admin_post, admin_post_response, admin_route, health_response, mock_response, not_found_response,
    AdminRoute, Reply,
};
use dhall_mock::display::{decimal_text, display_expectations};
use dhall_mock::errors::LoadError;
use dhall_mock::lifecycle::{next_phase, run_outcome, ListenerEvent, ListenerPhase, RunOutcome};
use dhall_mock::model::{
    find_header, first_match_index, param_present, Expectation, HttpMethod, HttpRequest, HttpResponse,
    IncomingRequest, RequestBody,
};
use dhall_mock::pipeline::{compiled_batch, ADMIN_SOURCE};
use dhall_mock::query::{group_params, parse_query_params};
use dhall_mock::store::State;

fn greet(path: &str, status: Option<u16>, body: Option<&str>) -> Expectation {
    Expectation {
        request: HttpRequest {
            method: Some(HttpMethod::GET),
            path: Some(String::from(path)),
            body: None,
            params: vec![],
            headers: vec![],
        },
        response: HttpResponse {
            status_code: status,
            status_reason: None,
            body: body.map(String::from),
            headers: vec![],
        },
    }
}

fn request(method: HttpMethod, path: &str, body: &str) -> IncomingRequest {
    IncomingRequest {
        method,
        path: String::from(path),
        body: String::from(body),
        headers: vec![],
        params: vec![],
    }
}

fn pwet_store() -> State {
    let mut state = State::new();
    state.add_expectations(vec![greet("/greet/pwet", Some(200), Some("Hello, pwet !"))]);
    state
}

#[test]
fn empty_store_answers_not_found() {
    let state = State::new();
    let reply = mock_response(&state, &request(HttpMethod::GET, "/anything", ""));
    assert_eq!(reply.status, 404);
    assert_eq!(reply.body, "404 NotFound");
    assert!(reply.headers.is_empty());
}

#[test]
fn matching_expectation_gives_its_response() {
    let state = pwet_store();
    let reply = mock_response(&state, &request(HttpMethod::GET, "/greet/pwet", ""));
    assert_eq!(reply.status, 200);
    assert_eq!(reply.body, "Hello, pwet !");
}

#[test]
fn method_mismatch_answers_not_found() {
    let state = pwet_store();
    let reply = mock_response(&state, &request(HttpMethod::POST, "/greet/pwet", ""));
    assert_eq!(reply.status, 404);
}

#[test]
fn different_json_body_answers_not_found() {
    let mut e = greet("/greet/pwet", Some(200), Some("Hello, pwet !"));
    e.request.body = Some(RequestBody::JSON { json: String::from("{\"maxime\":\"carpe diem.\"}") });
    let mut state = State::new();
    state.add_expectations(vec![e]);
    let miss = request(HttpMethod::GET, "/greet/pwet", "{\"maxime\": \"this is not carpe diem.\"}");
    assert_eq!(mock_response(&state, &miss).status, 404);
    let hit = request(HttpMethod::GET, "/greet/pwet", "{ \"maxime\" : \"carpe diem.\" }");
    assert_eq!(mock_response(&state, &hit).status, 200);
}

#[test]
fn json_pattern_does_not_match_malformed_body() {
    let mut e = greet("/x", None, None);
    e.request.body = Some(RequestBody::JSON { json: String::from("{\"a\":1}") });
    assert!(!e.test(&request(HttpMethod::GET, "/x", "{\"a\":")));
    assert!(e.test(&request(HttpMethod::GET, "/x", "{\"a\": 1}")));
}

#[test]
fn failed_admin_post_leaves_store_unchanged() {
    let mut state = pwet_store();
    let reply = admin_post(&mut state, Err(String::from("unexpected token")));
    assert_eq!(reply.status, 400);
    assert_eq!(reply.body, "Error compiling POST web configuration: unexpected token");
    assert_eq!(state.len(), 1);
}

#[test]
fn admin_post_adds_the_expectation_once() {
    let mut state = State::new();
    let toto = greet("/greet/toto", Some(201), Some("Hello, toto ! Ca vient du web"));
    let reply = admin_post(&mut state, Ok(vec![toto.clone()]));
    assert_eq!(reply.status, 201);
    assert_eq!(reply.body, "");
    let listed = state.snapshot();
    assert_eq!(listed.iter().filter(|e| **e == toto).count(), 1);
}

#[test]
fn unconstrained_method_matches_every_method() {
    let e = Expectation {
        request: HttpRequest { method: None, path: Some(String::from("/p")), body: None, params: vec![], headers: vec![] },
        response: greet("/p", None, None).response,
    };
    for m in [HttpMethod::CONNECT, HttpMethod::DELETE, HttpMethod::GET, HttpMethod::HEAD, HttpMethod::OPTIONS,
              HttpMethod::PATCH, HttpMethod::POST, HttpMethod::PUT, HttpMethod::TRACE] {
        assert!(e.test(&request(m, "/p", "")));
        assert!(!e.test(&request(m, "/q", "")));
    }
}

#[test]
fn first_matching_expectation_wins() {
    let first = greet("/a", Some(201), Some("first"));
    let second = greet("/a", Some(202), Some("second"));
    let exps = vec![greet("/b", None, None), first.clone(), second];
    let req = request(HttpMethod::GET, "/a", "");
    assert_eq!(first_match_index(&exps, &req), Some(1));
    assert_eq!(Expectation::look_for_expectation(&exps, &req), Some(&first));
    let mut state = State::new();
    state.add_expectations(exps);
    let reply = mock_response(&state, &req);
    assert_eq!((reply.status, reply.body.as_str()), (201, "first"));
}

#[test]
fn append_keeps_order_and_grows_by_batch() {
    let mut state = pwet_store();
    let batch = vec![greet("/1", None, None), greet("/2", None, None), greet("/3", None, None)];
    state.add_expectations(batch.clone());
    let snap = state.snapshot();
    assert_eq!(snap.len(), 4);
    assert_eq!(&snap[1..], &batch[..]);
}

#[test]
fn two_reads_agree() {
    let state = pwet_store();
    let a = state.snapshot().clone();
    let b = state.snapshot().clone();
    assert_eq!(a, b);
}

#[test]
fn template_defaults_and_headers() {
    let mut e = greet("/h", None, None);
    e.response.headers = vec![(String::from("X-Mock"), String::from("yes"))];
    let reply = Reply::from_template(&e.response);
    assert_eq!(reply.status, 200);
    assert_eq!(reply.body, "");
    assert_eq!(reply.headers, vec![(String::from("X-Mock"), String::from("yes"))]);
    assert_eq!(not_found_response().status, 404);
}

#[test]
fn admin_routes() {
    let health = String::from("/health");
    let exps = String::from("/expectations");
    assert_eq!(admin_route(HttpMethod::GET, &health), AdminRoute::Health);
    assert_eq!(admin_route(HttpMethod::GET, &exps), AdminRoute::ListExpectations);
    assert_eq!(admin_route(HttpMethod::POST, &exps), AdminRoute::AddExpectations);
    assert_eq!(admin_route(HttpMethod::POST, &health), AdminRoute::NotFound);
    assert_eq!(admin_route(HttpMethod::DELETE, &exps), AdminRoute::NotFound);
    assert_eq!(admin_route(HttpMethod::GET, &String::from("/other")), AdminRoute::NotFound);
    let h = health_response();
    assert_eq!((h.status, h.body.as_str()), (200, ""));
}

#[test]
fn load_error_messages() {
    let compile = LoadError::Compile { source: String::from("a.dhall"), cause: String::from("bad") };
    assert_eq!(compile.message(), "Error compiling a.dhall: bad");
    let read = LoadError::FileRead { path: String::from("b.dhall"), cause: String::from("missing") };
    assert_eq!(read.message(), "Error reading file b.dhall content: missing");
    assert_eq!(LoadError::StoreLock.message(), "Can't acquire write lock on state");
    let reply = admin_post_response(&Err(LoadError::StoreLock));
    assert_eq!((reply.status, reply.body.as_str()), (400, "Can't acquire write lock on state"));
    assert_eq!(admin_post_response(&Ok(())).status, 201);
}

#[test]
fn compiled_batch_names_its_source() {
    let ok = compiled_batch("conf.dhall", Ok(vec![greet("/a", None, None)]));
    assert_eq!(ok.map(|b| b.len()), Ok(1));
    let err = compiled_batch(ADMIN_SOURCE, Err(String::from("boom")));
    assert_eq!(
        err,
        Err(LoadError::Compile { source: String::from("POST web configuration"), cause: String::from("boom") })
    );
}

#[test]
fn query_parameters_are_grouped() {
    let params = parse_query_params("baz=foo&baz=bar&dontcare=42&baz=foo");
    assert_eq!(params.len(), 2);
    assert_eq!(params[0], (String::from("baz"), vec![String::from("foo"), String::from("bar")]));
    assert_eq!(params[1], (String::from("dontcare"), vec![String::from("42")]));
    assert!(param_present(&params, &String::from("baz"), &String::from("bar")));
    assert!(!param_present(&params, &String::from("baz"), &String::from("42")));
    assert!(parse_query_params("").is_empty());
}

#[test]
fn query_parameters_are_decoded() {
    let params = parse_query_params("q=a+b%21&empty=");
    assert_eq!(params[0], (String::from("q"), vec![String::from("a b!")]));
    assert_eq!(params[1], (String::from("empty"), vec![String::from("")]));
    let grouped = group_params(&vec![(String::from("k"), String::from("v"))]);
    assert_eq!(grouped, vec![(String::from("k"), vec![String::from("v")])]);
}

#[test]
fn last_header_occurrence_wins() {
    let headers = vec![
        (String::from("Accept"), String::from("text/plain")),
        (String::from("Accept"), String::from("application/json")),
    ];
    assert_eq!(find_header(&headers, &String::from("Accept")), Some(&String::from("application/json")));
    assert_eq!(find_header(&headers, &String::from("Host")), None);
}

#[test]
fn method_names() {
    assert_eq!(HttpMethod::from_name(&String::from("GET")), Some(HttpMethod::GET));
    assert_eq!(HttpMethod::from_name(&String::from("TRACE")), Some(HttpMethod::TRACE));
    assert_eq!(HttpMethod::from_name(&String::from("get")), None);
    assert_eq!(HttpMethod::from_name(&String::from("BREW")), None);
}

#[test]
fn listener_lifecycle() {
    let mut p = ListenerPhase::Starting;
    p = next_phase(p, ListenerEvent::Bound);
    assert_eq!(p, ListenerPhase::Serving);
    p = next_phase(p, ListenerEvent::ShutdownRequested);
    assert_eq!(p, ListenerPhase::ShuttingDown);
    p = next_phase(p, ListenerEvent::Finished);
    assert_eq!(p, ListenerPhase::Stopped);
    assert_eq!(next_phase(ListenerPhase::Starting, ListenerEvent::BindFailed), ListenerPhase::Failed);
    assert_eq!(next_phase(ListenerPhase::Stopped, ListenerEvent::Bound), ListenerPhase::Stopped);
    assert_eq!(run_outcome(ListenerPhase::Stopped, ListenerPhase::Stopped), RunOutcome::Succeeded);
    assert_eq!(run_outcome(ListenerPhase::Serving, ListenerPhase::Failed), RunOutcome::Failed);
    assert_eq!(run_outcome(ListenerPhase::Stopped, ListenerPhase::Serving), RunOutcome::Running);
}

#[test]
fn cli_defaults() {
    let opt = load_cli_args(vec![String::from("a.dhall")], None, Some(String::from("127.0.0.1:9000")), true);
    assert_eq!(
        opt,
        CliOpt {
            configuration_files: vec![String::from("a.dhall")],
            http_bind: String::from("0.0.0.0:8088"),
            admin_http_bind: String::from("127.0.0.1:9000"),
            wait: true,
        }
    );
}

#[test]
fn expectation_text() {
    let e = greet("/greet/pwet", Some(200), Some("Hello, pwet !"));
    assert_eq!(e.describe(), "Expectation { \n\tRequest GET /greet/pwet \n\tResponse 200 _ \n\t\tHello, pwet ! \n}");
    let blank = Expectation {
        request: HttpRequest { method: None, path: None, body: None, params: vec![], headers: vec![] },
        response: HttpResponse { status_code: None, status_reason: Some(String::from("fine")), body: None, headers: vec![] },
    };
    assert_eq!(blank.describe(), "Expectation { \n\tRequest _ _ \n\tResponse _ fine \n\t\t_ \n}");
    assert_eq!(display_expectations(&vec![]), "");
    assert_eq!(display_expectations(&vec![e.clone(), blank.clone()]), format!("\n{}\n{}", e.describe(), blank.describe()));
}

#[test]
fn decimal_status() {
    assert_eq!(decimal_text(0), "0");
    assert_eq!(decimal_text(7), "7");
    assert_eq!(decimal_text(404), "404");
    assert_eq!(decimal_text(65535), "65535");
    assert_eq!(HttpMethod::OPTIONS.name(), "OPTIONS");
}
