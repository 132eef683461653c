use vstd::prelude::*;

verus! {

/// The HTTP methods an expectation can require.
#[derive(Debug, Clone, Copy, PartialEq, Eq, Structural)]
pub enum HttpMethod {
    CONNECT,
    DELETE,
    GET,
    HEAD,
    OPTIONS,
    PATCH,
    POST,
    PUT,
    TRACE,
}

/// What the body of a request must be. `JSON` holds the text of a JSON
/// document, compared with the incoming body as documents (key order and
/// layout do not matter); `TEXT` is compared character for character.
#[derive(Debug, Clone, PartialEq)]
pub enum RequestBody {
    JSON { json: String },
    TEXT { text: String },
}

/// The pattern side of an expectation. Every absent or empty field matches
/// anything.
#[derive(Debug, Clone, PartialEq)]
pub struct HttpRequest {
    pub method: Option<HttpMethod>,
    pub path: Option<String>,
    pub body: Option<RequestBody>,
    /// Required query parameters; a key may appear several times, and each
    /// pair is required on its own.
    pub params: Vec<(String, String)>,
    /// Required headers, name and exact value.
    pub headers: Vec<(String, String)>,
}

/// The response to send when the pattern matches.
#[derive(Debug, Clone, PartialEq)]
pub struct HttpResponse {
    pub status_code: Option<u16>,
    pub status_reason: Option<String>,
    pub body: Option<String>,
    pub headers: Vec<(String, String)>,
}

#[derive(Debug, Clone, PartialEq)]
pub struct Expectation {
    pub request: HttpRequest,
    pub response: HttpResponse,
}

/// A request as the matcher sees it. Where a header name occurs more than
/// once, the last occurrence is its value. `params` maps each query key to the
/// values observed for it.
#[derive(Debug, Clone)]
pub struct IncomingRequest {
    pub method: HttpMethod,
    pub path: String,
    pub body: String,
    pub headers: Vec<(String, String)>,
    pub params: Vec<(String, Vec<String>)>,
}

/// Whether two texts are both JSON documents, and equal ones.
pub uninterp spec fn json_documents_equal(expected: Seq<char>, actual: Seq<char>) -> bool;

/// Relies on `serde_json::from_str` into a `serde_json::Value`, and on the
/// structural `==` of `Value`: the result depends on the two texts alone.
#[verifier::external_body]
fn same_json_document(expected: &str, actual: &str) -> (r: bool)
    ensures
        r == json_documents_equal(expected@, actual@),
{
    match (
        serde_json::from_str::<serde_json::Value>(expected),
        serde_json::from_str::<serde_json::Value>(actual),
    ) {
        (Ok(a), Ok(b)) => a == b,
        _ => false,
    }
}

pub open spec fn method_matches(pattern: Option<HttpMethod>, method: HttpMethod) -> bool {
    match pattern {
        None => true,
        Some(m) => m == method,
    }
}

pub open spec fn path_matches(pattern: Option<String>, path: Seq<char>) -> bool {
    match pattern {
        None => true,
        Some(p) => p@ == path,
    }
}

pub open spec fn body_matches(pattern: Option<RequestBody>, body: Seq<char>) -> bool {
    match pattern {
        None => true,
        Some(RequestBody::TEXT { text }) => text@ == body,
        Some(RequestBody::JSON { json }) => json_documents_equal(json@, body),
    }
}

/// The value of header `name`: that of its last occurrence.
pub open spec fn header_value(headers: Seq<(String, String)>, name: Seq<char>) -> Option<Seq<char>>
    decreases headers.len(),
{
    if headers.len() == 0 {
        None
    } else if headers.last().0@ == name {
        Some(headers.last().1@)
    } else {
        header_value(headers.drop_last(), name)
    }
}

pub open spec fn headers_match(required: Seq<(String, String)>, headers: Seq<(String, String)>) -> bool {
    forall|i: int|
        0 <= i < required.len() ==> #[trigger] header_value(headers, required[i].0@) == Some(
            required[i].1@,
        )
}

/// Whether value `v` was observed for query key `k`.
pub open spec fn param_observed(params: Seq<(String, Vec<String>)>, k: Seq<char>, v: Seq<char>) -> bool {
    exists|i: int, j: int|
        0 <= i < params.len() && params[i].0@ == k && 0 <= j < params[i].1@.len()
            && #[trigger] params[i].1@[j]@ == v
}

pub open spec fn params_match(required: Seq<(String, String)>, params: Seq<(String, Vec<String>)>) -> bool {
    forall|i: int|
        0 <= i < required.len() ==> #[trigger] param_observed(params, required[i].0@, required[i].1@)
}

impl Expectation {
    /// Whether `req` meets every constraint of this expectation's pattern.
    pub open spec fn matches(&self, req: &IncomingRequest) -> bool {
        &&& method_matches(self.request.method, req.method)
        &&& path_matches(self.request.path, req.path@)
        &&& body_matches(self.request.body, req.body@)
        &&& headers_match(self.request.headers@, req.headers@)
        &&& params_match(self.request.params@, req.params@)
    }
}

/// `i` is the position of the first expectation that matches `req`.
pub open spec fn is_first_match(exps: Seq<Expectation>, req: &IncomingRequest, i: int) -> bool {
    &&& 0 <= i < exps.len()
    &&& exps[i].matches(req)
    &&& forall|j: int| 0 <= j < i ==> !(#[trigger] exps[j].matches(req))
}

pub open spec fn no_match(exps: Seq<Expectation>, req: &IncomingRequest) -> bool {
    forall|j: int| 0 <= j < exps.len() ==> !(#[trigger] exps[j].matches(req))
}


/// The value of header `name` in `headers`, from its last occurrence.
pub fn find_header<'a>(headers: &'a Vec<(String, String)>, name: &String) -> (r: Option<&'a String>)
    ensures
        match r {
            None => header_value(headers@, name@) is None,
            Some(v) => header_value(headers@, name@) == Some(v@),
        },
{
    let mut i: usize = headers.len();
    assert(headers@.subrange(0, i as int) =~= headers@);
    while i > 0
        invariant
            i <= headers.len(),
            header_value(headers@, name@) == header_value(headers@.subrange(0, i as int), name@),
        decreases i,
    {
        if headers[i - 1].0 == *name {
            return Some(&headers[i - 1].1);
        }
        assert(headers@.subrange(0, i as int).drop_last() =~= headers@.subrange(0, i - 1));
        i -= 1;
    }
    None
}

fn headers_satisfied(required: &Vec<(String, String)>, headers: &Vec<(String, String)>) -> (r: bool)
    ensures
        r == headers_match(required@, headers@),
{
    let mut k: usize = 0;
    while k < required.len()
        invariant
            k <= required.len(),
            forall|i: int|
                0 <= i < k ==> #[trigger] header_value(headers@, required@[i].0@) == Some(
                    required@[i].1@,
                ),
        decreases required.len() - k,
    {
        match find_header(headers, &required[k].0) {
            Some(v) => {
                if *v != required[k].1 {
                    return false;
                }
            },
            None => {
                return false;
            },
        }
        k += 1;
    }
    true
}

/// Whether value `v` was observed for query key `k`.
pub fn param_present(params: &Vec<(String, Vec<String>)>, k: &String, v: &String) -> (r: bool)
    ensures
        r == param_observed(params@, k@, v@),
{
    let mut i: usize = 0;
    while i < params.len()
        invariant
            i <= params.len(),
            forall|a: int, b: int|
                0 <= a < i && params@[a].0@ == k@ && 0 <= b < params@[a].1@.len()
                    ==> #[trigger] params@[a].1@[b]@ != v@,
        decreases params.len() - i,
    {
        if params[i].0 == *k {
            let values = &params[i].1;
            let mut j: usize = 0;
            while j < values.len()
                invariant
                    i < params.len(),
                    values == params@[i as int].1,
                    params@[i as int].0@ == k@,
                    j <= values.len(),
                    forall|b: int| 0 <= b < j ==> #[trigger] values@[b]@ != v@,
                decreases values.len() - j,
            {
                if values[j] == *v {
                    assert(params@[i as int].1@[j as int]@ == v@);
                    return true;
                }
                j += 1;
            }
        }
        i += 1;
    }
    false
}

fn params_satisfied(required: &Vec<(String, String)>, params: &Vec<(String, Vec<String>)>) -> (r: bool)
    ensures
        r == params_match(required@, params@),
{
    let mut k: usize = 0;
    while k < required.len()
        invariant
            k <= required.len(),
            forall|i: int|
                0 <= i < k ==> #[trigger] param_observed(params@, required@[i].0@, required@[i].1@),
        decreases required.len() - k,
    {
        if !param_present(params, &required[k].0, &required[k].1) {
            return false;
        }
        k += 1;
    }
    true
}

impl Expectation {
    /// Whether `req` matches this expectation. The method and the path are
    /// tested before the headers, the parameters and the body.
    pub fn test(&self, req: &IncomingRequest) -> (r: bool)
        ensures
            r == self.matches(req),
    {
        let method_ok = match self.request.method {
            None => true,
            Some(m) => m == req.method,
        };
        if !method_ok {
            return false;
        }
        let path_ok = match &self.request.path {
            None => true,
            Some(p) => *p == req.path,
        };
        if !path_ok {
            return false;
        }
        if !headers_satisfied(&self.request.headers, &req.headers) {
            return false;
        }
        if !params_satisfied(&self.request.params, &req.params) {
            return false;
        }
        match &self.request.body {
            None => true,
            Some(RequestBody::TEXT { text }) => *text == req.body,
            Some(RequestBody::JSON { json }) => same_json_document(json.as_str(), req.body.as_str()),
        }
    }

    /// The first expectation, in order, that matches `req`.
    pub fn look_for_expectation<'a>(expectations: &'a Vec<Expectation>, req: &IncomingRequest) -> (r: Option<&'a Expectation>)
        ensures
            match r {
                None => no_match(expectations@, req),
                Some(e) => exists|i: int| is_first_match(expectations@, req, i) && *e == expectations@[i],
            },
    {
        match first_match_index(expectations, req) {
            None => None,
            Some(i) => Some(&expectations[i]),
        }
    }
}

/// The first expectation, in order, that matches `req`.
pub fn look_for_expectation<'a>(expectations: &'a Vec<Expectation>, req: &IncomingRequest) -> (r: Option<&'a Expectation>)
    ensures
        match r {
            None => no_match(expectations@, req),
            Some(e) => exists|i: int| is_first_match(expectations@, req, i) && *e == expectations@[i],
        },
{
    Expectation::look_for_expectation(expectations, req)
}

/// The position of the first expectation, in order, that matches `req`.
pub fn first_match_index(expectations: &Vec<Expectation>, req: &IncomingRequest) -> (r: Option<usize>)
    ensures
        match r {
            None => no_match(expectations@, req),
            Some(i) => is_first_match(expectations@, req, i as int),
        },
{
    let mut i: usize = 0;
    while i < expectations.len()
        invariant
            i <= expectations.len(),
            forall|j: int| 0 <= j < i ==> !(#[trigger] expectations@[j].matches(req)),
        decreases expectations.len() - i,
    {
        if expectations[i].test(req) {
            return Some(i);
        }
        i += 1;
    }
    None
}


/// An expectation that names no method does not look at the method: two
/// requests that differ in their method alone are matched alike.
pub proof fn lemma_method_unconstrained(e: Expectation, a: IncomingRequest, b: IncomingRequest)
    requires
        e.request.method is None,
        a.path == b.path,
        a.body == b.body,
        a.headers == b.headers,
        a.params == b.params,
    ensures
        method_matches(e.request.method, a.method),
        e.matches(&a) == e.matches(&b),
{
}

/// If the expectation at `i` matches and none before it does, `i` is the
/// first match and no other position is; in particular this holds when `i`
/// is the only position that matches.
pub proof fn lemma_first_match_is_least(exps: Seq<Expectation>, req: IncomingRequest, i: int)
    requires
        0 <= i < exps.len(),
        exps[i].matches(&req),
        forall|j: int| 0 <= j < i ==> !(#[trigger] exps[j].matches(&req)),
    ensures
        is_first_match(exps, &req, i),
        !no_match(exps, &req),
        forall|k: int| #[trigger] is_first_match(exps, &req, k) ==> k == i,
{
    assert forall|k: int| #[trigger] is_first_match(exps, &req, k) implies k == i by {
        if k < i {
            assert(exps[k].matches(&req));
        } else if k > i {
            assert(!exps[i].matches(&req));
        }
    }
}


/// The method whose name is `name`, in upper case as HTTP writes it.
pub open spec fn method_named(name: Seq<char>) -> Option<HttpMethod> {
    if name == "CONNECT"@ {
        Some(HttpMethod::CONNECT)
    } else if name == "DELETE"@ {
        Some(HttpMethod::DELETE)
    } else if name == "GET"@ {
        Some(HttpMethod::GET)
    } else if name == "HEAD"@ {
        Some(HttpMethod::HEAD)
    } else if name == "OPTIONS"@ {
        Some(HttpMethod::OPTIONS)
    } else if name == "PATCH"@ {
        Some(HttpMethod::PATCH)
    } else if name == "POST"@ {
        Some(HttpMethod::POST)
    } else if name == "PUT"@ {
        Some(HttpMethod::PUT)
    } else if name == "TRACE"@ {
        Some(HttpMethod::TRACE)
    } else {
        None
    }
}

impl HttpMethod {
    /// The method named `name`, if it is one of the nine.
    pub fn from_name(name: &String) -> (r: Option<HttpMethod>)
        ensures
            r == method_named(name@),
    {
        if *name == String::from_str("CONNECT") {
            Some(HttpMethod::CONNECT)
        } else if *name == String::from_str("DELETE") {
            Some(HttpMethod::DELETE)
        } else if *name == String::from_str("GET") {
            Some(HttpMethod::GET)
        } else if *name == String::from_str("HEAD") {
            Some(HttpMethod::HEAD)
        } else if *name == String::from_str("OPTIONS") {
            Some(HttpMethod::OPTIONS)
        } else if *name == String::from_str("PATCH") {
            Some(HttpMethod::PATCH)
        } else if *name == String::from_str("POST") {
            Some(HttpMethod::POST)
        } else if *name == String::from_str("PUT") {
            Some(HttpMethod::PUT)
        } else if *name == String::from_str("TRACE") {
            Some(HttpMethod::TRACE)
        } else {
            None
        }
    }
}

} // verus!
