use vstd::prelude::*;

verus! {

/// The one path the service answers.
pub const API_ROOT: &'static str = "/api/";

/// The body of the greeting.
pub const GREETING: &'static str = "Hello, World!";

/// The methods listed in the `Allow` header of a refused request.
pub const ALLOWED_METHODS: &'static str = "GET";

/// A request method.
#[derive(Debug, Clone, Copy, PartialEq, Eq, Structural)]
pub enum Method {
    Get,
    Head,
    Post,
    Put,
    Delete,
    Patch,
    Options,
    Trace,
    Connect,
    Other,
}

/// What the service does with a request.
#[derive(Debug, Clone, Copy, PartialEq, Eq, Structural)]
pub enum Outcome {
    /// `200 OK` with the greeting as body.
    Greet,
    /// `404 Not Found`, empty body.
    NotFound,
    /// `405 Method Not Allowed`, empty body.
    MethodNotAllowed,
}

/// The routing table: `GET /api/` greets; another method on that path is not
/// allowed; every other path is not found.
pub open spec fn route_spec(method: Method, path: Seq<char>) -> Outcome {
    if path == API_ROOT@ {
        if method == Method::Get {
            Outcome::Greet
        } else {
            Outcome::MethodNotAllowed
        }
    } else {
        Outcome::NotFound
    }
}

pub open spec fn status_spec(o: Outcome) -> u16 {
    match o {
        Outcome::Greet => 200,
        Outcome::NotFound => 404,
        Outcome::MethodNotAllowed => 405,
    }
}

pub open spec fn body_spec(o: Outcome) -> Seq<char> {
    match o {
        Outcome::Greet => GREETING@,
        _ => Seq::empty(),
    }
}

fn same_text(a: &str, b: &str) -> (r: bool)
    ensures
        r == (a@ == b@),
{
    let n = a.unicode_len();
    if n != b.unicode_len() {
        return false;
    }
    let mut i: usize = 0;
    while i < n
        invariant
            n == a@.len(),
            n == b@.len(),
            i <= n,
            a@.take(i as int) == b@.take(i as int),
        decreases n - i,
    {
        if a.get_char(i) != b.get_char(i) {
            return false;
        }
        assert(a@.take(i + 1) =~= a@.take(i as int).push(a@[i as int]));
        assert(b@.take(i + 1) =~= b@.take(i as int).push(b@[i as int]));
        i = i + 1;
    }
    assert(a@.take(n as int) =~= a@);
    assert(b@.take(n as int) =~= b@);
    true
}

/// Decides what the service does with a request for `path` by `method`.
/// `path` is the request target without its query.
pub fn route(method: Method, path: &str) -> (r: Outcome)
    ensures
        r == route_spec(method, path@),
{
    if same_text(path, API_ROOT) {
        match method {
            Method::Get => Outcome::Greet,
            _ => Outcome::MethodNotAllowed,
        }
    } else {
        Outcome::NotFound
    }
}

impl Outcome {
    /// The status code of the response.
    pub fn status(&self) -> (r: u16)
        ensures
            r == status_spec(*self),
    {
        match self {
            Outcome::Greet => 200,
            Outcome::NotFound => 404,
            Outcome::MethodNotAllowed => 405,
        }
    }

    /// The body of the response.
    pub fn body(&self) -> (r: &'static str)
        ensures
            r@ == body_spec(*self),
    {
        match self {
            Outcome::Greet => GREETING,
            _ => {
                proof {
                    reveal_strlit("");
                }
                ""
            },
        }
    }
}

/// Only `GET /api/` is answered with `200 OK` and the greeting: every other
/// method or path gets another status.
pub proof fn lemma_only_api_root_greets(method: Method, path: Seq<char>)
    requires
        !(method == Method::Get && path == API_ROOT@),
    ensures
        status_spec(route_spec(method, path)) != 200,
        route_spec(method, path) != Outcome::Greet,
{
}

/// `GET /api/` is answered with `200 OK` and exactly the greeting, and the answer
/// depends on the request alone, so every call, sequential or concurrent, gets it.
pub proof fn lemma_api_root_always_greets(first: Seq<char>, second: Seq<char>)
    requires
        first == API_ROOT@,
        second == API_ROOT@,
    ensures
        route_spec(Method::Get, first) == Outcome::Greet,
        status_spec(route_spec(Method::Get, first)) == 200,
        body_spec(route_spec(Method::Get, first)) == GREETING@,
        route_spec(Method::Get, first) == route_spec(Method::Get, second),
{
}

} // verus!
