use home::routes::{route, Method, Outcome, ALLOWED_METHODS, GREETING};

const METHODS: [Method; 10] = [
    Method::Get,
    Method::Head,
    Method::Post,
    Method::Put,
    Method::Delete,
    Method::Patch,
    Method::Options,
    Method::Trace,
    Method::Connect,
    Method::Other,
];

#[test]
fn get_api_root_greets() {
    let o = route(Method::Get, "/api/");
    assert_eq!(o, Outcome::Greet);
    assert_eq!(o.status(), 200);
    assert_eq!(o.body(), "Hello, World!");
    assert_eq!(GREETING, "Hello, World!");
}

#[test]
fn get_api_root_greets_every_time() {
    for _ in 0..100 {
        let o = route(Method::Get, "/api/");
        assert_eq!((o.status(), o.body()), (200, "Hello, World!"));
    }
}

#[test]
fn other_routes_never_greet() {
    let paths = ["/", "/api", "/api/x", "/api//", "/API/", "/api/?", "", "api/", "/hello", " /api/"];
    for m in METHODS {
        for p in paths {
            let o = route(m, p);
            assert_eq!(o, Outcome::NotFound, "{m:?} {p:?}");
            assert_eq!(o.status(), 404);
            assert_eq!(o.body(), "");
        }
    }
}

#[test]
fn other_methods_on_api_root_not_allowed() {
    for m in METHODS.into_iter().filter(|m| *m != Method::Get) {
        let o = route(m, "/api/");
        assert_eq!(o, Outcome::MethodNotAllowed, "{m:?}");
        assert_eq!(o.status(), 405);
        assert_eq!(o.body(), "");
    }
    assert_eq!(ALLOWED_METHODS, "GET");
}
