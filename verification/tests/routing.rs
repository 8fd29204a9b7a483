use backend::health::{health, Health, Status};
use backend::response::{ContentType, Response};
use backend::router::{dispatch, respond, root, route, Route};
use backend::text::str_eq;

#[test]
fn root_handler_gives_the_greeting() {
    assert_eq!(root(), "Hello from Axum!");
}

#[test]
fn health_handler_reports_healthy() {
    assert_eq!(health(), Health { status: Status::Healthy });
    assert_eq!(health().status.as_str(), "ok");
}

#[test]
fn health_payload_as_json_text() {
    assert_eq!(health().to_json(), "{\"status\":\"ok\"}");
}

#[test]
fn health_payload_parses_to_one_member() {
    let body: String = respond("GET", "/health").body;
    let value: serde_json::Value = serde_json::from_str(&body).unwrap();
    let object = value.as_object().unwrap();
    assert_eq!(object.len(), 1);
    assert_eq!(object.get("status").and_then(|s| s.as_str()), Some("ok"));
}

#[test]
fn health_payload_matches_an_encoder() {
    let mut object = serde_json::Map::new();
    object.insert(
        String::from("status"),
        serde_json::Value::String(String::from(Status::Healthy.as_str())),
    );
    let encoded: String = serde_json::to_string(&serde_json::Value::Object(object)).unwrap();
    assert_eq!(health().to_json(), encoded);
}

#[test]
fn get_root_is_200_with_greeting() {
    let response: Response = respond("GET", "/");
    assert_eq!(response.status, 200);
    assert_eq!(response.content_type, Some(ContentType::TextPlain));
    assert_eq!(response.body, "Hello from Axum!");
}

#[test]
fn get_health_is_200_with_json() {
    let response: Response = respond("GET", "/health");
    assert_eq!(response.status, 200);
    assert_eq!(response.content_type, Some(ContentType::Json));
    assert_eq!(response.body, "{\"status\":\"ok\"}");
}

#[test]
fn content_types_on_the_wire() {
    assert_eq!(ContentType::TextPlain.as_str(), "text/plain");
    assert_eq!(ContentType::Json.as_str(), "application/json");
}

#[test]
fn unknown_paths_are_404_for_every_method() {
    let methods = ["GET", "HEAD", "POST", "PUT", "DELETE", "OPTIONS", "PATCH", "TRACE", "BREW"];
    let paths = [
        "",
        "/healthz",
        "/health/",
        "/Health",
        "//",
        "/index.html",
        "/health?verbose=1",
        "health",
        "/h\u{e9}alth",
    ];
    for method in methods.iter() {
        for path in paths.iter() {
            let response: Response = respond(method, path);
            assert_eq!(response.status, 404);
            assert_eq!(response.content_type, None);
            assert_eq!(response.body, "");
            assert_eq!(route(method, path), Route::NotFound);
        }
    }
}

#[test]
fn only_get_reaches_the_handlers() {
    for method in ["HEAD", "POST", "PUT", "DELETE", "get", "Get", "", "GET "].iter() {
        assert_eq!(route(method, "/"), Route::NotFound);
        assert_eq!(route(method, "/health"), Route::NotFound);
        assert_eq!(respond(method, "/").status, 404);
        assert_eq!(respond(method, "/health").status, 404);
    }
}

#[test]
fn route_table() {
    assert_eq!(route("GET", "/"), Route::Root);
    assert_eq!(route("GET", "/health"), Route::Health);
    assert_eq!(route("GET", "/other"), Route::NotFound);
}

#[test]
fn dispatch_runs_each_handler() {
    assert_eq!(dispatch(Route::Root), respond("GET", "/"));
    assert_eq!(dispatch(Route::Health), respond("GET", "/health"));
    let missing: Response = dispatch(Route::NotFound);
    assert_eq!(missing, Response { status: 404, content_type: None, body: String::new() });
}

#[test]
fn interleaved_requests_do_not_mix() {
    let mut greetings: Vec<Response> = Vec::new();
    let mut reports: Vec<Response> = Vec::new();
    let mut misses: Vec<Response> = Vec::new();
    for _ in 0..100 {
        greetings.push(respond("GET", "/"));
        misses.push(respond("POST", "/nowhere"));
        reports.push(respond("GET", "/health"));
    }
    assert_eq!(greetings.len(), 100);
    assert_eq!(reports.len(), 100);
    for response in greetings.iter() {
        assert_eq!(response.status, 200);
        assert_eq!(response.body, "Hello from Axum!");
    }
    for response in reports.iter() {
        assert_eq!(response.status, 200);
        assert_eq!(response.body, "{\"status\":\"ok\"}");
    }
    for response in misses.iter() {
        assert_eq!(response.status, 404);
    }
}

#[test]
fn str_eq_compares_characters() {
    assert!(str_eq("", ""));
    assert!(str_eq("/health", "/health"));
    assert!(!str_eq("/health", "/healt"));
    assert!(!str_eq("/health", "/healtH"));
    assert!(!str_eq("/", ""));
    assert!(str_eq("caf\u{e9}", "caf\u{e9}"));
    assert!(!str_eq("caf\u{e9}", "cafe"));
    assert!(!str_eq("\u{e9}", "\u{e8}"));
}
