use health_service::http::{
    healthcheck, not_found_handler, route, HealthcheckResponse, Route, STATUS_NOT_FOUND, STATUS_OK,
    STATUS_REQUEST_TIMEOUT,
};
use serde_json::Value;

fn object(members: &[(&str, bool)]) -> Value {
    let mut map = serde_json::Map::new();
    for (name, value) in members {
        map.insert(String::from(*name), Value::Bool(*value));
    }
    Value::Object(map)
}

#[test]
fn get_health_reaches_the_health_check() {
    assert_eq!(route("GET", "/health"), Route::Health);
}

#[test]
fn get_nonexistent_is_not_found() {
    assert_eq!(route("GET", "/nonexistent"), Route::NotFound);
    let (status, body) = not_found_handler();
    assert_eq!(status, 404);
    assert_eq!(body, "Page not found");
}

#[test]
fn other_paths_are_not_found() {
    for path in ["/", "", "/health/", "/healthz", "/Health", "/health/db", "health", "/api/health"] {
        assert_eq!(route("GET", path), Route::NotFound, "{path:?}");
    }
}

#[test]
fn other_methods_are_not_found() {
    for method in ["POST", "PUT", "DELETE", "HEAD", "OPTIONS", "PATCH", "get", "Get", ""] {
        assert_eq!(route(method, "/health"), Route::NotFound, "{method:?}");
    }
}

#[test]
fn status_numbers() {
    assert_eq!(STATUS_OK, 200);
    assert_eq!(STATUS_NOT_FOUND, 404);
    assert_eq!(STATUS_REQUEST_TIMEOUT, 408);
}

#[test]
fn health_without_database_is_ok_true() {
    let (status, body) = healthcheck(None);
    assert_eq!(status, 200);
    assert_eq!(body, HealthcheckResponse { ok: true, db_ok: None });
    assert_eq!(body.to_json(), "{\"ok\":true}");
}

#[test]
fn health_with_reachable_database() {
    let (status, body) = healthcheck(Some(true));
    assert_eq!(status, 200);
    assert_eq!(body, HealthcheckResponse { ok: true, db_ok: Some(true) });
    assert_eq!(body.to_json(), "{\"ok\":true,\"db_ok\":true}");
}

#[test]
fn health_with_unreachable_database() {
    let (status, body) = healthcheck(Some(false));
    assert_eq!(status, 200);
    assert_eq!(body, HealthcheckResponse { ok: true, db_ok: Some(false) });
    assert_eq!(body.to_json(), "{\"ok\":true,\"db_ok\":false}");
}

#[test]
fn health_is_always_200_and_ok() {
    for probe in [None, Some(false), Some(true)] {
        let (status, body) = healthcheck(probe);
        assert_eq!(status, STATUS_OK);
        assert!(body.ok);
        assert_eq!(body.db_ok, probe);
    }
}

#[test]
fn to_json_writes_every_body() {
    let body = HealthcheckResponse { ok: false, db_ok: None };
    assert_eq!(body.to_json(), "{\"ok\":false}");
    let body = HealthcheckResponse { ok: false, db_ok: Some(true) };
    assert_eq!(body.to_json(), "{\"ok\":false,\"db_ok\":true}");
}

#[test]
fn to_json_is_read_back_as_the_same_members() {
    for ok in [false, true] {
        let text = HealthcheckResponse { ok, db_ok: None }.to_json();
        let value: Value = serde_json::from_str(&text).unwrap();
        assert_eq!(value, object(&[("ok", ok)]));
        for db_ok in [false, true] {
            let text = HealthcheckResponse { ok, db_ok: Some(db_ok) }.to_json();
            let value: Value = serde_json::from_str(&text).unwrap();
            assert_eq!(value, object(&[("ok", ok), ("db_ok", db_ok)]));
        }
    }
}
