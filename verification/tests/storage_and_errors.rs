use atlas_backend::db::{
    bearer, classify_http_error, endpoint, filtered_url, internal_error, map_http_error,
    org_filter, rest_base_url, row_not_found, scoped_column_filter, scoped_id_filter,
    select_one_url, select_url, storage_settings,
};
use atlas_backend::errors::AppError;

#[test]
fn error_status_codes_and_messages() {
    let cases = vec![
        (AppError::NotFound("nf".into()), 404u16, "nf"),
        (AppError::BadRequest("br".into()), 400, "br"),
        (AppError::Unauthorized("ua".into()), 401, "ua"),
        (AppError::Conflict("cf".into()), 409, "cf"),
        (AppError::Internal("db password leaked".into()), 500, "An internal server error occurred."),
    ];
    for (e, status, client) in cases {
        assert_eq!(e.status_code(), status);
        assert_eq!(e.client_message(), client);
    }
}

#[test]
fn internal_details_hidden() {
    let e = AppError::Internal("connection string postgres://secret".into());
    assert_eq!(e.message(), "connection string postgres://secret");
    assert_eq!(e.client_message(), "An internal server error occurred.");
    assert_eq!(e.status_code(), 500);
}

#[test]
fn rest_root_strips_trailing_slashes() {
    assert_eq!(rest_base_url("https://x.supabase.co"), "https://x.supabase.co/rest/v1");
    assert_eq!(rest_base_url("https://x.supabase.co///"), "https://x.supabase.co/rest/v1");
    assert_eq!(rest_base_url(""), "/rest/v1");
}

#[test]
fn storage_settings_from_environment_values() {
    let (base, key) = storage_settings(Some("https://p.co/".into()), Some("k".into())).unwrap();
    assert_eq!(base, "https://p.co/rest/v1");
    assert_eq!(key, "k");
    assert_eq!(
        storage_settings(None, Some("k".into())).unwrap_err(),
        "SUPABASE_URL is not set in the environment"
    );
    assert_eq!(
        storage_settings(Some("u".into()), None).unwrap_err(),
        "SUPABASE_SERVICE_ROLE_KEY is not set in the environment"
    );
}

#[test]
fn urls_and_filters() {
    assert_eq!(endpoint("B", "users"), "B/users");
    assert_eq!(select_url("B", "users", ""), "B/users");
    assert_eq!(select_url("B", "users", "id=eq.1"), "B/users?id=eq.1");
    assert_eq!(select_one_url("B", "users", "id=eq.1"), "B/users?id=eq.1&limit=1");
    assert_eq!(filtered_url("B", "funds", "id=eq.2"), "B/funds?id=eq.2");
    assert_eq!(bearer("k"), "Bearer k");
    assert_eq!(org_filter("o1"), "organization_id=eq.o1");
    assert_eq!(scoped_id_filter("f1", "o1"), "id=eq.f1&organization_id=eq.o1");
    assert_eq!(
        scoped_column_filter("sponsor_id", "s1", "o1"),
        "sponsor_id=eq.s1&organization_id=eq.o1"
    );
}

#[test]
fn lookup_errors() {
    match row_not_found("users", "id=eq.9") {
        AppError::NotFound(m) => assert_eq!(m, "users row not found for filter 'id=eq.9'"),
        other => panic!("unexpected {other:?}"),
    }
    match internal_error("PostgREST request failed", "timeout") {
        AppError::Internal(m) => assert_eq!(m, "PostgREST request failed: timeout"),
        other => panic!("unexpected {other:?}"),
    }
}

#[test]
fn http_errors_by_status() {
    match classify_http_error("funds", 409, "409 Conflict", "raw", Some("dup key".into())) {
        AppError::Conflict(m) => assert_eq!(m, "dup key"),
        other => panic!("unexpected {other:?}"),
    }
    match classify_http_error("funds", 404, "404 Not Found", "raw", None) {
        AppError::NotFound(m) => assert_eq!(m, "raw"),
        other => panic!("unexpected {other:?}"),
    }
    match classify_http_error("funds", 422, "422", "raw", None) {
        AppError::BadRequest(m) => assert_eq!(m, "raw"),
        other => panic!("unexpected {other:?}"),
    }
    match classify_http_error("funds", 403, "403 Forbidden", "raw", None) {
        AppError::Internal(m) => assert_eq!(m, "Storage auth failed"),
        other => panic!("unexpected {other:?}"),
    }
    match classify_http_error("funds", 503, "503 Service Unavailable", "down", None) {
        AppError::Internal(m) => {
            assert_eq!(m, "Unexpected PostgREST status 503 Service Unavailable for funds: down")
        }
        other => panic!("unexpected {other:?}"),
    }
}

#[test]
fn http_error_reads_json_message() {
    let body = r#"{"code":"23505","message":"duplicate key value"}"#;
    match map_http_error("sponsors", 409, "409 Conflict", body) {
        AppError::Conflict(m) => assert_eq!(m, "duplicate key value"),
        other => panic!("unexpected {other:?}"),
    }
    match map_http_error("sponsors", 400, "400 Bad Request", "plain text") {
        AppError::BadRequest(m) => assert_eq!(m, "plain text"),
        other => panic!("unexpected {other:?}"),
    }
    match map_http_error("sponsors", 400, "400 Bad Request", r#"{"message": 5}"#) {
        AppError::BadRequest(m) => assert_eq!(m, r#"{"message": 5}"#),
        other => panic!("unexpected {other:?}"),
    }
}
