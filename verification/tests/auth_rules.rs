use atlas_backend::auth::{
    auth_response, authenticate, build_session_cookie, email_filter, hash_password,
    is_valid_email, owner_row, session_filter, session_user, signup_cleanup, user_id_filter, validate_login,
    validate_signup, SESSION_COOKIE,
};
use atlas_backend::errors::AppError;
use atlas_backend::models::auth::{LoginRequest, SignupRequest};
use atlas_backend::models::user::User;

fn signup(name: &str, email: &str, pw: &str, confirm: &str, org: Option<&str>) -> SignupRequest {
    SignupRequest {
        name: name.to_string(),
        email: email.to_string(),
        password: pw.to_string(),
        confirm_password: confirm.to_string(),
        organization_name: org.map(|o| o.to_string()),
    }
}

fn bad_request<T>(r: Result<T, AppError>) -> String {
    match r {
        Err(AppError::BadRequest(m)) => m,
        Err(e) => panic!("expected BadRequest, got {e:?}"),
        Ok(_) => panic!("expected BadRequest, got Ok"),
    }
}

fn user(id: &str, hash: &str) -> User {
    User {
        id: id.to_string(),
        organization_id: "org-1".to_string(),
        name: "Ada".to_string(),
        email: "ada@example.com".to_string(),
        password_hash: hash.to_string(),
        role: "owner".to_string(),
        created_at: "2024-01-01T00:00:00Z".to_string(),
    }
}

#[test]
fn email_shapes() {
    assert!(is_valid_email("a@b"));
    assert!(is_valid_email("  ada@example.com  "));
    assert!(!is_valid_email("ab"));
    assert!(!is_valid_email("no-at-sign"));
    assert!(!is_valid_email("a b@c.d"));
    assert!(!is_valid_email(&format!("{}@x", "a".repeat(200))));
}

#[test]
fn session_cookie_text() {
    assert_eq!(SESSION_COOKIE, "atlas-session");
    assert_eq!(
        build_session_cookie("u-42"),
        "atlas-session=u-42;path=/;max-age=31536000;HttpOnly;SameSite=Lax"
    );
}

#[test]
fn signup_accepts_and_normalises() {
    let r = validate_signup(&signup("  Ada  ", "  ADA@Example.COM ", "secret123", "secret123", Some(" Acme ")))
        .unwrap();
    assert_eq!(r.name, "Ada");
    assert_eq!(r.email, "ada@example.com");
    assert_eq!(r.password, "secret123");
    assert_eq!(r.organization_name, "Acme");
}

#[test]
fn signup_errors_in_order() {
    assert_eq!(
        bad_request(validate_signup(&signup("   ", "x", "short", "other", None))),
        "name must be 1–200 characters"
    );
    assert_eq!(
        bad_request(validate_signup(&signup("Ada", "not-an-email", "secret123", "secret123", Some("A")))),
        "email is invalid"
    );
    assert_eq!(
        bad_request(validate_signup(&signup("Ada", "a@b.c", "short", "short", Some("A")))),
        "password must be 8–128 characters"
    );
    assert_eq!(
        bad_request(validate_signup(&signup("Ada", "a@b.c", "secret123", "secret124", Some("A")))),
        "Passwords do not match"
    );
    assert_eq!(
        bad_request(validate_signup(&signup("Ada", "a@b.c", "secret123", "secret123", None))),
        "organization_name is required"
    );
    assert_eq!(
        bad_request(validate_signup(&signup("Ada", "a@b.c", "secret123", "secret123", Some("   ")))),
        "organization_name is required"
    );
}

#[test]
fn login_input_checks() {
    let ok = validate_login(&LoginRequest { email: " Ada@Example.com ".into(), password: "pw".into() });
    assert_eq!(ok.unwrap(), "ada@example.com");
    assert_eq!(
        bad_request(validate_login(&LoginRequest { email: "   ".into(), password: "pw".into() })),
        "Email and password are required"
    );
    assert_eq!(
        bad_request(validate_login(&LoginRequest { email: "a@b".into(), password: "x".repeat(129) })),
        "Input exceeds maximum length"
    );
}

#[test]
fn filters_for_users() {
    assert_eq!(email_filter("ada@example.com"), "email=eq.ada@example.com");
    assert_eq!(user_id_filter("u1"), "id=eq.u1");
    assert_eq!(session_filter(Some("u1".into())).unwrap(), "id=eq.u1");
    match session_filter(None) {
        Err(AppError::Unauthorized(m)) => assert_eq!(m, "No active session"),
        other => panic!("unexpected {other:?}"),
    }
}

#[test]
fn signup_password_logs_in() {
    let hash = hash_password("correct horse").unwrap();
    assert!(hash.starts_with("$argon2id$"));
    let u = authenticate(Ok(user("u1", &hash)), "correct horse").unwrap();
    assert_eq!(u.id, "u1");
    assert_eq!(
        bad_request(authenticate(Ok(user("u1", &hash)), "wrong horse")),
        "Invalid email or password"
    );
}

#[test]
fn login_refusal_hides_unknown_accounts() {
    let missing = authenticate(Err(AppError::NotFound("no row".into())), "anything");
    assert_eq!(bad_request(missing), "Invalid email or password");
    let garbage = authenticate(Ok(user("u1", "not a phc string")), "anything");
    assert_eq!(bad_request(garbage), "Invalid email or password");
    let hash = hash_password("anything").unwrap();
    let stripped = authenticate(Ok(user("u1", &hash[1..])), "anything");
    assert_eq!(bad_request(stripped), "Invalid email or password");
}

#[test]
fn session_user_lookup() {
    assert_eq!(session_user(Ok(user("u9", "h"))).unwrap().id, "u9");
    match session_user(Err(AppError::NotFound("gone".into()))) {
        Err(AppError::Unauthorized(m)) => assert_eq!(m, "Session is no longer valid"),
        other => panic!("unexpected {other:?}"),
    }
}

#[test]
fn response_and_owner_row() {
    let u = user("u7", "secret-hash");
    let resp = auth_response(&u);
    assert!(resp.success);
    assert_eq!(resp.token, "u7");
    assert_eq!(resp.user.id, "u7");
    assert_eq!(resp.user.email, "ada@example.com");
    assert_eq!(resp.user.role, "owner");

    let input = validate_signup(&signup("Ada", "ada@example.com", "secret123", "secret123", Some("Acme"))).unwrap();
    let row = owner_row("org-9", &input, "phc".to_string());
    assert_eq!(row.organization_id, "org-9");
    assert_eq!(row.name, "Ada");
    assert_eq!(row.email, "ada@example.com");
    assert_eq!(row.password_hash, "phc");
    assert_eq!(row.role, "owner");
}

#[test]
fn failed_signup_removes_its_organization() {
    let stored: Result<u32, AppError> = Ok(1);
    assert_eq!(signup_cleanup(&stored, "org-1"), None);
    let failed: Result<u32, AppError> = Err(AppError::Conflict("duplicate email".into()));
    assert_eq!(signup_cleanup(&failed, "org-1"), Some("id=eq.org-1".to_string()));
}
