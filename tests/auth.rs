use shop_auth::auth::{
    auth_middleware, bearer_token, login, new_user, register, register_outcome, CreateUserSchema,
    LoginUserSchema, User,
};
use shop_auth::error::{AuthError, AuthFailure, InternalCause, StoreFailure};
use shop_auth::password::{hash_password, verify_password};
use shop_auth::token::{
    check_claims, issue_claims, issue_token, verify_token, AuthConfig, TokenClaims, TOKEN_TTL_SECS,
};

const NO_TOKEN: AuthError = AuthError::Unauthenticated(AuthFailure::NoToken);
const INVALID_TOKEN: AuthError = AuthError::Unauthenticated(AuthFailure::InvalidToken);
const INVALID_SUBJECT: AuthError = AuthError::Unauthenticated(AuthFailure::InvalidSubject);
const ID: u128 = 0x550e8400_e29b_41d4_a716_446655440000;
const T0: u64 = 1_700_000_000;

fn config() -> AuthConfig {
    AuthConfig { jwt_secret: b"test-signing-secret".to_vec() }
}

fn stored_user(password: &str) -> User {
    User {
        id: ID,
        email: "a@b.com".to_string(),
        password: bcrypt::hash(password, 4).unwrap(),
        full_name: "A B".to_string(),
        role: "user".to_string(),
        created_at: 1,
        updated_at: 1,
    }
}

fn login_body(email: &str, password: &str) -> LoginUserSchema {
    LoginUserSchema { email: email.to_string(), password: password.to_string() }
}

#[test]
fn register_builds_row_with_default_role_and_hashed_password() {
    let body = CreateUserSchema {
        email: "a@b.com".to_string(),
        password: "secret1".to_string(),
        full_name: "A B".to_string(),
    };
    let row = register(&body, ID, 42).unwrap();
    assert_eq!(row.id, ID);
    assert_eq!(row.email, "a@b.com");
    assert_eq!(row.full_name, "A B");
    assert_eq!(row.role, "user");
    assert_eq!(row.created_at, 42);
    assert_eq!(row.updated_at, 42);
    assert_ne!(row.password, "secret1");
    assert_eq!(verify_password("secret1", &row.password), Ok(true));
}

#[test]
fn register_then_duplicate_email_conflicts() {
    let row = stored_user("secret1");
    let public = register_outcome(Ok(row)).unwrap();
    assert_eq!(public.id, ID);
    assert_eq!(public.role, "user");
    assert_eq!(public.email, "a@b.com");
    let second = register_outcome(Err(StoreFailure::UniqueViolation)).unwrap_err();
    assert_eq!(second, AuthError::DuplicateEmail);
    assert_eq!(second.status(), 409);
}

#[test]
fn register_store_failure_is_internal() {
    let e = register_outcome(Err(StoreFailure::Other)).unwrap_err();
    assert_eq!(e, AuthError::Internal(InternalCause::Store));
    assert_eq!(e.status(), 500);
    assert_eq!(e.body(), "{\"status\":\"error\",\"message\":\"Something went wrong\"}");
}

#[test]
fn login_with_correct_password_gives_token_for_user() {
    let user = stored_user("secret1");
    let token = login(&config(), &login_body("a@b.com", "secret1"), Ok(Some(user)), T0).unwrap();
    assert!(!token.is_empty());
    assert_eq!(token.matches('.').count(), 2);
    assert_eq!(verify_token(&config(), &token, T0 + 10), Ok(ID));
}

#[test]
fn login_failures_are_identical() {
    let wrong = login(&config(), &login_body("a@b.com", "nope"), Ok(Some(stored_user("secret1"))), T0)
        .unwrap_err();
    let unknown = login(&config(), &login_body("x@y.com", "secret1"), Ok(None), T0).unwrap_err();
    assert_eq!(wrong, AuthError::InvalidCredentials);
    assert_eq!(wrong, unknown);
    assert_eq!(wrong.status(), 400);
    assert_eq!(unknown.status(), 400);
    assert_eq!(wrong.body(), unknown.body());
    assert_eq!(wrong.body(), "{\"status\":\"error\",\"message\":\"Invalid email or password\"}");
}

#[test]
fn login_store_failure_and_bad_hash_are_internal() {
    let e = login(&config(), &login_body("a@b.com", "x"), Err(StoreFailure::Other), T0).unwrap_err();
    assert_eq!(e, AuthError::Internal(InternalCause::Store));
    let mut user = stored_user("secret1");
    user.password = "not-a-hash".to_string();
    let e = login(&config(), &login_body("a@b.com", "secret1"), Ok(Some(user)), T0).unwrap_err();
    assert_eq!(e, AuthError::Internal(InternalCause::HashCheck));
    assert_eq!(e.status(), 500);
}

#[test]
fn hash_then_verify_same_password() {
    let h = hash_password("correct horse").unwrap();
    assert!(h.starts_with("$2"));
    assert_eq!(verify_password("correct horse", &h), Ok(true));
}

#[test]
fn hash_of_other_password_does_not_verify() {
    let h = hash_password("other password").unwrap();
    assert_eq!(verify_password("correct horse", &h), Ok(false));
}

#[test]
fn verify_against_malformed_hash_is_internal_error() {
    assert_eq!(
        verify_password("pw", "$2b$xx$abc"),
        Err(AuthError::Internal(InternalCause::HashCheck))
    );
}

#[test]
fn token_valid_until_expiry() {
    let t = issue_token(&config(), ID, T0);
    assert_eq!(verify_token(&config(), &t, T0), Ok(ID));
    assert_eq!(verify_token(&config(), &t, T0 + TOKEN_TTL_SECS - 1), Ok(ID));
    assert_eq!(verify_token(&config(), &t, T0 + TOKEN_TTL_SECS), Err(INVALID_TOKEN));
    assert_eq!(verify_token(&config(), &t, T0 + 2 * TOKEN_TTL_SECS), Err(INVALID_TOKEN));
}

#[test]
fn token_from_other_secret_is_refused() {
    let other = AuthConfig { jwt_secret: b"another-secret".to_vec() };
    let t = issue_token(&other, ID, T0);
    assert_eq!(verify_token(&config(), &t, T0), Err(INVALID_TOKEN));
}

#[test]
fn issued_claims_hold_subject_text_and_expiry() {
    let c = issue_claims(ID, T0);
    assert_eq!(c.sub, "550e8400-e29b-41d4-a716-446655440000");
    assert_eq!(c.iat, T0);
    assert_eq!(c.exp, T0 + 86400);
}

#[test]
fn check_claims_cases() {
    let live = TokenClaims { sub: "550e8400-e29b-41d4-a716-446655440000".to_string(), iat: 0, exp: 100 };
    assert_eq!(check_claims(Some(live.clone()), 99), Ok(ID));
    assert_eq!(check_claims(Some(live), 100), Err(INVALID_TOKEN));
    let bad_sub = TokenClaims { sub: "not-a-uuid".to_string(), iat: 0, exp: 100 };
    assert_eq!(check_claims(Some(bad_sub), 1), Err(INVALID_SUBJECT));
    assert_eq!(check_claims(None, 1), Err(INVALID_TOKEN));
}

#[test]
fn bearer_token_parsing() {
    assert_eq!(bearer_token("Bearer abc.def"), Some("abc.def".to_string()));
    assert_eq!(bearer_token("Bearer "), Some(String::new()));
    assert_eq!(bearer_token("bearer abc"), None);
    assert_eq!(bearer_token("Basic abc"), None);
    assert_eq!(bearer_token("Bearer"), None);
    assert_eq!(bearer_token(""), None);
}

#[test]
fn middleware_accepts_valid_bearer_token() {
    let t = issue_token(&config(), ID, T0);
    let header = format!("Bearer {}", t);
    assert_eq!(auth_middleware(&config(), Some(&header), T0 + 60), Ok(ID));
}

#[test]
fn middleware_rejects_bad_requests() {
    let cfg = config();
    let t = issue_token(&cfg, ID, T0);
    let missing = auth_middleware(&cfg, None, T0).unwrap_err();
    assert_eq!(missing, NO_TOKEN);
    assert_eq!(missing.status(), 401);
    assert_eq!(missing.message(), "No valid auth token found");
    assert_eq!(auth_middleware(&cfg, Some(&t), T0), Err(NO_TOKEN));
    assert_eq!(auth_middleware(&cfg, Some("Bearer not.a.token"), T0), Err(INVALID_TOKEN));
    let expired = format!("Bearer {}", t);
    assert_eq!(
        auth_middleware(&cfg, Some(&expired), T0 + TOKEN_TTL_SECS),
        Err(INVALID_TOKEN)
    );
    let mut tampered = t.clone();
    let last = tampered.pop().unwrap();
    tampered.push(if last == 'A' { 'B' } else { 'A' });
    let tampered = format!("Bearer {}", tampered);
    assert_eq!(auth_middleware(&cfg, Some(&tampered), T0), Err(INVALID_TOKEN));
}

#[test]
fn error_statuses_and_messages() {
    assert_eq!(AuthError::Internal(InternalCause::Hashing).message(), "Failed to hash password");
    assert_eq!(AuthError::Internal(InternalCause::TokenSigning).message(), "Failed to create token");
    assert_eq!(AuthError::Internal(InternalCause::HashCheck).status(), 500);
    assert_eq!(
        AuthError::DuplicateEmail.body(),
        "{\"status\":\"error\",\"message\":\"User with that email already exists\"}"
    );
}

#[test]
fn issued_token_is_a_nonempty_jwt() {
    let t = issue_token(&config(), ID, T0);
    assert!(!t.is_empty());
    assert_eq!(t.split('.').count(), 3);
    assert_ne!(t, issue_token(&config(), ID, T0 + 1));
}

#[test]
fn token_failures_share_one_message() {
    let cfg = config();
    let t = issue_token(&cfg, ID, T0);
    let not_a_token = auth_middleware(&cfg, Some("Bearer garbage"), T0).unwrap_err();
    let expired = auth_middleware(&cfg, Some(&format!("Bearer {}", t)), T0 + TOKEN_TTL_SECS).unwrap_err();
    let other = AuthConfig { jwt_secret: b"another-secret".to_vec() };
    let forged = auth_middleware(&cfg, Some(&format!("Bearer {}", issue_token(&other, ID, T0))), T0)
        .unwrap_err();
    assert_eq!(not_a_token, expired);
    assert_eq!(expired, forged);
    assert_eq!(forged.status(), 401);
    assert_eq!(forged.message(), "Invalid token");
    assert_eq!(forged.body(), "{\"status\":\"error\",\"message\":\"Invalid token\"}");
    assert_eq!(INVALID_SUBJECT.message(), "Invalid token subject");
    assert_eq!(INVALID_SUBJECT.status(), 401);
}

#[test]
fn new_user_builds_row_from_hash() {
    let body = CreateUserSchema {
        email: "a@b.com".to_string(),
        password: "secret1".to_string(),
        full_name: "A B".to_string(),
    };
    let u = new_user(&body, "$2b$04$hash".to_string(), ID, 9);
    assert_eq!(u.password, "$2b$04$hash");
    assert_eq!(u.email, "a@b.com");
    assert_eq!(u.full_name, "A B");
    assert_eq!(u.role, "user");
    assert_eq!(u.id, ID);
    assert_eq!((u.created_at, u.updated_at), (9, 9));
}
