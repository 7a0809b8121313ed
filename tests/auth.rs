use auth_gateway::api::{check_credentials, LoginPayload, RegisterPayload};
use auth_gateway::auth::{check_credential, get_user_by_id, login, prepare_login, prepare_registration, register, resolve_user, AuthSettings};
use auth_gateway::config::{log_filter, Config, Database};
use auth_gateway::error::{Error, ErrorKind};
use auth_gateway::gate::authorize;
use auth_gateway::password::normalize_email;
use auth_gateway::store::{MemoryStore, UserDb};
use auth_gateway::token::{validate_token, TokenSettings};

fn settings() -> AuthSettings {
    AuthSettings {
        token: TokenSettings { secret: b"secret_key".to_vec(), validity_secs: 86_400 },
        hash_cost: 4,
    }
}

fn reg(email: &str, password: &str) -> RegisterPayload {
    RegisterPayload::new(email.to_string(), password.to_string())
}

fn log(email: &str, password: &str) -> LoginPayload {
    LoginPayload::new(email.to_string(), password.to_string())
}

#[test]
fn register_login_and_gate_scenario() {
    let s = settings();
    let mut store = MemoryStore::new();
    let first = register(&mut store, &reg("a@b.com", "secret1"), &s, 1_000).unwrap();
    assert!(!first.is_empty());
    let second = login(&store, &log("a@b.com", "secret1"), &s, 1_005).unwrap();
    let a = validate_token(&first, 1_010, &s.token).unwrap();
    let b = validate_token(&second, 1_010, &s.token).unwrap();
    assert_eq!(a, b);
    let e = login(&store, &log("a@b.com", "wrongpw"), &s, 1_005).unwrap_err();
    assert_eq!(e.http_code, 401);
    assert_eq!(authorize(None, 1_010, &s.token).unwrap_err().http_code, 400);
    assert_eq!(authorize(Some("Bearer garbage"), 1_010, &s.token).unwrap_err().http_code, 401);
}

#[test]
fn registered_user_logs_in_as_itself() {
    let s = settings();
    let mut store = MemoryStore::new();
    register(&mut store, &reg("first@example.com", "password1"), &s, 0).unwrap();
    let t = register(&mut store, &reg("second@example.com", "password2"), &s, 0).unwrap();
    assert_eq!(validate_token(&t, 0, &s.token).unwrap(), 2);
    let t = login(&store, &log("second@example.com", "password2"), &s, 50).unwrap();
    assert_eq!(validate_token(&t, 50, &s.token).unwrap(), 2);
    let u = get_user_by_id(&store, 2).unwrap();
    assert_eq!(u.id, 2);
    assert_eq!(u.email, "second@example.com");
}

#[test]
fn duplicate_email_is_a_conflict() {
    let s = settings();
    let mut store = MemoryStore::new();
    register(&mut store, &reg("a@b.com", "secret1"), &s, 0).unwrap();
    let e = register(&mut store, &reg("A@B.com", "another1"), &s, 0).unwrap_err();
    assert_eq!(e.kind, ErrorKind::Conflict);
    assert_eq!(e.http_code, 409);
    assert_eq!(store.len(), 1);
    assert!(login(&store, &log("a@b.com", "secret1"), &s, 0).is_ok());
    assert_eq!(login(&store, &log("a@b.com", "another1"), &s, 0).unwrap_err().kind, ErrorKind::Unauthorized);
}

#[test]
fn email_is_matched_without_case() {
    let s = settings();
    let mut store = MemoryStore::new();
    register(&mut store, &reg("Mixed@Case.ORG", "secret1"), &s, 0).unwrap();
    let t = login(&store, &log("mixed@case.org", "secret1"), &s, 0).unwrap();
    assert_eq!(validate_token(&t, 0, &s.token).unwrap(), 1);
    assert_eq!(store.find_by_email("mixed@case.org").unwrap().email, "mixed@case.org");
}

#[test]
fn wrong_password_fails_like_unknown_email() {
    let s = settings();
    let mut store = MemoryStore::new();
    register(&mut store, &reg("a@b.com", "secret1"), &s, 0).unwrap();
    let wrong = login(&store, &log("a@b.com", "wrongpw"), &s, 0).unwrap_err();
    let unknown = login(&store, &log("nobody@b.com", "secret1"), &s, 0).unwrap_err();
    assert_eq!(wrong.kind, ErrorKind::Unauthorized);
    assert_eq!(unknown.kind, ErrorKind::Unauthorized);
    assert_eq!(wrong.http_code, unknown.http_code);
    assert_eq!(wrong.message, "credential mismatch");
    assert_eq!(unknown.message, "identity not found");
}

#[test]
fn short_credentials_are_invalid_input() {
    let s = settings();
    let mut store = MemoryStore::new();
    let e = register(&mut store, &reg("a@b.c", "secret1"), &s, 0).unwrap_err();
    assert_eq!(e.kind, ErrorKind::InvalidInput);
    assert_eq!(e.http_code, 400);
    assert_eq!(e.message, "length of email need be more than 6");
    let e = login(&store, &log("a@b.com", "short"), &s, 0).unwrap_err();
    assert_eq!(e.kind, ErrorKind::InvalidInput);
    assert_eq!(e.message, "length of password need to be more than 6");
    assert_eq!(store.len(), 0);
}

#[test]
fn validate_counts_characters() {
    assert!(check_credentials("ab@c.d", "123456").is_ok());
    assert_eq!(check_credentials("ab@c.", "123456").unwrap_err(), "length of email need be more than 6");
    assert_eq!(check_credentials("ab@c.de", "12345").unwrap_err(), "length of password need to be more than 6");
    assert!(reg("é@ü.ß", "secret1").validate().is_err());
    assert!(log("éé@ü.ß", "secret1").validate().is_ok());
}

#[test]
fn prepared_record_holds_a_hash_that_matches() {
    let u = prepare_registration(&reg("Who@Where.net", "secret1"), 4).unwrap();
    assert_eq!(u.id, 0);
    assert_eq!(u.email, "who@where.net");
    assert_ne!(u.password, "secret1");
    assert_eq!(u.password.len(), 60);
    assert!(u.password.starts_with("$2b$04$"));
    let stored = UserDb::new(12, u.email.clone(), u.password.clone());
    assert_eq!(check_credential(Some(stored), "secret1").unwrap(), 12);
    let stored = UserDb::new(12, u.email, u.password);
    assert_eq!(check_credential(Some(stored), "secret2").unwrap_err().message, "credential mismatch");
    assert_eq!(check_credential(None, "secret1").unwrap_err().message, "identity not found");
}

#[test]
fn unusable_credential_does_not_match() {
    let stored = UserDb::new(3, "a@b.com".to_string(), "not a hash".to_string());
    let e = check_credential(Some(stored), "secret1").unwrap_err();
    assert_eq!(e.kind, ErrorKind::Unauthorized);
}

#[test]
fn hashing_failure_is_internal() {
    let e = prepare_registration(&reg("a@b.com", "secret1"), 99).err().unwrap();
    assert_eq!(e.kind, ErrorKind::Hash);
    assert_eq!(e.http_code, 500);
    assert_eq!(e.message, "internal server error");
}

#[test]
fn unknown_user_number_is_unauthorized() {
    let store = MemoryStore::new();
    assert_eq!(get_user_by_id(&store, 1).err().unwrap().kind, ErrorKind::Unauthorized);
    assert!(store.find_by_id(0).is_none());
}

#[test]
fn store_numbers_users_and_refuses_duplicates() {
    let mut store = MemoryStore::new();
    assert_eq!(store.create("x@y.com".to_string(), "h1".to_string()).unwrap(), 1);
    assert_eq!(store.create("z@y.com".to_string(), "h2".to_string()).unwrap(), 2);
    assert_eq!(store.create("x@y.com".to_string(), "h3".to_string()).unwrap_err().kind, ErrorKind::Conflict);
    let found = store.find_by_id(2).unwrap();
    assert_eq!(found.email, "z@y.com");
    assert_eq!(found.password, "");
    assert_eq!(store.find_by_email("x@y.com").unwrap().password, "h1");
    assert!(store.find_by_email("X@y.com").is_none());
}

#[test]
fn error_table() {
    let cases = [
        (ErrorKind::SystemTime, 500),
        (ErrorKind::Serialization, 500),
        (ErrorKind::Hash, 500),
        (ErrorKind::Store, 500),
        (ErrorKind::Token, 401),
        (ErrorKind::Conflict, 409),
        (ErrorKind::Unauthorized, 401),
        (ErrorKind::NotFound, 401),
        (ErrorKind::InvalidInput, 400),
    ];
    for (kind, status) in cases {
        let e = Error::new(kind, "driver said: table users is locked");
        assert_eq!(e.http_code, status);
        assert_eq!(kind.status(), status);
        if kind.internal() {
            assert_eq!(e.message, "internal server error");
        } else {
            assert_eq!(e.message, "driver said: table users is locked");
        }
    }
}

#[test]
fn email_normalization_lowercases() {
    assert_eq!(normalize_email("A@B.COM"), "a@b.com");
    assert_eq!(normalize_email("already@lower.io"), "already@lower.io");
}

#[test]
fn log_levels() {
    assert_eq!(log_filter("DEBUG"), "debug");
    assert_eq!(log_filter("warn"), "warn");
    assert_eq!(log_filter("verbose"), "info");
    assert_eq!(log_filter(""), "info");
}

#[test]
fn prepare_login_normalizes_or_refuses() {
    assert_eq!(prepare_login(&log("User@Host.com", "secret1")).unwrap(), "user@host.com");
    let e = prepare_login(&log("u@h.c", "secret1")).unwrap_err();
    assert_eq!(e.kind, ErrorKind::InvalidInput);
    assert_eq!(e.http_code, 400);
}

#[test]
fn resolve_user_maps_records() {
    let u = resolve_user(Some(UserDb::new(5, "a@b.com".to_string(), String::new()))).unwrap();
    assert_eq!(u.id, 5);
    assert_eq!(u.email, "a@b.com");
    let e = resolve_user(None).unwrap_err();
    assert_eq!(e.http_code, 401);
    assert_eq!(e.message, "identity not found");
}

#[test]
fn failed_registration_leaves_store_alone() {
    let mut s = settings();
    let mut store = MemoryStore::new();
    register(&mut store, &reg("a@b.com", "secret1"), &s, 0).unwrap();
    s.token.validity_secs = u64::MAX;
    let e = register(&mut store, &reg("c@d.com", "secret1"), &s, 10).unwrap_err();
    assert_eq!(e.kind, ErrorKind::SystemTime);
    assert_eq!(store.len(), 1);
    assert!(store.find_by_email("c@d.com").is_none());
}

#[test]
fn config_holds_its_values() {
    let db = Database {
        db_name: "auth".to_string(),
        user: "svc".to_string(),
        host: "localhost".to_string(),
        password: "SECRET-REDACTED".to_string(),
    };
    let c = Config::new("8080".to_string(), db, "debug".to_string());
    assert_eq!(c.port, "8080");
    assert_eq!(c.database.host, "localhost");
    assert_eq!(log_filter(&c.log_level), "debug");
}

#[test]
fn default_record_is_empty() {
    let u = UserDb::default();
    assert_eq!(u.id, 0);
    assert!(u.email.is_empty());
    assert!(u.password.is_empty());
}

#[test]
fn error_kind_names() {
    assert_eq!(ErrorKind::SystemTime.name(), "system_time");
    assert_eq!(ErrorKind::InvalidInput.name(), "invalid_input");
    assert_eq!(ErrorKind::Conflict.name(), "conflict");
    assert_eq!(ErrorKind::NotFound.name(), "not_found");
}

#[test]
fn registered_credential_is_a_bcrypt_hash_of_the_configured_cost() {
    let s = settings();
    let mut store = MemoryStore::new();
    register(&mut store, &reg("a@b.com", "secret1"), &s, 0).unwrap();
    let stored = store.find_by_email("a@b.com").unwrap();
    assert_ne!(stored.password, "secret1");
    assert_eq!(stored.password.len(), 60);
    assert!(stored.password.starts_with("$2b$04$"));
    assert!(store.find_by_id(1).unwrap().password.is_empty());
}
