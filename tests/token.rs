use auth_gateway::error::ErrorKind;
use auth_gateway::gate::{authorize, bearer_part};
use auth_gateway::hex::{push_hex, read_hex};
use auth_gateway::token::{create_token, parse_claims, signing_message, validate_token, Claims, TokenSettings};

fn settings(validity_secs: u64) -> TokenSettings {
    TokenSettings { secret: b"secret_key".to_vec(), validity_secs }
}

#[test]
fn token_text_is_exact() {
    let t = create_token(1, 0, &settings(16)).unwrap();
    assert_eq!(
        t,
        "HS256.000000000000000100000000000000000000000000000010.7fKMnsUHZ4Td-H9rCh7XVmo43PSqLElH91aek0mjiLg"
    );
}

#[test]
fn signature_is_not_the_message() {
    let t = create_token(1, 0, &settings(16)).unwrap();
    let signature = &t[55..];
    assert_ne!(signature, &t[..54]);
    assert_eq!(signature.len(), 43);
    assert_eq!(t.len(), 98);
    assert!(signature.chars().all(|c| c.is_ascii_alphanumeric() || c == '-' || c == '_'));
}

#[test]
fn signing_message_of_negative_subject() {
    let c = Claims::new(-1, 100, 200);
    assert_eq!(signing_message(&c), "HS256.ffffffffffffffff000000000000006400000000000000c8");
}

#[test]
fn issued_token_verifies_to_its_subject() {
    let s = settings(3600);
    for id in [1i64, 42, -7, i64::MAX, i64::MIN] {
        let t = create_token(id, 1_000, &s).unwrap();
        assert_eq!(validate_token(&t, 1_000, &s).unwrap(), id);
        assert_eq!(validate_token(&t, 4_600, &s).unwrap(), id);
    }
}

#[test]
fn claims_read_back() {
    let t = create_token(9, 50, &settings(10)).unwrap();
    let c = parse_claims(&t).unwrap();
    assert_eq!(c.data.id, 9);
    assert_eq!(c.created_at, 50);
    assert_eq!(c.exp, 60);
}

#[test]
fn expired_token_is_rejected() {
    let s = settings(10);
    let t = create_token(5, 100, &s).unwrap();
    assert!(validate_token(&t, 110, &s).is_ok());
    let e = validate_token(&t, 111, &s).unwrap_err();
    assert_eq!(e.kind, ErrorKind::Unauthorized);
    assert_eq!(e.http_code, 401);
    assert_eq!(e.message, "token expired");
}

#[test]
fn tampered_signature_is_rejected() {
    let s = settings(1000);
    let t = create_token(5, 100, &s).unwrap();
    let mut forged = t[..55].to_string();
    let last = if t.ends_with('A') { "B" } else { "A" };
    forged.push_str(&t[55..t.len() - 1]);
    forged.push_str(last);
    let e = validate_token(&forged, 100, &s).unwrap_err();
    assert_eq!(e.kind, ErrorKind::Unauthorized);
    assert_eq!(e.message, "invalid token");
}

#[test]
fn tampered_claims_are_rejected() {
    let s = settings(1000);
    let t = create_token(5, 100, &s).unwrap();
    let forged = t.replacen("0000000000000005", "0000000000000006", 1);
    assert_ne!(forged, t);
    assert_eq!(validate_token(&forged, 100, &s).unwrap_err().http_code, 401);
}

#[test]
fn other_key_is_rejected() {
    let t = create_token(5, 100, &settings(1000)).unwrap();
    let other = TokenSettings { secret: b"another_key".to_vec(), validity_secs: 1000 };
    assert_eq!(validate_token(&t, 100, &other).unwrap_err().kind, ErrorKind::Unauthorized);
}

#[test]
fn garbage_token_is_rejected() {
    let s = settings(1000);
    for t in ["", "garbage", "HS256.zz.zz", "a.b.c"] {
        let e = validate_token(t, 0, &s).unwrap_err();
        assert_eq!(e.kind, ErrorKind::Unauthorized);
        assert_eq!(e.http_code, 401);
    }
}

#[test]
fn expiry_past_clock_range_fails() {
    let e = create_token(1, u64::MAX - 5, &settings(10)).unwrap_err();
    assert_eq!(e.kind, ErrorKind::SystemTime);
    assert_eq!(e.http_code, 500);
    assert_eq!(e.message, "internal server error");
}

#[test]
fn hex_fields_round_trip() {
    let mut out = String::from("x");
    push_hex(&mut out, 0x0123_4567_89ab_cdef);
    assert_eq!(out, "x0123456789abcdef");
    assert_eq!(read_hex(&out, 1), Some(0x0123_4567_89ab_cdef));
    assert_eq!(read_hex("0123456789abcdeg", 0), None);
    assert_eq!(read_hex("0123456789ABCDEF", 0), None);
}

#[test]
fn gate_without_header_is_bad_request() {
    let e = authorize(None, 0, &settings(10)).unwrap_err();
    assert_eq!(e.kind, ErrorKind::InvalidInput);
    assert_eq!(e.http_code, 400);
    assert_eq!(e.message, "missing header");
}

#[test]
fn gate_with_garbage_is_unauthorized() {
    let e = authorize(Some("Bearer garbage"), 0, &settings(10)).unwrap_err();
    assert_eq!(e.http_code, 401);
}

#[test]
fn gate_accepts_bearer_and_bare_tokens() {
    let s = settings(100);
    let t = create_token(77, 10, &s).unwrap();
    let header = format!("Bearer {}", t);
    assert_eq!(authorize(Some(&header), 20, &s).unwrap(), 77);
    assert_eq!(authorize(Some(&t), 20, &s).unwrap(), 77);
    assert_eq!(authorize(Some(&header), 111, &s).unwrap_err().http_code, 401);
}

#[test]
fn bearer_prefix_is_stripped_once() {
    assert_eq!(bearer_part("Bearer abc"), "abc");
    assert_eq!(bearer_part("abc"), "abc");
    assert_eq!(bearer_part("Bearer"), "Bearer");
    assert_eq!(bearer_part("bearer abc"), "bearer abc");
}
