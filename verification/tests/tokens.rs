use himawari::credential::{Email, Info, Username};
use himawari::token::{
    parse_bearer, TokenError, TokenFailure, TokenService, VALIDITY_WINDOW_SECS,
};

fn identity() -> Info {
    Info {
        username: Username::new(String::from("alice")).unwrap(),
        display_name: Username::new(String::from("Alice")).unwrap(),
        email: Email::new(String::from("alice@example.com")).unwrap(),
        created: 1_600_000_000,
    }
}

fn service() -> TokenService {
    TokenService::new(b"a signing key loaded at startup".to_vec())
}

#[test]
fn issue_then_verify_returns_the_claims_unchanged() {
    let svc = service();
    let now = 1_700_000_000u64;
    let token = svc.issue(&identity(), now);
    let claims = svc.verify(token.as_str(), now).unwrap();
    assert_eq!(claims.username, "alice");
    assert_eq!(claims.display_name, "Alice");
    assert_eq!(claims.email, "alice@example.com");
    assert_eq!(claims.created, 1_600_000_000);
    assert_eq!(claims.expiry, now + VALIDITY_WINDOW_SECS);
}

#[test]
fn token_is_valid_just_before_expiry_and_not_after() {
    let svc = service();
    let now = 1_700_000_000u64;
    let token = svc.issue(&identity(), now);
    let expiry = now + VALIDITY_WINDOW_SECS;
    assert!(svc.verify(token.as_str(), expiry).is_ok());
    assert_eq!(
        svc.verify(token.as_str(), expiry + 1).unwrap_err(),
        TokenError::Expired
    );
}

#[test]
fn flipped_signature_byte_is_tampered_never_valid() {
    let svc = service();
    let now = 1_700_000_000u64;
    let token = svc.issue(&identity(), now).into_string();
    // flip one hex digit of the signature part
    let mut chars: Vec<char> = token.chars().collect();
    chars[10] = if chars[10] == '0' { '1' } else { '0' };
    let flipped: String = chars.iter().collect();
    assert_eq!(
        svc.verify(&flipped, now).unwrap_err(),
        TokenError::Tampered
    );
}

#[test]
fn expired_token_with_genuine_signature_is_expired_not_tampered() {
    let svc = service();
    let issued_at = 1_600_000_000u64;
    let token = svc.issue(&identity(), issued_at);
    let much_later = issued_at + VALIDITY_WINDOW_SECS + 86_400;
    assert_eq!(
        svc.verify(token.as_str(), much_later).unwrap_err(),
        TokenError::Expired
    );
}

#[test]
fn tampered_payload_is_rejected() {
    let svc = service();
    let now = 1_700_000_000u64;
    let token = svc.issue(&identity(), now).into_string();
    // change a payload character after the dot
    let mut chars: Vec<char> = token.chars().collect();
    let last = chars.len() - 1;
    chars[last] = if chars[last] == '0' { '1' } else { '0' };
    let altered: String = chars.iter().collect();
    let err = svc.verify(&altered, now).unwrap_err();
    assert_eq!(err, TokenError::Tampered);
}

#[test]
fn verification_under_another_key_fails() {
    let svc = service();
    let other = TokenService::new(b"a different signing key".to_vec());
    let now = 1_700_000_000u64;
    let token = svc.issue(&identity(), now);
    assert_eq!(
        other.verify(token.as_str(), now).unwrap_err(),
        TokenError::Tampered
    );
}

#[test]
fn garbage_is_malformed() {
    let svc = service();
    assert_eq!(
        svc.verify("not a token", 0).unwrap_err(),
        TokenError::Malformed
    );
    assert_eq!(svc.verify("", 0).unwrap_err(), TokenError::Malformed);
}

#[test]
fn missing_header_is_missing() {
    assert_eq!(parse_bearer(None).unwrap_err(), TokenFailure::Missing);
}

#[test]
fn non_bearer_header_is_malformed() {
    assert_eq!(
        parse_bearer(Some("Basic dXNlcjpwYXNz")).unwrap_err(),
        TokenFailure::Malformed
    );
}

#[test]
fn bearer_header_is_trimmed() {
    assert_eq!(parse_bearer(Some("Bearer:  abc.def  ")).unwrap(), "abc.def");
    assert_eq!(parse_bearer(Some("Bearer:tok")).unwrap(), "tok");
}

#[test]
fn bearer_round_trip_through_header() {
    let svc = service();
    let now = 1_700_000_000u64;
    let token = svc.issue(&identity(), now).into_string();
    let header = format!("Bearer: {}", token);
    let extracted = parse_bearer(Some(header.as_str())).unwrap();
    assert!(svc.verify(&extracted, now).is_ok());
}

#[test]
fn claims_report_their_own_expiry() {
    let svc = service();
    let now = 1_700_000_000u64;
    let token = svc.issue(&identity(), now);
    let claims = svc.verify(token.as_str(), now).unwrap();
    assert!(!claims.expired(now));
    assert!(!claims.expired(now + VALIDITY_WINDOW_SECS));
    assert!(claims.expired(now + VALIDITY_WINDOW_SECS + 1));
}
