use opengrok_mcp::access::{check_bearer, constant_time_ne, token_auth_enabled, TokenCheck};
use subtle::ConstantTimeEq;

#[test]
fn constant_time_eq_matches() {
    assert!(bool::from(b"abc".ct_eq(b"abc")));
    assert!(bool::from(b"".ct_eq(b"")));
}

#[test]
fn constant_time_eq_mismatches() {
    assert!(bool::from(b"abc".ct_ne(b"abd")));
    assert!(bool::from(b"abc".ct_ne(b"ab")));
    assert!(bool::from(b"abc".ct_ne(b"ABC")));
}

#[test]
fn constant_time_ne_on_strings() {
    assert!(!constant_time_ne("abc", "abc"));
    assert!(!constant_time_ne("", ""));
    assert!(constant_time_ne("abc", "abd"));
    assert!(constant_time_ne("abc", "ab"));
    assert!(constant_time_ne("abc", "ABC"));
}

#[test]
fn correct_token_passes() {
    assert_eq!(check_bearer(Some("Bearer secret"), "secret"), TokenCheck::Accepted);
}

#[test]
fn wrong_token_returns_401() {
    assert_eq!(check_bearer(Some("Bearer wrong"), "secret"), TokenCheck::InvalidToken);
}

#[test]
fn missing_header_returns_401() {
    assert_eq!(check_bearer(None, "secret"), TokenCheck::MissingHeader);
    assert_eq!(check_bearer(Some("Basic c2VjcmV0"), "secret"), TokenCheck::MissingHeader);
    assert_eq!(check_bearer(Some("bearer secret"), "secret"), TokenCheck::MissingHeader);
}

#[test]
fn token_auth_is_enabled_by_a_non_empty_token() {
    assert!(token_auth_enabled("secret"));
    assert!(!token_auth_enabled(""));
}
