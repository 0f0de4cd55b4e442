use auth_gate::gate::{strip_bearer, with_auth, with_auth_at, AuthOutcome};
use auth_gate::key::SigningKey;
use auth_gate::token::{create_token, create_token_at};

const T0: u64 = 1_700_000_000;

fn subject_of(outcome: AuthOutcome) -> Option<String> {
    match outcome {
        AuthOutcome::Authorized(c) => Some(c.subject),
        AuthOutcome::Rejected => None,
    }
}

#[test]
fn missing_header_is_rejected() {
    let k = SigningKey::new(b"gate");
    assert!(matches!(with_auth_at(&k, None, T0), AuthOutcome::Rejected));
}

#[test]
fn bearer_token_is_authorized() {
    let k = SigningKey::new(b"gate");
    let token = create_token_at(&k, "alice", T0).unwrap();
    let header = format!("Bearer {}", token);
    assert_eq!(subject_of(with_auth_at(&k, Some(&header), T0 + 10)), Some("alice".to_string()));
}

#[test]
fn bare_token_is_authorized() {
    let k = SigningKey::new(b"gate");
    let token = create_token_at(&k, "alice", T0).unwrap();
    assert_eq!(subject_of(with_auth_at(&k, Some(&token), T0 + 10)), Some("alice".to_string()));
}

#[test]
fn expired_and_forged_are_both_just_rejected() {
    let k = SigningKey::new(b"gate");
    let token = create_token_at(&k, "alice", T0).unwrap();
    let header = format!("Bearer {}", token);
    assert!(matches!(with_auth_at(&k, Some(&header), T0 + 3600), AuthOutcome::Rejected));
    let other = SigningKey::new(b"other");
    assert!(matches!(with_auth_at(&other, Some(&header), T0 + 10), AuthOutcome::Rejected));
    assert!(matches!(with_auth_at(&k, Some("Bearer garbage"), T0), AuthOutcome::Rejected));
    assert!(matches!(with_auth_at(&k, Some(""), T0), AuthOutcome::Rejected));
}

#[test]
fn gate_on_the_wall_clock() {
    let k = SigningKey::new(b"gate");
    let token = create_token(&k, "bob").unwrap();
    let header = format!("Bearer {}", token);
    assert_eq!(subject_of(with_auth(&k, Some(&header))), Some("bob".to_string()));
    assert!(matches!(with_auth(&k, None), AuthOutcome::Rejected));
}

#[test]
fn strip_bearer_removes_one_prefix() {
    assert_eq!(strip_bearer("Bearer abc"), "abc");
    assert_eq!(strip_bearer("abc"), "abc");
    assert_eq!(strip_bearer("Bearer Bearer abc"), "Bearer abc");
    assert_eq!(strip_bearer("Bearer "), "");
    assert_eq!(strip_bearer("bearer abc"), "bearer abc");
    assert_eq!(strip_bearer("Bearer"), "Bearer");
    assert_eq!(strip_bearer(""), "");
}

#[test]
fn doubled_prefix_is_rejected() {
    let k = SigningKey::new(b"gate");
    let token = create_token_at(&k, "alice", T0).unwrap();
    let header = format!("Bearer Bearer {}", token);
    assert!(matches!(with_auth_at(&k, Some(&header), T0), AuthOutcome::Rejected));
}
