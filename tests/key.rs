use auth_gate::key::{SigningKey, FALLBACK_SECRET};
use auth_gate::token::{create_token_at, verify_token_at};

#[test]
fn unset_configuration_uses_fallback() {
    let k = SigningKey::from_config(None);
    assert_eq!(k.secret(), b"secret_key");
    assert_eq!(FALLBACK_SECRET, "secret_key");
}

#[test]
fn configured_secret_is_used() {
    let k = SigningKey::from_config(Some("s3cr3t".to_string()));
    assert_eq!(k.secret(), b"s3cr3t");
    let same = SigningKey::new(b"s3cr3t");
    let token = create_token_at(&k, "alice", 1_000).unwrap();
    assert_eq!(verify_token_at(&same, &token, 1_000).unwrap().subject, "alice");
}

#[test]
fn configured_secret_keeps_utf8_bytes() {
    let k = SigningKey::from_config(Some("ключ".to_string()));
    assert_eq!(k.secret(), "ключ".as_bytes());
}
