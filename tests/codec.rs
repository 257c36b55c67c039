use user_portal::codec::{hash_password, verify_password, CodecError};
use user_portal::text::hex_lower;
use user_portal::user::User;

const PASSWORD_DIGEST: &str = "$2a$04$UuTkLRZZ6QofpDOlMz32MuuxEHA43WOemOYHPz6.SjsVsyO1tDU96";
const STAPLER_DIGEST: &str = "$2b$04$EGdrhbKUv8Oc9vGiXX0HQOxSg445d458Muh7DAHskb6QbtCvdxcie";

#[test]
fn verify_known_digest() {
    assert_eq!(verify_password("password", PASSWORD_DIGEST), Ok(true));
    assert_eq!(verify_password("correctbatteryhorsestapler", STAPLER_DIGEST), Ok(true));
}

#[test]
fn verify_rejects_wrong_password() {
    assert_eq!(verify_password("wrong", STAPLER_DIGEST), Ok(false));
    assert_eq!(verify_password("Password", PASSWORD_DIGEST), Ok(false));
}

#[test]
fn verify_malformed_digest_is_an_error() {
    assert_eq!(verify_password("password", "not a digest"), Err(CodecError::MalformedDigest));
    assert_eq!(
        verify_password("password", "$2a$04$tjARW6ZON3PhrAIRW2LG/u9a."),
        Err(CodecError::MalformedDigest)
    );
}

#[test]
fn hash_then_verify() {
    let d = hash_password("pw123").unwrap();
    assert_eq!(d.len(), 60);
    assert_ne!(d, "pw123");
    assert_eq!(verify_password("pw123", &d), Ok(true));
}

#[test]
fn hash_does_not_verify_other_password() {
    let d = hash_password("pw123").unwrap();
    assert_eq!(verify_password("pw124", &d), Ok(false));
}

#[test]
fn hash_twice_gives_different_digests() {
    let a = hash_password("secret").unwrap();
    let b = hash_password("secret").unwrap();
    assert_ne!(a, b);
}

#[test]
fn hex_of_bytes() {
    assert_eq!(hex_lower(&[]), "");
    assert_eq!(hex_lower(&[0x00, 0x0f, 0xa5, 0xff]), "000fa5ff");
}

#[test]
fn gravatar_hash_normalises_email() {
    let mut u = User::new_record(
        "alice".to_string(),
        "  Alice@Example.COM ".to_string(),
        "d".to_string(),
    );
    let h = u.get_gravatar_hash();
    assert_eq!(h, "c160f8cc69a4f0bf2b0362752353d060");
    u.email = "alice@example.com".to_string();
    assert_eq!(u.get_gravatar_hash(), h);
}

#[test]
fn gravatar_hash_of_empty_email() {
    let u = User::new_record("x".to_string(), String::new(), "d".to_string());
    assert_eq!(u.get_gravatar_hash(), "d41d8cd98f00b204e9800998ecf8427e");
}

#[test]
fn new_record_defaults() {
    let a = User::new_record("alice".to_string(), "a@x.com".to_string(), "d".to_string());
    let b = User::new_record("alice".to_string(), "a@x.com".to_string(), "d".to_string());
    assert_eq!(a.id.len(), 36);
    assert_ne!(a.id, b.id);
    assert_eq!(a.username, "alice");
    assert_eq!(a.email, "a@x.com");
    assert_eq!(a.password, "d");
    assert_eq!(a.secret, None);
    assert_eq!(a.flags, 0);
}
