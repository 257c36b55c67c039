use user_portal::flags::{
    USER_FLAG_ADMIN, USER_FLAG_EMAIL_VERIFIED, USER_FLAG_SUSPENDED, USER_FLAG_TWO_FACTOR_AUTH,
};
use user_portal::user::User;

fn sample_user(flags: i32) -> User {
    User {
        id: "id-1".to_string(),
        username: "alice".to_string(),
        email: "a@x.com".to_string(),
        password: "digest".to_string(),
        secret: None,
        flags,
    }
}

#[test]
fn set_then_unset_restores_flags() {
    let mut u = sample_user(USER_FLAG_ADMIN | USER_FLAG_EMAIL_VERIFIED);
    u.set_flag(USER_FLAG_SUSPENDED);
    assert!(u.has_flag(USER_FLAG_SUSPENDED));
    assert_eq!(u.flags, 11);
    u.unset_flag(USER_FLAG_SUSPENDED);
    assert_eq!(u.flags, USER_FLAG_ADMIN | USER_FLAG_EMAIL_VERIFIED);
    assert!(!u.has_flag(USER_FLAG_SUSPENDED));
}

#[test]
fn set_and_unset_are_idempotent() {
    let mut u = sample_user(0);
    u.set_flag(USER_FLAG_TWO_FACTOR_AUTH);
    u.set_flag(USER_FLAG_TWO_FACTOR_AUTH);
    assert_eq!(u.flags, 4);
    u.unset_flag(USER_FLAG_TWO_FACTOR_AUTH);
    u.unset_flag(USER_FLAG_TWO_FACTOR_AUTH);
    assert_eq!(u.flags, 0);
}

#[test]
fn flags_do_not_interfere() {
    let mut u = sample_user(0);
    u.set_flag(USER_FLAG_ADMIN);
    u.set_flag(USER_FLAG_EMAIL_VERIFIED);
    assert!(u.has_flag(USER_FLAG_ADMIN));
    assert!(u.has_flag(USER_FLAG_EMAIL_VERIFIED));
    assert!(!u.has_flag(USER_FLAG_SUSPENDED));
    assert!(!u.has_flag(USER_FLAG_TWO_FACTOR_AUTH));
    u.unset_flag(USER_FLAG_ADMIN);
    assert!(!u.has_flag(USER_FLAG_ADMIN));
    assert!(u.has_flag(USER_FLAG_EMAIL_VERIFIED));
    assert_eq!(u.flags, 8);
}

#[test]
fn compound_mask_needs_every_bit() {
    let u = sample_user(USER_FLAG_ADMIN);
    assert!(!u.has_flag(USER_FLAG_ADMIN | USER_FLAG_SUSPENDED));
    assert!(u.has_flag(0));
    let v = sample_user(3);
    assert!(v.has_flag(USER_FLAG_ADMIN | USER_FLAG_SUSPENDED));
}

#[test]
fn unset_of_a_flag_already_held_clears_it() {
    let mut u = sample_user(USER_FLAG_ADMIN);
    u.set_flag(USER_FLAG_ADMIN);
    u.unset_flag(USER_FLAG_ADMIN);
    assert_eq!(u.flags, 0);
}

#[test]
fn set_flag_keeps_other_fields() {
    let mut u = sample_user(0);
    u.set_flag(USER_FLAG_ADMIN);
    assert_eq!(u.id, "id-1");
    assert_eq!(u.email, "a@x.com");
    assert_eq!(u.secret, None);
}
