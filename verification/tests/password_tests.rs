use auth_backend::password::{
    hash_password, hash_password_with_salt, outcome_of_verdict, password_matches,
    verify_password, PasswordError,
};

const SALT: &str = "c29tZXNhbHRzb21lc2FsdA";

#[test]
fn hash_then_verify_succeeds() {
    let hash = hash_password("secret1").expect("password should hash");
    assert_eq!(verify_password(&hash, "secret1"), Ok(()));
    assert!(password_matches(&hash, "secret1"));
}

#[test]
fn hash_then_verify_succeeds_for_the_empty_password() {
    let hash = hash_password("").expect("password should hash");
    assert_eq!(verify_password(&hash, ""), Ok(()));
}

#[test]
fn hash_then_verify_succeeds_beyond_ascii() {
    let password = "p\u{e4}ssw\u{f6}rd \u{1f511}";
    let hash = hash_password(password).expect("password should hash");
    assert_eq!(verify_password(&hash, password), Ok(()));
}

#[test]
fn verify_rejects_another_password() {
    let hash = hash_password("secret1").expect("password should hash");
    assert_eq!(verify_password(&hash, "wrong"), Err(PasswordError::Mismatch));
    assert!(!password_matches(&hash, "secret1 "));
}

#[test]
fn verify_rejects_the_empty_password() {
    let hash = hash_password("secret1").expect("password should hash");
    assert_eq!(verify_password(&hash, ""), Err(PasswordError::Mismatch));
}

#[test]
fn hashes_of_one_password_differ() {
    let a = hash_password("secret1").expect("password should hash");
    let b = hash_password("secret1").expect("password should hash");
    assert_ne!(a, b);
}

#[test]
fn hash_is_an_argon2_phc_string() {
    let hash = hash_password("secret1").expect("password should hash");
    assert!(hash.starts_with("$argon2id$v=19$m=19456,t=2,p=1$"));
    assert_ne!(hash, "secret1");
    assert!(!hash.contains("secret1"));
}

#[test]
fn hash_with_salt_is_a_function_of_password_and_salt() {
    let a = hash_password_with_salt("secret1", SALT).expect("password should hash");
    let b = hash_password_with_salt("secret1", SALT).expect("password should hash");
    assert_eq!(a, b);
    assert!(a.starts_with("$argon2id$v=19$m=19456,t=2,p=1$c29tZXNhbHRzb21lc2FsdA$"));
    assert_ne!(a, SALT);
    assert_eq!(verify_password(&a, "secret1"), Ok(()));
}

#[test]
fn hash_with_salt_depends_on_password_and_salt() {
    let a = hash_password_with_salt("secret1", SALT).expect("password should hash");
    let other_password = hash_password_with_salt("secret2", SALT).expect("password should hash");
    assert_ne!(a, other_password);
    let other_salt =
        hash_password_with_salt("secret1", "b3RoZXJzYWx0b3RoZXJzYQ").expect("password should hash");
    assert_ne!(a, other_salt);
}

#[test]
fn hashing_with_an_unusable_salt_fails() {
    assert_eq!(hash_password_with_salt("secret1", ""), Err(PasswordError::Hashing));
    assert_eq!(hash_password_with_salt("secret1", "abc"), Err(PasswordError::Hashing));
    assert_eq!(hash_password_with_salt("secret1", "not a salt!!"), Err(PasswordError::Hashing));
}

#[test]
fn corrupt_hash_is_told_apart_from_a_wrong_password() {
    assert_eq!(verify_password("", "secret1"), Err(PasswordError::CorruptHash));
    assert_eq!(verify_password("secret1", "secret1"), Err(PasswordError::CorruptHash));
    assert_eq!(verify_password("not-a-hash", "secret1"), Err(PasswordError::CorruptHash));
    assert_eq!(
        verify_password("$argon2id$v=19$m=19456,t=2,p=1$!!!$!!!", "secret1"),
        Err(PasswordError::CorruptHash)
    );
    assert!(!password_matches("not-a-hash", "secret1"));
    assert!(!password_matches("secret1", "secret1"));
}

#[test]
fn verdicts_map_to_results() {
    assert_eq!(outcome_of_verdict(Some(true)), Ok(()));
    assert_eq!(outcome_of_verdict(Some(false)), Err(PasswordError::Mismatch));
    assert_eq!(outcome_of_verdict(None), Err(PasswordError::CorruptHash));
}
