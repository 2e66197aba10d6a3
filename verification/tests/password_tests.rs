use auth_api::password::{hash_failure, hash_password, verify_password};

#[test]
fn hash_accepts_its_password() {
    let encoded = hash_password("correct horse".to_string()).unwrap();
    assert!(verify_password("correct horse", &encoded));
}

#[test]
fn hash_refuses_another_password() {
    let encoded = hash_password("correct horse".to_string()).unwrap();
    assert!(!verify_password("correct horsf", &encoded));
    assert!(!verify_password("", &encoded));
}

#[test]
fn two_hashes_of_one_password_differ() {
    let a = hash_password("correct horse".to_string()).unwrap();
    let b = hash_password("correct horse".to_string()).unwrap();
    assert_ne!(a, b);
    assert!(verify_password("correct horse", &a));
    assert!(verify_password("correct horse", &b));
}

#[test]
fn hash_is_encoded_and_is_not_the_password() {
    let encoded = hash_password("correct horse".to_string()).unwrap();
    assert!(encoded.starts_with("$argon2id$"));
    assert_ne!(encoded, "correct horse");
}

#[test]
fn malformed_hash_accepts_nothing() {
    assert!(!verify_password("pw", ""));
    assert!(!verify_password("pw", "pw"));
    assert!(!verify_password("pw", "$argon2id$broken"));
}

#[test]
fn empty_password_can_be_hashed() {
    let encoded = hash_password(String::new()).unwrap();
    assert!(verify_password("", &encoded));
    assert!(!verify_password(" ", &encoded));
}

#[test]
fn hashing_failure_report() {
    assert_eq!(hash_failure("boom"), "Failed to generate password hash boom");
}
