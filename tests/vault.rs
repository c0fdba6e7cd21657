use authcore::vault::{hash_password, verify_password};

#[test]
fn hashed_password_verifies() {
    let stored = hash_password("correct-horse").expect("hashing succeeds");
    assert!(verify_password("correct-horse", &stored));
}

#[test]
fn other_password_does_not_verify() {
    let stored = hash_password("correct-horse").expect("hashing succeeds");
    assert!(!verify_password("battery-staple", &stored));
    assert!(!verify_password("correct-horsE", &stored));
    assert!(!verify_password("", &stored));
}

#[test]
fn two_hashes_of_one_password_differ_and_both_verify() {
    let first = hash_password("s3cret").expect("hashing succeeds");
    let second = hash_password("s3cret").expect("hashing succeeds");
    assert_ne!(first, second);
    assert!(verify_password("s3cret", &first));
    assert!(verify_password("s3cret", &second));
}

#[test]
fn stored_hash_is_a_self_describing_argon2id_string() {
    let stored = hash_password("pw").expect("hashing succeeds");
    assert!(stored.starts_with("$argon2id$v=19$"));
    assert!(stored.len() > "$argon2id$v=19$".len());
}

#[test]
fn malformed_hash_is_refused_like_a_wrong_password() {
    assert!(!verify_password("pw", ""));
    assert!(!verify_password("pw", "not a phc string"));
    assert!(!verify_password("pw", "$argon2id$v=19$m=19456,t=2,p=1$broken"));
}
