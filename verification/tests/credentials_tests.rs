use task_api::password;
use task_api::schemas::TokenClaims;
use task_api::token;

#[test]
fn hash_then_verify_accepts_the_same_password() {
    let p = String::from("secret1");
    let h = password::hash(&p).expect("hashing succeeds");
    assert!(password::verify(&p, &h));
}

#[test]
fn verify_rejects_a_different_password() {
    let p = String::from("secret1");
    let other = String::from("secret2");
    let h = password::hash(&p).expect("hashing succeeds");
    assert!(!password::verify(&other, &h));
}

#[test]
fn two_hashes_of_one_password_use_fresh_salts() {
    let p = String::from("secret1");
    let h1 = password::hash(&p).expect("hashing succeeds");
    let h2 = password::hash(&p).expect("hashing succeeds");
    assert_ne!(h1, h2);
    assert!(password::verify(&p, &h1));
    assert!(password::verify(&p, &h2));
}

#[test]
fn verify_answers_false_on_a_malformed_hash_string() {
    let p = String::from("secret1");
    let junk = String::from("not-a-phc-hash");
    assert!(!password::verify(&p, &junk));
}

#[test]
fn issued_token_carries_subject_and_window() {
    let secret = String::from("my_ultra_secure_secret");
    let sub = String::from("405f1394-e5eb-470d-8174-14020f55e881");
    let t0: u64 = 1_700_000_000;
    let tok = token::issue(&sub, t0, &secret);
    let claims = token::verify(&tok, t0, &secret).expect("valid at issue time");
    assert_eq!(
        claims,
        TokenClaims { sub: sub.clone(), iat: t0, exp: t0 + token::TOKEN_TTL_SECONDS }
    );
}

#[test]
fn token_is_valid_strictly_before_expiry_and_invalid_after() {
    let secret = String::from("my_ultra_secure_secret");
    let sub = String::from("405f1394-e5eb-470d-8174-14020f55e881");
    let t0: u64 = 1_700_000_000;
    let tok = token::issue(&sub, t0, &secret);
    assert!(token::verify(&tok, t0, &secret).is_some());
    assert!(token::verify(&tok, t0 + token::TOKEN_TTL_SECONDS - 1, &secret).is_some());
    assert!(token::verify(&tok, t0 + token::TOKEN_TTL_SECONDS, &secret).is_none());
    assert!(token::verify(&tok, t0 + token::TOKEN_TTL_SECONDS + 1, &secret).is_none());
}

#[test]
fn token_fails_against_another_secret() {
    let secret = String::from("my_ultra_secure_secret");
    let wrong = String::from("some_other_secret");
    let sub = String::from("405f1394-e5eb-470d-8174-14020f55e881");
    let t0: u64 = 1_700_000_000;
    let tok = token::issue(&sub, t0, &secret);
    assert!(token::verify(&tok, t0, &wrong).is_none());
}

#[test]
fn malformed_token_never_verifies() {
    let secret = String::from("my_ultra_secure_secret");
    assert!(token::verify(&String::from("garbage"), 0, &secret).is_none());
    assert!(token::verify(&String::from("a.b.c"), 0, &secret).is_none());
    assert!(token::verify(&String::new(), 0, &secret).is_none());
}

#[test]
fn the_stored_hash_is_a_self_describing_phc_string() {
    let p = String::from("secret1");
    let h = password::hash(&p).expect("within the character cap");
    assert!(h.starts_with("$argon2id$"));
    assert_ne!(h, p);
}
