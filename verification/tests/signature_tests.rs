use bybit_notifier::signature::sign;

#[test]
fn sign_matches_the_rfc_4231_vector() {
    assert_eq!(
        sign("Jefe", "what do ya want for nothing?"),
        "5bdcc146bf60754e6a042426089575c75a003f089d2739839dec58b964ec3843"
    );
}

#[test]
fn sign_matches_a_second_known_vector() {
    assert_eq!(
        sign("my secret and secure key", "input message"),
        "97d2a569059bbcd8ead4444ff99071f4c01d005bcefe0d3567e1be628e5fdcd9"
    );
}

#[test]
fn sign_of_empty_inputs() {
    assert_eq!(
        sign("", ""),
        "b613679a0814d9ec772f95d778c35fc5ff1697c493715653c6c712144292c5ad"
    );
}

#[test]
fn sign_is_deterministic() {
    let first = sign("secret", "1700000000000key20000category=linear");
    let second = sign("secret", "1700000000000key20000category=linear");
    assert_eq!(first, second);
}

#[test]
fn sign_gives_64_lowercase_hex_digits() {
    let signature = sign("secret", "payload");
    assert_eq!(signature.len(), 64);
    assert!(signature.chars().all(|c| c.is_ascii_digit() || ('a'..='f').contains(&c)));
}

#[test]
fn sign_changes_with_one_byte_of_the_payload() {
    assert_ne!(sign("secret", "payload"), sign("secret", "paylobd"));
}

#[test]
fn sign_changes_with_one_byte_of_the_secret() {
    assert_ne!(sign("secret", "payload"), sign("secreu", "payload"));
}

#[test]
fn sign_is_not_its_argument() {
    assert_ne!(sign("secret", "payload"), "payload");
    assert_ne!(sign("secret", "payload"), "secret");
}
