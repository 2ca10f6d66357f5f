use idcore::{HashConfig, Secret};

fn light_config() -> HashConfig {
    HashConfig { mem_cost: 8, time_cost: 1, lanes: 1, hash_length: 8 }
}

#[test]
fn hash_zeroes_the_plaintext_buffer() {
    let cfg = light_config();
    let mut buffer = b"hunter2 hunter2".to_vec();
    let _secret = Secret::hash(&mut buffer, &cfg);
    assert_eq!(buffer.len(), 15);
    assert!(buffer.iter().all(|&b| b == 0));
}

#[test]
fn two_hashes_differ_and_both_verify() {
    let cfg = light_config();
    let mut first = b"correct horse battery staple".to_vec();
    let mut second = b"correct horse battery staple".to_vec();
    let s1 = Secret::hash(&mut first, &cfg);
    let s2 = Secret::hash(&mut second, &cfg);
    // Fresh random salts: the encodings are never bit-equal.
    assert_ne!(s1.encoded(), s2.encoded());
    let plain = b"correct horse battery staple".to_vec();
    assert_eq!(s1.verify(&plain).unwrap(), true);
    assert_eq!(s2.verify(&plain).unwrap(), true);
}

#[test]
fn verify_rejects_a_different_password() {
    let cfg = light_config();
    let mut buffer = b"correct horse battery staple".to_vec();
    let secret = Secret::hash(&mut buffer, &cfg);
    let other = b"incorrect horse".to_vec();
    assert_eq!(secret.verify(&other).unwrap(), false);
}

#[test]
fn verify_fails_on_malformed_encoding() {
    let secret = Secret::from_encoded("not an encoded hash".to_string());
    let candidate = b"anything".to_vec();
    assert!(secret.verify(&candidate).is_err());
}

#[test]
fn standard_config_is_the_tuned_one() {
    let cfg = HashConfig::standard();
    assert_eq!(cfg.mem_cost, 65536);
    assert_eq!(cfg.time_cost, 10);
    assert_eq!(cfg.lanes, 4);
    assert_eq!(cfg.hash_length, 64);
}

#[test]
fn encoded_form_round_trips_through_from_encoded() {
    let cfg = light_config();
    let mut buffer = b"some passphrase".to_vec();
    let secret = Secret::hash(&mut buffer, &cfg);
    let stored = secret.encoded().clone();
    let reloaded = Secret::from_encoded(stored);
    let plain = b"some passphrase".to_vec();
    assert_eq!(reloaded.verify(&plain).unwrap(), true);
}
