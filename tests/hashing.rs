use lune_regex::hash::{hash_message, hmac_message, HashAlgorithm};

fn hex(bytes: &[u8]) -> String {
    bytes.iter().map(|b| format!("{b:02x}")).collect()
}

fn alg(name: &str) -> HashAlgorithm {
    HashAlgorithm::from_name(name).unwrap()
}

#[test]
fn empty_input_digests() {
    assert_eq!(
        hex(&alg("sha256").hash("")),
        "e3b0c44298fc1c149afbf4c8996fb92427ae41e4649b934ca495991b7852b855"
    );
    assert_eq!(
        hex(&alg("blake3").hash("")),
        "af1349b9f5f9a1a6a0404dea36dcc9499bcb25c9adc112b7cc9a93cae41f3262"
    );
    assert_eq!(
        hex(&alg("sha224").hash("")),
        "d14a028c2a3a2bc9476102bb288234c415a2b01f828ea62ac5b3e42f"
    );
    assert_eq!(
        hex(&alg("sha3-256").hash("")),
        "a7ffc6f8bf1ed76651c14756a061d662f580ff4de43b49fa82d80a4b80f8434a"
    );
}

#[test]
fn digest_lengths() {
    let expected = [
        ("sha224", 28),
        ("sha256", 32),
        ("sha384", 48),
        ("sha512", 64),
        ("sha3-224", 28),
        ("sha3-256", 32),
        ("sha3-384", 48),
        ("sha3-512", 64),
        ("blake3", 32),
    ];
    for (name, len) in expected {
        assert_eq!(alg(name).hash("abc").len(), len, "{name}");
        assert_eq!(alg(name).hmac("abc", "key").len(), len, "{name}");
    }
}

#[test]
fn hmac_known_vectors() {
    let key = "Jefe";
    let data = "what do ya want for nothing?";
    assert_eq!(
        hex(&alg("sha256").hmac(data, key)),
        "5bdcc146bf60754e6a042426089575c75a003f089d2739839dec58b964ec3843"
    );
    assert_eq!(
        hex(&alg("sha512").hmac(data, key)),
        "164b7a7bfcf819e2e395fbe73b56e0a387bd64222e831fd610270cd7ea2505549758bf75c05a994a6d034f65f8f0e6fdcaeab1a34d4a6b4b636e070a38bce737"
    );
}

#[test]
fn names_ignore_case() {
    assert_eq!(alg("SHA256"), HashAlgorithm::Sha2_256);
    assert_eq!(alg("Sha3-512"), HashAlgorithm::Sha3_512);
    assert_eq!(alg("BLAKE3"), HashAlgorithm::Blake3);
}

#[test]
fn unknown_name_lists_every_algorithm() {
    let err = HashAlgorithm::from_name("MD5").unwrap_err();
    assert_eq!(
        err,
        "unknown variant 'md5', valid options are: sha224, sha256, sha384, sha512, sha3-224, sha3-256, sha3-384, sha3-512, blake3"
    );
    assert_eq!(
        HashAlgorithm::list_all_as_string(),
        "sha224, sha256, sha384, sha512, sha3-224, sha3-256, sha3-384, sha3-512, blake3"
    );
}

#[test]
fn keyed_and_plain_digests_differ() {
    let plain = alg("blake3").hash("message");
    let keyed = alg("blake3").hmac("message", "key");
    assert_ne!(plain, keyed);
    assert_ne!(alg("sha256").hmac("message", "k1"), alg("sha256").hmac("message", "k2"));
}

#[test]
fn by_name_entry_points() {
    assert_eq!(
        hex(&hash_message("SHA256", "").unwrap()),
        "e3b0c44298fc1c149afbf4c8996fb92427ae41e4649b934ca495991b7852b855"
    );
    assert_eq!(
        hex(&hmac_message("sha256", "what do ya want for nothing?", "Jefe").unwrap()),
        "5bdcc146bf60754e6a042426089575c75a003f089d2739839dec58b964ec3843"
    );
    let err = hash_message("md5", "x").unwrap_err();
    assert!(err.ends_with("sha224, sha256, sha384, sha512, sha3-224, sha3-256, sha3-384, sha3-512, blake3"));
    assert!(hmac_message("crc32", "x", "k").is_err());
}
