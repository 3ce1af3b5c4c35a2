use hookshot::signature::{HashType, Signature};
use hookshot::notifier::sign_notification;

#[test]
fn test_equality() {
    // generated with `echo -n "data" | openssl dgst -sha1 -hmac "key"`
    let sigstring = String::from("sha1=104152c5bfdca07bc633eebd46199f0255c9f49d");
    let sig1 = Signature::create(HashType::SHA1, "data", "key");
    let sig2 = Signature::from(sigstring).unwrap();
    assert_eq!(sig1, sig2);
    assert!(sig1.verify("data", "key"));
}

#[test]
fn test_round_trip_every_algorithm() {
    let algorithms = vec![
        HashType::MD5,
        HashType::SHA1,
        HashType::SHA224,
        HashType::SHA256,
        HashType::SHA384,
        HashType::SHA512,
        HashType::RIPEMD160,
    ];
    for alg in algorithms {
        let sig = Signature::create(alg, "data", "key");
        let reparsed = Signature::from(sig.to_string()).unwrap();
        assert_eq!(sig, reparsed);
        assert!(reparsed.verify("data", "key"));
        assert!(!reparsed.verify("other data", "key"));
        assert!(!reparsed.verify("data", "other key"));
    }
}

#[test]
fn test_parse_rejects_bad_format() {
    assert!(Signature::from(String::from("")).is_none());
    assert!(Signature::from(String::from("sha1")).is_none());
    assert!(Signature::from(String::from("=abcdef")).is_none());
    assert!(Signature::from(String::from("sha1=")).is_none());
    assert!(Signature::from(String::from("sha1=zzzz")).is_none());
    assert!(Signature::from(String::from("sha1=aa=bb")).is_none());
}

#[test]
fn test_parse_rejects_unknown_algorithm() {
    assert!(Signature::from(String::from("sha3=abcdef0123")).is_none());
}

#[test]
fn test_parse_normalizes_hex_case() {
    let lower = Signature::from(String::from("sha1=104152c5bfdca07bc633eebd46199f0255c9f49d"))
        .unwrap();
    let upper = Signature::from(String::from("sha1=104152C5BFDCA07BC633EEBD46199F0255C9F49D"))
        .unwrap();
    assert_eq!(lower, upper);
    assert!(upper.verify("data", "key"));
}

#[test]
fn test_notifier_signature_verifies() {
    let body = "{\"status\":\"started\",\"failed\":false}";
    let secret = "it's a secret to everyone";
    let header = sign_notification(body, secret);
    assert!(header.starts_with("sha256="));
    let sig = Signature::from(header).unwrap();
    assert!(sig.verify(body, secret));
    assert!(!sig.verify("tampered body", secret));
}
