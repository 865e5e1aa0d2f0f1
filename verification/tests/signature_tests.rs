use linktor::signature::{compare_digests, compute_signature, verify_signature};

#[test]
fn test_compute_signature() {
    let payload = b"test payload";
    let secret = "test-secret";
    let signature = compute_signature(payload, secret);
    assert!(!signature.is_empty());
    assert_eq!(signature.len(), 64); // SHA256 produces 32 bytes = 64 hex chars
}

#[test]
fn test_verify_signature() {
    let payload = b"test payload";
    let secret = "test-secret";
    let signature = compute_signature(payload, secret);
    assert!(verify_signature(payload, &signature, secret));
    assert!(!verify_signature(payload, "wrong-signature", secret));
}

#[test]
fn sign_is_deterministic() {
    let a = compute_signature(b"payload bytes", "key");
    let b = compute_signature(b"payload bytes", "key");
    assert_eq!(a, b);
}

#[test]
fn sign_is_lowercase_hex() {
    let s = compute_signature(b"some payload", "another-secret");
    assert_eq!(s.len(), 64);
    assert!(s.chars().all(|c| c.is_ascii_hexdigit() && !c.is_ascii_uppercase()));
}

#[test]
fn sign_matches_known_vector() {
    // RFC 4231 test case 2 for HMAC-SHA256.
    let s = compute_signature(b"what do ya want for nothing?", "Jefe");
    assert_eq!(s, "5bdcc146bf60754e6a042426089575c75a003f089d2739839dec58b964ec3843");
}

#[test]
fn compare_accepts_matching_digests() {
    let d = compute_signature(b"p", "s");
    assert!(compare_digests(&d, &d.clone()));
}

#[test]
fn compare_rejects_length_mismatch() {
    assert!(!compare_digests("abcd", "abc"));
    assert!(!compare_digests("abc", "abcd"));
    assert!(!compare_digests("a", "ab"));
}

#[test]
fn compare_rejects_empty() {
    assert!(!compare_digests("", ""));
    assert!(!compare_digests("", "abc"));
}

#[test]
fn compare_rejects_same_length_mismatch() {
    assert!(!compare_digests("abcd", "abce"));
    assert!(!compare_digests("xbcd", "abcd"));
}

#[test]
fn verify_signature_rejects_empty_inputs() {
    let payload = b"test payload";
    let secret = "test-secret";
    let signature = compute_signature(payload, secret);
    assert!(!verify_signature(payload, "", secret));
    assert!(!verify_signature(payload, &signature, ""));
}

#[test]
fn verify_signature_is_payload_sensitive() {
    let secret = "test-secret";
    let signature = compute_signature(b"payload one", secret);
    assert!(!verify_signature(b"payload two", &signature, secret));
}
