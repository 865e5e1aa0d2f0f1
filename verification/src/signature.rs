//! Signature engine: HMAC-SHA256 digests over raw payload bytes, hex-encoded,
//! and the timing-safe comparison used to check supplied signatures.

use vstd::prelude::*;

verus! {

/// The lowercase hex encoding of the HMAC-SHA256 tag computed over `payload`,
/// keyed by the UTF-8 bytes of `secret`. The digest is a pure function of the
/// payload and the secret; this names its value.
pub uninterp spec fn hmac_sha256_hex(payload: Seq<u8>, secret: Seq<char>) -> Seq<char>;

pub open spec fn is_lower_hex_char(c: char) -> bool {
    ('0' <= c && c <= '9') || ('a' <= c && c <= 'f')
}

/// Relies on hmac's `Hmac<sha2::Sha256>` (`new_from_slice` accepts a key of
/// any length; `update` and `finalize` produce the 32-byte HMAC-SHA256 tag)
/// and on `hex::encode` (exactly two lowercase hex digits per byte, so 64
/// characters for a 32-byte tag).
#[verifier::external_body]
pub fn compute_signature(payload: &[u8], secret: &str) -> (r: String)
    ensures
        r@ == hmac_sha256_hex(payload@, secret@),
        r@.len() == 64,
        forall|i: int| 0 <= i < r@.len() ==> is_lower_hex_char(r@[i]),
{
    let mut mac = <hmac::Hmac<sha2::Sha256> as hmac::Mac>::new_from_slice(secret.as_bytes())
        .expect("HMAC accepts keys of any length");
    hmac::Mac::update(&mut mac, payload);
    hex::encode(hmac::Mac::finalize(mac).into_bytes())
}

/// What the timing-safe comparison accepts: a non-empty expected digest that
/// the supplied string reproduces exactly.
pub open spec fn digests_match(expected: Seq<char>, supplied: Seq<char>) -> bool {
    expected.len() > 0 && expected == supplied
}

/// Compares two digest strings without short-circuiting on the first
/// mismatch: differences are accumulated with XOR and OR over every
/// character position, and tested against zero only at the end, so the
/// running time does not depend on where the strings first differ.
pub fn compare_digests(expected: &str, supplied: &str) -> (r: bool)
    ensures
        r == digests_match(expected@, supplied@),
{
    let elen = expected.unicode_len();
    let slen = supplied.unicode_len();
    if elen == 0 || elen != slen {
        return false;
    }
    let mut acc: u32 = 0;
    let mut i: usize = 0;
    while i < elen
        invariant
            elen == expected@.len(),
            elen == supplied@.len(),
            0 <= i <= elen,
            acc == 0 <==> (forall|j: int| 0 <= j < i ==> expected@[j] == supplied@[j]),
        decreases elen - i,
    {
        let a = expected.get_char(i);
        let b = supplied.get_char(i);
        let diff: u32 = (a as u32) ^ (b as u32);
        proof {
            let au = a as u32;
            let bu = b as u32;
            assert((au ^ bu) == 0 <==> au == bu) by (bit_vector);
            assert((acc | (au ^ bu)) == 0 <==> acc == 0 && (au ^ bu) == 0) by (bit_vector);
        }
        acc = acc | diff;
        i = i + 1;
    }
    let r = acc == 0;
    proof {
        if acc == 0 {
            assert(expected@ =~= supplied@);
        }
    }
    r
}

/// Whether `signature` proves authenticity of `payload` under `secret`:
/// both strings are non-empty and the signature equals the expected digest.
pub open spec fn signature_valid(payload: Seq<u8>, signature: Seq<char>, secret: Seq<char>) -> bool {
    &&& signature.len() > 0
    &&& secret.len() > 0
    &&& signature == hmac_sha256_hex(payload, secret)
}

/// Checks a supplied signature against the digest of `payload` under
/// `secret`, timing-safely. Empty signatures and empty secrets are rejected.
pub fn verify_signature(payload: &[u8], signature: &str, secret: &str) -> (r: bool)
    ensures
        r == signature_valid(payload@, signature@, secret@),
{
    if signature.is_empty() || secret.is_empty() {
        return false;
    }
    let expected = compute_signature(payload, secret);
    compare_digests(expected.as_str(), signature)
}

/// The engine's own digests always pass the comparison: two digests of the
/// same payload under the same secret match. The two premises are exactly
/// what `compute_signature` guarantees of every digest it returns.
pub proof fn lemma_sign_then_compare(payload: Seq<u8>, secret: Seq<char>, d1: Seq<char>, d2: Seq<char>)
    requires
        d1 == hmac_sha256_hex(payload, secret),
        d2 == hmac_sha256_hex(payload, secret),
        d1.len() == 64,
    ensures
        digests_match(d1, d2),
{
}

/// The comparison rejects strings of different lengths, whatever their
/// content.
pub proof fn lemma_compare_length_mismatch(a: Seq<char>, b: Seq<char>)
    requires
        a.len() != b.len(),
    ensures
        !digests_match(a, b),
{
}

} // verus!
