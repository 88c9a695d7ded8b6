//! Content digests: computing a file's fingerprint and verifying it against
//! a caller-supplied expectation.
//!
//! Recorded fingerprints use SHA-256; pinned-download verification uses
//! SHA-1, matching the checksums that asset manifests ship. The hash
//! computations come from outside crates; rendering and comparison are
//! verified here.

use vstd::prelude::*;

use crate::SyncError;
use crate::hex::{hex_of, lower_chars, lemma_hex_of_is_lowercase, to_hex};

verus! {

/// The SHA-256 digest of a byte string.
pub uninterp spec fn sha256_of(bytes: Seq<u8>) -> Seq<u8>;

/// The SHA-1 digest of a byte string.
pub uninterp spec fn sha1_of(bytes: Seq<u8>) -> Seq<u8>;

/// Relies on sha2::Sha256::digest: the 32-byte SHA-256 digest of the input,
/// a function of the input bytes alone.
#[verifier::external_body]
fn sha256_bytes(data: &Vec<u8>) -> (r: Vec<u8>)
    ensures
        r@ == sha256_of(data@),
        r@.len() == 32,
{
    <sha2::Sha256 as sha2::Digest>::digest(data.as_slice()).to_vec()
}

/// Relies on chksum_sha1::hash: the 20-byte SHA-1 digest of the input,
/// a function of the input bytes alone.
#[verifier::external_body]
fn sha1_bytes(data: &Vec<u8>) -> (r: Vec<u8>)
    ensures
        r@ == sha1_of(data@),
        r@.len() == 20,
{
    chksum_sha1::hash(data.as_slice()).as_bytes().to_vec()
}

/// Relies on str::eq_ignore_ascii_case: true exactly when the two strings
/// are equal after ASCII case folding of each character.
#[verifier::external_body]
fn eq_ignore_ascii_case(a: &str, b: &str) -> (r: bool)
    ensures
        r == (lower_chars(a@) == lower_chars(b@)),
{
    a.eq_ignore_ascii_case(b)
}

/// Computes the recorded fingerprint of a file's content: the lowercase
/// hexadecimal SHA-256 digest of its bytes.
pub fn compute_digest(data: &Vec<u8>) -> (r: String)
    ensures
        r@ == hex_of(sha256_of(data@)),
        r@.len() == 64,
{
    let d = sha256_bytes(data);
    to_hex(&d)
}

/// Checks a digest, already rendered as lowercase hexadecimal, against the
/// expectation supplied by a caller.  Succeeds exactly when the two match
/// up to ASCII case; a mismatch is the dedicated `IntegrityMismatch` error.
pub fn check_digest(computed: &str, expected: &str) -> (r: Result<(), SyncError>)
    ensures
        r is Ok <==> lower_chars(expected@) == lower_chars(computed@),
        r is Err ==> r == Err::<(), SyncError>(SyncError::IntegrityMismatch),
{
    if eq_ignore_ascii_case(expected, computed) {
        Ok(())
    } else {
        Err(SyncError::IntegrityMismatch)
    }
}

/// Verifies a file's content against a pinned checksum: computes the SHA-1
/// digest of `data` and compares it, case-insensitively, with `expected`.
/// Succeeds exactly on a match; a mismatch is `IntegrityMismatch`.
pub fn verify_digest(data: &Vec<u8>, expected: &str) -> (r: Result<(), SyncError>)
    ensures
        r is Ok <==> lower_chars(expected@) == hex_of(sha1_of(data@)),
        r is Err ==> r == Err::<(), SyncError>(SyncError::IntegrityMismatch),
{
    let d = sha1_bytes(data);
    let computed = to_hex(&d);
    proof {
        lemma_hex_of_is_lowercase(d@);
    }
    check_digest(computed.as_str(), expected)
}

/// Digest computation is deterministic: two fingerprints of the same
/// unmodified content are the same string.
pub proof fn lemma_digest_deterministic(data: Seq<u8>, r1: Seq<char>, r2: Seq<char>)
    requires
        r1 == hex_of(sha256_of(data)),
        r2 == hex_of(sha256_of(data)),
    ensures
        r1 == r2,
{
}

/// Verification succeeds exactly when the expectation equals, up to ASCII
/// case, the lowercase hexadecimal SHA-1 digest of the content — the string
/// a digest computation over the same bytes and hash family renders.
pub proof fn lemma_verify_matches_computed(data: Seq<u8>, expected: Seq<char>)
    ensures
        (lower_chars(expected) == hex_of(sha1_of(data))) <==> (lower_chars(expected)
            == lower_chars(hex_of(sha1_of(data)))),
{
    lemma_hex_of_is_lowercase(sha1_of(data));
}

} // verus!
