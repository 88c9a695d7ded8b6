use launcher_core::SyncError;
use launcher_core::digest::{check_digest, compute_digest, verify_digest};

#[test]
fn compute_digest_known_vector() {
    let data = vec![b'a', b'b', b'c'];
    let d = compute_digest(&data);
    assert_eq!(d, "ba7816bf8f01cfea414140de5dae2223b00361a396177a9cb410ff61f20015ad".to_string());
}

#[test]
fn compute_digest_empty_input() {
    let data: Vec<u8> = vec![];
    let d = compute_digest(&data);
    assert_eq!(d, "e3b0c44298fc1c149afbf4c8996fb92427ae41e4649b934ca495991b7852b855".to_string());
}

#[test]
fn compute_digest_is_deterministic() {
    let data = vec![1u8, 2, 3, 4, 5];
    assert_eq!(compute_digest(&data), compute_digest(&data));
}

#[test]
fn verify_digest_accepts_matching_sha1() {
    let data = vec![b'a', b'b', b'c'];
    assert!(verify_digest(&data, "a9993e364706816aba3e25717850c26c9cd0d89d").is_ok());
}

#[test]
fn verify_digest_is_case_insensitive() {
    let data = vec![b'a', b'b', b'c'];
    assert!(verify_digest(&data, "A9993E364706816ABA3E25717850C26C9CD0D89D").is_ok());
}

#[test]
fn verify_digest_rejects_mismatch_as_integrity_error() {
    let data = vec![b'a', b'b', b'c'];
    let r = verify_digest(&data, "0000000000000000000000000000000000000000");
    assert_eq!(r, Err(SyncError::IntegrityMismatch));
}

#[test]
fn check_digest_compares_case_insensitively() {
    assert!(check_digest("abc123", "ABC123").is_ok());
    assert_eq!(check_digest("abc123", "abc124"), Err(SyncError::IntegrityMismatch));
}
