//! End-to-end tests of the forwarder: envelope encoding, signature
//! verification, nonce discipline, value and expiry checks, and the audit
//! event, with real cryptography.

use blake2::digest::consts::U32;
use blake2::{Blake2b, Digest};
use meta_tx::account::AccountId;
use meta_tx::crypto::{blake2x256_hash, to_default_account_id};
use meta_tx::forwarder::{
    encode_transaction, Error, InkMetaTransaction, Transaction,
};
use parity_scale_codec::Encode;

type Blake2b256 = Blake2b<U32>;

/// A deterministic test keypair: (secret, 33-byte compressed public key,
/// derived account).
fn test_signer(seed: u8) -> (k256::ecdsa::SigningKey, [u8; 33], AccountId) {
    let mut secret = [seed; 32];
    secret[0] = 1; // keep the scalar well inside the curve order
    let sk = k256::ecdsa::SigningKey::from_slice(&secret).expect("valid secret");
    let pk_bytes: [u8; 33] = sk
        .verifying_key()
        .to_sec1_bytes()
        .as_ref()
        .try_into()
        .expect("compressed key is 33 bytes");
    let account = to_default_account_id(&pk_bytes);
    (sk, pk_bytes, account)
}

fn sample_transaction(from: AccountId, nonce: u128) -> Transaction {
    Transaction {
        from,
        callee: AccountId([0xC; 32]),
        selector: *b"flip",
        input: vec![],
        transferred_value: 0,
        gas_limit: 1_000_000,
        allow_reentry: false,
        nonce,
        expiration_time_seconds: 10_000,
    }
}

/// Signs the canonical digest of `tx`, yielding the 65-byte signature the
/// forwarder expects.
fn sign(tx: &Transaction, sk: &k256::ecdsa::SigningKey) -> [u8; 65] {
    let digest = blake2x256_hash(&encode_transaction(tx));
    let (sig, recid) = sk.sign_prehash_recoverable(&digest);
    let mut out = [0u8; 65];
    out[..64].copy_from_slice(&sig.to_bytes());
    out[64] = recid.to_byte();
    out
}

#[test]
fn default_works() {
    let meta_transaction = InkMetaTransaction::default();
    assert_eq!(meta_transaction.get_nonce(AccountId([0u8; 32])), 0);
    assert_eq!(meta_transaction.get_nonce(AccountId([1u8; 32])), 0);
}

#[test]
fn encoding_matches_scale() {
    let tx = Transaction {
        from: AccountId([0x11; 32]),
        callee: AccountId([0x22; 32]),
        selector: [1, 2, 3, 4],
        input: vec![7; 100],
        transferred_value: 12345678901234567890,
        gas_limit: 987654321,
        allow_reentry: true,
        nonce: 42,
        expiration_time_seconds: 1234567,
    };
    let expected = (
        [0x11u8; 32],
        [0x22u8; 32],
        [1u8, 2, 3, 4],
        vec![7u8; 100],
        12345678901234567890u128,
        987654321u64,
        true,
        42u128,
        1234567u64,
    )
        .encode();
    assert_eq!(encode_transaction(&tx), expected);
}

#[test]
fn hash_wrapper_matches_reference_blake2b() {
    // Known digest of the empty input for 256-bit Blake2b.
    let empty = blake2x256_hash(&[]);
    let expected: [u8; 32] = Blake2b256::digest([]).into();
    assert_eq!(empty, expected);
    assert_ne!(&empty[..], &[] as &[u8]);

    let data = b"meta transaction";
    let ours = blake2x256_hash(data);
    let reference: [u8; 32] = Blake2b256::digest(data).into();
    assert_eq!(ours, reference);
    assert_ne!(&ours[..], &data[..]);
}

#[test]
fn account_derivation_hashes_public_key() {
    let (_, pk, account) = test_signer(0x42);
    let expected: [u8; 32] = Blake2b256::digest(pk).into();
    assert_eq!(account.0, expected);
}

#[test]
fn verify_accepts_valid_signature() {
    let (sk, _, signer) = test_signer(0x42);
    let meta = InkMetaTransaction::default();
    let tx = sample_transaction(signer, 0);
    let sig = sign(&tx, &sk);
    assert_eq!(meta.verfiy(tx, sig), Ok(()));
}

#[test]
fn verify_rejects_wrong_nonce() {
    let (sk, _, signer) = test_signer(0x42);
    let meta = InkMetaTransaction::default();
    // Signed correctly, but the expected nonce of a fresh signer is 0.
    let tx = sample_transaction(signer, 5);
    let sig = sign(&tx, &sk);
    assert_eq!(meta.verfiy(tx, sig), Err(Error::IncorrectNonce));
}

#[test]
fn verify_rejects_wrong_signer_and_garbage() {
    let (sk, _, _) = test_signer(0x42);
    let meta = InkMetaTransaction::default();

    // Envelope claims a signer other than the key that signed it.
    let tx = sample_transaction(AccountId([0x77; 32]), 0);
    let sig = sign(&tx, &sk);
    assert_eq!(meta.verfiy(tx.clone(), sig), Err(Error::IncorrectSignature));

    // A garbage signature cannot be recovered at all.
    assert_eq!(meta.verfiy(tx, [0u8; 65]), Err(Error::IncorrectSignature));
}

#[test]
fn verify_rejects_tampered_payload() {
    let (sk, _, signer) = test_signer(0x42);
    let meta = InkMetaTransaction::default();
    let mut tx = sample_transaction(signer, 0);
    let sig = sign(&tx, &sk);
    tx.input = vec![0xEE];
    assert_eq!(meta.verfiy(tx, sig), Err(Error::IncorrectSignature));
}

#[test]
fn execute_happy_path_advances_nonce_and_emits_event() {
    let (sk, _, signer) = test_signer(0x42);
    let mut meta = InkMetaTransaction::default();
    let tx = sample_transaction(signer, 0);
    let sig = sign(&tx, &sk);

    let request = meta
        .execute(tx.clone(), sig, 0, 5_000)
        .expect("valid envelope is accepted");
    assert_eq!(request.callee, tx.callee);
    assert_eq!(request.selector, tx.selector);
    assert_eq!(request.input, tx.input);
    assert_eq!(request.transferred_value, tx.transferred_value);
    assert_eq!(request.gas_limit, tx.gas_limit);
    assert_eq!(request.allow_reentry, tx.allow_reentry);

    // Exactly one advance, only for the signer.
    assert_eq!(meta.get_nonce(signer), 1);
    assert_eq!(meta.get_nonce(AccountId([0x77; 32])), 0);

    // The nested call succeeded: exactly one audit record, naming the signer.
    let event = InkMetaTransaction::finish_execute(tx.clone(), true).expect("event");
    assert_eq!(event.caller, signer);
    assert_eq!(event.callee, tx.callee);
    assert_eq!(event.encoded_transaction, tx);
}

#[test]
fn execute_replay_fails_with_incorrect_nonce() {
    let (sk, _, signer) = test_signer(0x42);
    let mut meta = InkMetaTransaction::default();
    let tx = sample_transaction(signer, 0);
    let sig = sign(&tx, &sk);

    assert!(meta.execute(tx.clone(), sig, 0, 5_000).is_ok());
    assert_eq!(meta.get_nonce(signer), 1);

    // Re-submitting the identical envelope and signature is a replay.
    assert_eq!(meta.execute(tx, sig, 0, 5_000), Err(Error::IncorrectNonce));
    assert_eq!(meta.get_nonce(signer), 1);
}

#[test]
fn execute_value_mismatch_fails() {
    let (sk, _, signer) = test_signer(0x42);
    let mut meta = InkMetaTransaction::default();
    let tx = sample_transaction(signer, 0);
    let sig = sign(&tx, &sk);

    assert_eq!(
        meta.execute(tx, sig, 5, 5_000),
        Err(Error::ValueTransferMismatch)
    );
    assert_eq!(meta.get_nonce(signer), 0);
}

#[test]
fn execute_expired_fails() {
    let (sk, _, signer) = test_signer(0x42);
    let mut meta = InkMetaTransaction::default();
    let tx = sample_transaction(signer, 0);
    let sig = sign(&tx, &sk);

    // The deadline itself is already too late.
    assert_eq!(
        meta.execute(tx, sig, 0, 10_000),
        Err(Error::TransactionExpired)
    );
    assert_eq!(meta.get_nonce(signer), 0);
}

#[test]
fn failed_nested_call_reports_failure_and_keeps_nonce() {
    let (sk, _, signer) = test_signer(0x42);
    let mut meta = InkMetaTransaction::default();
    let tx = sample_transaction(signer, 0);
    let sig = sign(&tx, &sk);

    assert!(meta.execute(tx.clone(), sig, 0, 5_000).is_ok());
    assert_eq!(
        InkMetaTransaction::finish_execute(tx, false),
        Err(Error::TransactionFailed)
    );
    // The consumed nonce is deliberately not refunded.
    assert_eq!(meta.get_nonce(signer), 1);
}
