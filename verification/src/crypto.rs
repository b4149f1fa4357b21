//! Cryptographic primitives, taken as externally provided services: a
//! fixed-width hash for message digests and account derivation, and ECDSA
//! public-key recovery over secp256k1.

use vstd::prelude::*;

use crate::account::AccountId;

verus! {

/// The 32-byte Blake2b-256 digest of `input`, determined by `input` alone.
pub uninterp spec fn blake2_of(input: Seq<u8>) -> Seq<u8>;

/// The compressed public key that ECDSA recovery over secp256k1 yields for
/// the 64 signature bytes `rs`, the recovery identifier `v` and the 32-byte
/// message digest; `None` when the signature is malformed or recovery fails.
/// Determined by the arguments alone.
pub uninterp spec fn ecdsa_recover_of(rs: Seq<u8>, v: u8, digest: Seq<u8>) -> Option<Seq<u8>>;

/// Compute the 32 byte Blake2b-256 hash of the supplied bytes.
///
/// Relies on `ink::env::hash_bytes::<Blake2x256>`: it fills the output with
/// the 32-byte Blake2b-256 digest of the input, a function of the input alone.
#[verifier::external_body]
pub fn blake2x256_hash(bytes: &[u8]) -> (r: [u8; 32])
    ensures
        r@ == blake2_of(bytes@),
{
    let mut output = [0u8; 32];
    ink::env::hash_bytes::<ink::env::hash::Blake2x256>(bytes, &mut output);
    output
}

/// Recover the compressed 33-byte public key from a 64-byte signature, a
/// recovery identifier and a 32-byte message digest; `None` when the
/// signature cannot be parsed or no key can be recovered.
///
/// Relies on `k256::ecdsa::VerifyingKey::recover_from_prehash` for the
/// recovery itself, with `RecoveryId::from_byte` and `Signature::from_slice`
/// converting the arguments and `VerifyingKey::to_sec1_bytes` converting the
/// result; each step reports a malformed input as an error rather than
/// panicking, and the outcome is a function of the arguments alone.
#[verifier::external_body]
pub fn ecdsa_recover_compressed(rs: &[u8; 64], v: u8, digest: &[u8; 32]) -> (r: Option<[u8; 33]>)
    ensures
        (r is Some) == (ecdsa_recover_of(rs@, v, digest@) is Some),
        r is Some ==> r.unwrap()@ == ecdsa_recover_of(rs@, v, digest@).unwrap(),
{
    let recovery_id = k256::ecdsa::RecoveryId::from_byte(v)?;
    let signature = k256::ecdsa::Signature::from_slice(rs.as_slice()).ok()?;
    let key = k256::ecdsa::VerifyingKey::recover_from_prehash(digest, &signature, recovery_id)
        .ok()?;
    <[u8; 33]>::try_from(&key.to_sec1_bytes()[..]).ok()
}

/// The recovery identifier carried in the last signature byte: values above
/// 26 carry an offset of 27, a convention adopted from message signing.
pub open spec fn recovery_id_byte(v: u8) -> u8 {
    if v > 26 {
        (v - 27) as u8
    } else {
        v
    }
}

/// The account that a 65-byte signature over `digest` recovers to: the hash
/// of the recovered compressed public key; `None` when recovery fails.
pub open spec fn recovered_account_of(sig: Seq<u8>, digest: Seq<u8>) -> Option<Seq<u8>>
    recommends
        sig.len() == 65,
{
    match ecdsa_recover_of(sig.subrange(0, 64), recovery_id_byte(sig[64]), digest) {
        Some(key) => Some(blake2_of(key)),
        None => None,
    }
}

/// Convert a compressed 33 byte ECDSA public key into a 32 byte account
/// identifier by hashing it.
pub fn to_default_account_id(compressed_pub_key: &[u8; 33]) -> (r: AccountId)
    ensures
        r@ == blake2_of(compressed_pub_key@),
{
    AccountId(blake2x256_hash(compressed_pub_key.as_slice()))
}

/// Recover the signing account of a 65-byte signature over `digest`.
pub fn recover_signer(signature: &[u8; 65], digest: &[u8; 32]) -> (r: Option<AccountId>)
    ensures
        match r {
            Some(a) => recovered_account_of(signature@, digest@) == Some(a@),
            None => recovered_account_of(signature@, digest@) is None,
        },
{
    let mut rs: [u8; 64] = [0u8; 64];
    let mut i: usize = 0;
    while i < 64
        invariant
            0 <= i <= 64,
            forall|j: int| 0 <= j < i ==> rs@[j] == signature@[j],
        decreases 64 - i,
    {
        rs[i] = signature[i];
        i += 1;
    }
    proof {
        assert(rs@ =~= signature@.subrange(0, 64));
    }
    let v_byte = signature[64];
    let v = if v_byte > 26 {
        v_byte - 27
    } else {
        v_byte
    };
    assert(v == recovery_id_byte(signature@[64]));
    match ecdsa_recover_compressed(&rs, v, digest) {
        Some(key) => Some(to_default_account_id(&key)),
        None => None,
    }
}

} // verus!
