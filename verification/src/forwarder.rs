//! The call forwarder: verifies a signed envelope, enforces the per-signer
//! nonce against replay, checks attached value and expiry, advances the
//! nonce, and describes the nested call to perform. The completion step
//! turns the nested call's outcome into the audit event or a failure.

use vstd::prelude::*;

use crate::account::{account_eq, AccountId};
use crate::codec::{bool_byte, compact_len_bytes, le_bytes, push_bytes, push_compact_len,
    push_le_bytes};
use crate::crypto::{blake2_of, blake2x256_hash, recover_signer, recovered_account_of};

verus! {

/// The per-signer replay counter.
pub type Nonce = u128;

/// An amount of chain balance.
pub type Balance = u128;

/// A ledger timestamp.
pub type Timestamp = u64;

/// A signed, immutable description of a delegated call.
#[derive(Clone, Debug, PartialEq, Eq)]
pub struct Transaction {
    /// The creator of the transaction. Should be the signer.
    pub from: AccountId,
    /// The account of the contract that is called in this transaction.
    pub callee: AccountId,
    /// The selector bytes that identify the function of the callee to call.
    pub selector: [u8; 4],
    /// The encoded parameters that are passed to the called function.
    pub input: Vec<u8>,
    /// The amount of chain balance that is transferred to the callee.
    pub transferred_value: Balance,
    /// Gas limit for the execution of the call.
    pub gas_limit: u64,
    /// If set to true the nested call may re-enter the forwarder.
    pub allow_reentry: bool,
    /// Submitted nonce. Must match what the forwarder expects.
    pub nonce: Nonce,
    /// The transaction must be executed strictly before this deadline.
    pub expiration_time_seconds: Timestamp,
}

/// The audit record of a successfully executed envelope.
#[derive(Clone, Debug, PartialEq, Eq)]
pub struct Executed {
    /// The signer on whose behalf the call was made.
    pub caller: AccountId,
    /// The contract that was called.
    pub callee: AccountId,
    /// The envelope that was executed.
    pub encoded_transaction: Transaction,
}

/// The nested call an accepted envelope asks the host to perform.
#[derive(Clone, Debug, PartialEq, Eq)]
pub struct CallRequest {
    /// The contract to call.
    pub callee: AccountId,
    /// The function of the callee to call.
    pub selector: [u8; 4],
    /// The raw bytes passed as the call's parameters.
    pub input: Vec<u8>,
    /// The balance to transfer with the call.
    pub transferred_value: Balance,
    /// The gas limit of the call.
    pub gas_limit: u64,
    /// Whether the callee may re-enter the forwarder.
    pub allow_reentry: bool,
}

/// Errors that can occur upon calling the forwarder.
#[derive(Copy, Clone, Debug, PartialEq, Eq, Structural)]
pub enum Error {
    /// Signature does not match transaction.
    BadSignature,
    /// Returned if the nested call failed.
    TransactionFailed,
    /// Token amount specified in the transaction did not match the tokens
    /// attached to the `execute` call.
    ValueTransferMismatch,
    /// The transaction cannot be executed at or after its expiration time.
    TransactionExpired,
    /// Submitted nonce does not match the expected one.
    IncorrectNonce,
    /// Signature does not match transaction.
    IncorrectSignature,
}

/// The canonical byte serialization of an envelope: every field in a fixed
/// order, integers little-endian, the payload behind a compact length.
/// The signer hashes and signs exactly these bytes.
pub open spec fn tx_encoding(req: Transaction) -> Seq<u8> {
    req.from@ + req.callee@ + req.selector@ + compact_len_bytes(req.input@.len()) + req.input@
        + le_bytes(req.transferred_value as nat, 16) + le_bytes(req.gas_limit as nat, 8) + seq![
        bool_byte(req.allow_reentry),
    ] + le_bytes(req.nonce as nat, 16) + le_bytes(req.expiration_time_seconds as nat, 8)
}

/// The digest an envelope is signed over.
pub open spec fn tx_digest(req: Transaction) -> Seq<u8> {
    blake2_of(tx_encoding(req))
}

/// Whether `sig` recovers to the envelope's claimed signer.
pub open spec fn sig_recovers_to_signer(req: Transaction, sig: Seq<u8>) -> bool {
    recovered_account_of(sig, tx_digest(req)) == Some(req.from@)
}

/// Serializes an envelope canonically.
pub fn encode_transaction(req: &Transaction) -> (r: Vec<u8>)
    requires
        req.input@.len() <= u32::MAX,
    ensures
        r@ == tx_encoding(*req),
{
    let mut out: Vec<u8> = Vec::new();
    push_bytes(&mut out, req.from.0.as_slice());
    push_bytes(&mut out, req.callee.0.as_slice());
    push_bytes(&mut out, req.selector.as_slice());
    push_compact_len(&mut out, req.input.len() as u32);
    push_bytes(&mut out, req.input.as_slice());
    push_le_bytes(&mut out, req.transferred_value, 16);
    push_le_bytes(&mut out, req.gas_limit as u128, 8);
    let ghost mid = out@;
    out.push(if req.allow_reentry {
        1u8
    } else {
        0u8
    });
    proof {
        assert(out@ =~= mid + seq![bool_byte(req.allow_reentry)]);
    }
    push_le_bytes(&mut out, req.nonce, 16);
    push_le_bytes(&mut out, req.expiration_time_seconds as u128, 8);
    proof {
        assert(out@ =~= tx_encoding(*req));
    }
    out
}

/// The stored nonce for account `a` in an entry list: the value of the first
/// entry whose key is `a`, if any.
pub open spec fn find_nonce(s: Seq<(AccountId, Nonce)>, a: Seq<u8>) -> Option<Nonce>
    decreases s.len(),
{
    if s.len() == 0 {
        None
    } else if s[0].0@ == a {
        Some(s[0].1)
    } else {
        find_nonce(s.drop_first(), a)
    }
}

/// The forwarder's persistent state: the per-signer nonce registry, created
/// empty at construction, entries never removed.
pub struct InkMetaTransaction {
    nonces: Vec<(AccountId, Nonce)>,
}

/// The outcome `verify` owes: recovery failure or a wrong signer is an
/// incorrect signature, a nonce differing from the signer's expected one is
/// an incorrect nonce (checked first after a successful recovery), and an
/// envelope that passes both checks is accepted.
pub open spec fn verify_spec(m: InkMetaTransaction, req: Transaction, sig: Seq<u8>) -> Result<
    (),
    Error,
> {
    match recovered_account_of(sig, tx_digest(req)) {
        None => Err(Error::IncorrectSignature),
        Some(signer) => if req.nonce != m.nonce_of(req.from@) {
            Err(Error::IncorrectNonce)
        } else if signer != req.from@ {
            Err(Error::IncorrectSignature)
        } else {
            Ok(())
        },
    }
}

impl InkMetaTransaction {
    /// Whether the registry holds an entry for account `a`.
    pub closed spec fn observed(&self, a: Seq<u8>) -> bool {
        find_nonce(self.nonces@, a) is Some
    }

    /// The next-expected nonce of account `a`: its stored entry, or zero for
    /// an account never observed.
    pub closed spec fn nonce_of(&self, a: Seq<u8>) -> Nonce {
        match find_nonce(self.nonces@, a) {
            Some(v) => v,
            None => 0,
        }
    }

    /// A fresh forwarder: every account's nonce is zero.
    pub fn default() -> (r: Self)
        ensures
            forall|a: Seq<u8>| !(#[trigger] r.observed(a)),
            forall|a: Seq<u8>| #[trigger] r.nonce_of(a) == 0,
    {
        let r = InkMetaTransaction { nonces: Vec::new() };
        proof {
            assert(forall|a: Seq<u8>| find_nonce(r.nonces@, a) is None);
        }
        r
    }

    /// The index of the first registry entry for `who`, if any.
    fn find_index(&self, who: &AccountId) -> (r: Option<usize>)
        ensures
            match r {
                Some(i) => i < self.nonces@.len() && self.nonces@[i as int].0@ == who@ && (forall|
                    j: int,
                |
                    0 <= j < i ==> (#[trigger] self.nonces@[j]).0@ != who@),
                None => forall|j: int|
                    0 <= j < self.nonces@.len() ==> (#[trigger] self.nonces@[j]).0@ != who@,
            },
    {
        let mut i: usize = 0;
        while i < self.nonces.len()
            invariant
                0 <= i <= self.nonces@.len(),
                forall|j: int| 0 <= j < i ==> (#[trigger] self.nonces@[j]).0@ != who@,
            decreases self.nonces@.len() - i,
        {
            if account_eq(&self.nonces[i].0, who) {
                return Some(i);
            }
            i += 1;
        }
        None
    }

    /// Get the nonce for the given account.
    pub fn get_nonce(&self, address: AccountId) -> (r: Nonce)
        ensures
            r == self.nonce_of(address@),
    {
        match self.find_index(&address) {
            Some(i) => {
                proof {
                    lemma_find_nonce_first(self.nonces@, i as int, address@);
                }
                self.nonces[i].1
            },
            None => {
                proof {
                    lemma_find_nonce_absent(self.nonces@, address@);
                }
                0
            },
        }
    }

    /// Advances the stored nonce of `who` by exactly one, leaving every other
    /// account's nonce unchanged.
    fn advance(&mut self, who: &AccountId)
        requires
            old(self).nonce_of(who@) < Nonce::MAX,
        ensures
            final(self).nonce_of(who@) == old(self).nonce_of(who@) + 1,
            forall|b: Seq<u8>|
                b != who@ ==> #[trigger] final(self).nonce_of(b) == old(self).nonce_of(b),
    {
        match self.find_index(who) {
            Some(i) => {
                proof {
                    lemma_find_nonce_first(self.nonces@, i as int, who@);
                }
                let ghost prev = self.nonces@;
                let current = self.nonces[i].1;
                let key = self.nonces[i].0;
                self.nonces.set(i, (key, current + 1));
                proof {
                    lemma_find_nonce_update(prev, i as int, (key, (current + 1) as Nonce));
                    lemma_find_nonce_first(self.nonces@, i as int, who@);
                }
            },
            None => {
                proof {
                    lemma_find_nonce_absent(self.nonces@, who@);
                }
                let ghost prev = self.nonces@;
                self.nonces.push((*who, 1));
                proof {
                    lemma_find_nonce_push(prev, (*who, 1), who@);
                    assert forall|b: Seq<u8>| b != who@ implies #[trigger] self.nonce_of(b) == old(
                        self,
                    ).nonce_of(b) by {
                        lemma_find_nonce_push(prev, (*who, 1), b);
                    }
                }
            },
        }
    }

    /// Verifies that a transaction matches its supplied signature and carries
    /// the signer's expected nonce; mutates nothing.
    pub fn verfiy(&self, req: Transaction, signature: [u8; 65]) -> (r: Result<(), Error>)
        requires
            req.input@.len() <= u32::MAX,
        ensures
            r == verify_spec(*self, req, signature@),
    {
        self.verify_inner(&req, &signature)
    }

    /// The verification pass shared by `verfiy` and `execute`.
    fn verify_inner(&self, req: &Transaction, signature: &[u8; 65]) -> (r: Result<(), Error>)
        requires
            req.input@.len() <= u32::MAX,
        ensures
            r == verify_spec(*self, *req, signature@),
    {
        let encoded_msg = encode_transaction(req);
        let message_hash = blake2x256_hash(encoded_msg.as_slice());
        match recover_signer(signature, &message_hash) {
            None => Err(Error::IncorrectSignature),
            Some(signer) => {
                let caller = req.from;
                let expected_nonce = self.get_nonce(caller);
                if expected_nonce != req.nonce {
                    Err(Error::IncorrectNonce)
                } else if !account_eq(&signer, &caller) {
                    Err(Error::IncorrectSignature)
                } else {
                    Ok(())
                }
            },
        }
    }

    /// Applies a signed envelope: on verifier success, matching attached
    /// value and unexpired deadline, advances the signer's nonce and returns
    /// the nested call to perform; on any failure, aborts with that failure
    /// and mutates nothing. A nonce consumed here is not refunded if the
    /// nested call later fails.
    pub fn execute(
        &mut self,
        req: Transaction,
        signature: [u8; 65],
        transferred_value: Balance,
        block_timestamp: Timestamp,
    ) -> (r: Result<CallRequest, Error>)
        requires
            req.input@.len() <= u32::MAX,
            old(self).nonce_of(req.from@) < Nonce::MAX,
        ensures
            match verify_spec(*old(self), req, signature@) {
                Err(e) => r == Err::<CallRequest, Error>(e) && *final(self) == *old(self),
                Ok(()) => if transferred_value != req.transferred_value {
                    r == Err::<CallRequest, Error>(Error::ValueTransferMismatch) && *final(self)
                        == *old(self)
                } else if block_timestamp >= req.expiration_time_seconds {
                    r == Err::<CallRequest, Error>(Error::TransactionExpired) && *final(self)
                        == *old(self)
                } else {
                    &&& r == Ok::<CallRequest, Error>(
                        (CallRequest {
                            callee: req.callee,
                            selector: req.selector,
                            input: req.input,
                            transferred_value: req.transferred_value,
                            gas_limit: req.gas_limit,
                            allow_reentry: req.allow_reentry,
                        }),
                    )
                    &&& final(self).nonce_of(req.from@) == old(self).nonce_of(req.from@) + 1
                    &&& (forall|b: Seq<u8>|
                        b != req.from@ ==> #[trigger] final(self).nonce_of(b) == old(
                            self,
                        ).nonce_of(b))
                },
            },
    {
        match self.verify_inner(&req, &signature) {
            Err(e) => {
                return Err(e);
            },
            Ok(()) => {},
        }
        if transferred_value != req.transferred_value {
            return Err(Error::ValueTransferMismatch);
        }
        if block_timestamp >= req.expiration_time_seconds {
            return Err(Error::TransactionExpired);
        }
        self.advance(&req.from);
        Ok(
            CallRequest {
                callee: req.callee,
                selector: req.selector,
                input: req.input,
                transferred_value: req.transferred_value,
                gas_limit: req.gas_limit,
                allow_reentry: req.allow_reentry,
            },
        )
    }

    /// Completes an accepted envelope once the host performed the nested
    /// call: on success, exactly one audit record naming the signer as the
    /// caller; on failure, the transaction failure. The nonce advanced by
    /// `execute` stays advanced either way.
    pub fn finish_execute(req: Transaction, call_succeeded: bool) -> (r: Result<Executed, Error>)
        ensures
            call_succeeded ==> r == Ok::<Executed, Error>(
                (Executed { caller: req.from, callee: req.callee, encoded_transaction: req }),
            ),
            !call_succeeded ==> r == Err::<Executed, Error>(Error::TransactionFailed),
    {
        if call_succeeded {
            Ok(Executed { caller: req.from, callee: req.callee, encoded_transaction: req })
        } else {
            Err(Error::TransactionFailed)
        }
    }
}

/// The stored nonce of a first matching entry.
proof fn lemma_find_nonce_first(s: Seq<(AccountId, Nonce)>, i: int, a: Seq<u8>)
    requires
        0 <= i < s.len(),
        s[i].0@ == a,
        forall|j: int| 0 <= j < i ==> (#[trigger] s[j]).0@ != a,
    ensures
        find_nonce(s, a) == Some(s[i].1),
    decreases i,
{
    if i == 0 {
    } else {
        lemma_find_nonce_first(s.drop_first(), i - 1, a);
    }
}

/// An account with no entry has no stored nonce.
proof fn lemma_find_nonce_absent(s: Seq<(AccountId, Nonce)>, a: Seq<u8>)
    requires
        forall|j: int| 0 <= j < s.len() ==> (#[trigger] s[j]).0@ != a,
    ensures
        find_nonce(s, a) is None,
    decreases s.len(),
{
    if s.len() > 0 {
        lemma_find_nonce_absent(s.drop_first(), a);
    }
}

/// Replacing the value of a first matching entry changes no other lookup.
proof fn lemma_find_nonce_update(s: Seq<(AccountId, Nonce)>, i: int, x: (AccountId, Nonce))
    requires
        0 <= i < s.len(),
        x.0@ == s[i].0@,
        forall|j: int| 0 <= j < i ==> (#[trigger] s[j]).0@ != s[i].0@,
    ensures
        forall|b: Seq<u8>|
            b != s[i].0@ ==> #[trigger] find_nonce(s.update(i, x), b) == find_nonce(s, b),
    decreases i,
{
    let s2 = s.update(i, x);
    if i == 0 {
        assert forall|b: Seq<u8>| b != s[i].0@ implies #[trigger] find_nonce(s2, b) == find_nonce(
            s,
            b,
        ) by {
            assert(s2.drop_first() =~= s.drop_first());
        }
    } else {
        lemma_find_nonce_update(s.drop_first(), i - 1, x);
        assert forall|b: Seq<u8>| b != s[i].0@ implies #[trigger] find_nonce(s2, b) == find_nonce(
            s,
            b,
        ) by {
            assert(s2[0] == s[0]);
            if s[0].0@ != b {
                assert(s2.drop_first() =~= s.drop_first().update(i - 1, x));
                assert(find_nonce(s.drop_first().update(i - 1, x), b) == find_nonce(
                    s.drop_first(),
                    b,
                ));
            }
        }
    }
}

/// Appending an entry resolves lookups of its key that found nothing before,
/// and changes no other lookup.
proof fn lemma_find_nonce_push(s: Seq<(AccountId, Nonce)>, x: (AccountId, Nonce), b: Seq<u8>)
    ensures
        find_nonce(s.push(x), b) == (if find_nonce(s, b) is Some {
            find_nonce(s, b)
        } else if x.0@ == b {
            Some(x.1)
        } else {
            None
        }),
    decreases s.len(),
{
    let s2 = s.push(x);
    if s.len() == 0 {
        assert(s2[0] == x);
        assert(s2.drop_first() =~= Seq::<(AccountId, Nonce)>::empty());
        assert(find_nonce(s2.drop_first(), b) is None);
        assert(find_nonce(s, b) is None);
    } else {
        assert(s2[0] == s[0]);
        lemma_find_nonce_push(s.drop_first(), x, b);
        assert(s2.drop_first() =~= s.drop_first().push(x));
    }
}

/// For all accounts never previously observed, the expected nonce is zero.
pub proof fn lemma_unseen_nonce_is_zero(m: InkMetaTransaction, a: Seq<u8>)
    requires
        !m.observed(a),
    ensures
        m.nonce_of(a) == 0,
{
}

/// `verify` reports an incorrect nonce only when the envelope's nonce
/// differs from the signer's expected nonce; whenever key recovery succeeds,
/// it does so exactly then.
pub proof fn lemma_incorrect_nonce_iff(m: InkMetaTransaction, req: Transaction, sig: Seq<u8>)
    ensures
        verify_spec(m, req, sig) == Err::<(), Error>(Error::IncorrectNonce) ==> req.nonce
            != m.nonce_of(req.from@),
        recovered_account_of(sig, tx_digest(req)) is Some ==> ((verify_spec(m, req, sig) == Err::<
            (),
            Error,
        >(Error::IncorrectNonce)) <==> req.nonce != m.nonce_of(req.from@)),
{
}

/// `verify` reports an incorrect signature only when the signature does not
/// recover to the envelope's signer; whenever the envelope carries the
/// expected nonce, it does so exactly then. An envelope is accepted exactly
/// when the signature recovers to its signer and the nonce is the expected
/// one.
pub proof fn lemma_incorrect_signature_iff(m: InkMetaTransaction, req: Transaction, sig: Seq<u8>)
    ensures
        verify_spec(m, req, sig) == Err::<(), Error>(Error::IncorrectSignature)
            ==> !sig_recovers_to_signer(req, sig),
        req.nonce == m.nonce_of(req.from@) ==> ((verify_spec(m, req, sig) == Err::<(), Error>(
            Error::IncorrectSignature,
        )) <==> !sig_recovers_to_signer(req, sig)),
        (verify_spec(m, req, sig) == Ok::<(), Error>(())) <==> (sig_recovers_to_signer(req, sig)
            && req.nonce == m.nonce_of(req.from@)),
{
}

/// Replay protection: once the signer's nonce has advanced past an accepted
/// envelope, re-submitting the identical envelope and signature is rejected
/// with an incorrect nonce.
pub proof fn lemma_replay_rejected(
    pre: InkMetaTransaction,
    post: InkMetaTransaction,
    req: Transaction,
    sig: Seq<u8>,
)
    requires
        verify_spec(pre, req, sig) == Ok::<(), Error>(()),
        post.nonce_of(req.from@) == pre.nonce_of(req.from@) + 1,
    ensures
        verify_spec(post, req, sig) == Err::<(), Error>(Error::IncorrectNonce),
{
}

} // verus!
