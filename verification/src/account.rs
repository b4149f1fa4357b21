//! The ledger account identifier: 32 opaque bytes.

use vstd::prelude::*;

verus! {

/// A 32-byte account identifier, as the ledger derives it from a public key.
#[derive(Clone, Copy, Debug, PartialEq, Eq, Hash)]
pub struct AccountId(pub [u8; 32]);

impl View for AccountId {
    type V = Seq<u8>;

    open spec fn view(&self) -> Seq<u8> {
        self.0@
    }
}

/// Two account identifiers with the same bytes are the same identifier.
pub proof fn lemma_account_view_injective(a: AccountId, b: AccountId)
    requires
        a@ == b@,
    ensures
        a == b,
{
    broadcast use vstd::array::axiom_array_ext_equal;

    assert(forall|i: int| 0 <= i < 32 ==> a.0[i] == b.0[i]);
    assert(a.0 =~= b.0);
}

/// Byte-wise equality of two account identifiers.
pub fn account_eq(a: &AccountId, b: &AccountId) -> (r: bool)
    ensures
        r == (a@ == b@),
{
    let mut i: usize = 0;
    while i < 32
        invariant
            0 <= i <= 32,
            forall|j: int| 0 <= j < i ==> a.0@[j] == b.0@[j],
        decreases 32 - i,
    {
        if a.0[i] != b.0[i] {
            assert(a@[i as int] != b@[i as int]);
            return false;
        }
        i += 1;
    }
    proof {
        assert(a@ =~= b@);
    }
    true
}

/// Reads an account identifier from the first 32 bytes of `data`;
/// fails exactly when `data` is shorter than 32 bytes.
pub fn account_from_prefix(data: &[u8]) -> (r: Option<AccountId>)
    ensures
        match r {
            Some(a) => data@.len() >= 32 && a@ == data@.subrange(0, 32),
            None => data@.len() < 32,
        },
{
    if data.len() < 32 {
        return None;
    }
    let mut out: [u8; 32] = [0u8; 32];
    let mut i: usize = 0;
    while i < 32
        invariant
            0 <= i <= 32,
            data@.len() >= 32,
            forall|j: int| 0 <= j < i ==> out@[j] == data@[j],
        decreases 32 - i,
    {
        out[i] = data[i];
        i += 1;
    }
    proof {
        assert(out@ =~= data@.subrange(0, 32));
    }
    Some(AccountId(out))
}

} // verus!
