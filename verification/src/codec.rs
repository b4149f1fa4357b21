//! Canonical byte encoding of envelope fields.
//!
//! The wire contract: fixed-width integers in little-endian order, byte
//! strings prefixed by a compact length, a boolean as one byte. Signer and
//! verifier must produce byte-identical encodings or all signatures are
//! rejected.

use vstd::prelude::*;

verus! {

/// The `n` low-order bytes of `v`, least significant first.
pub open spec fn le_bytes(v: nat, n: nat) -> Seq<u8>
    decreases n,
{
    if n == 0 {
        Seq::empty()
    } else {
        seq![(v % 256) as u8] + le_bytes(v / 256, (n - 1) as nat)
    }
}

/// The compact encoding of a collection length `n`, for `n <= u32::MAX`:
/// one byte carrying `n * 4` below 2^6; two bytes carrying `n * 4 + 1`
/// below 2^14; four bytes carrying `n * 4 + 2` below 2^30; otherwise a
/// marker byte 3 followed by the four little-endian bytes of `n`.
pub open spec fn compact_len_bytes(n: nat) -> Seq<u8>
    recommends
        n <= u32::MAX,
{
    if n < 64 {
        seq![(n * 4) as u8]
    } else if n < 16384 {
        le_bytes(n * 4 + 1, 2)
    } else if n < 1073741824 {
        le_bytes(n * 4 + 2, 4)
    } else {
        seq![3u8] + le_bytes(n, 4)
    }
}

/// The one-byte encoding of a boolean.
pub open spec fn bool_byte(b: bool) -> u8 {
    if b {
        1
    } else {
        0
    }
}

/// Appends the `n`-byte little-endian encoding of `v` to `out`.
pub fn push_le_bytes(out: &mut Vec<u8>, v: u128, n: usize)
    ensures
        final(out)@ == old(out)@ + le_bytes(v as nat, n as nat),
{
    let mut cur: u128 = v;
    let mut i: usize = 0;
    while i < n
        invariant
            0 <= i <= n,
            out@ + le_bytes(cur as nat, (n - i) as nat) == old(out)@ + le_bytes(
                v as nat,
                n as nat,
            ),
        decreases n - i,
    {
        let ghost prev = out@;
        let ghost prev_cur = cur as nat;
        out.push((cur % 256) as u8);
        cur = cur / 256;
        proof {
            assert(le_bytes(prev_cur, (n - i) as nat) == seq![(prev_cur % 256) as u8] + le_bytes(
                prev_cur / 256,
                (n - i - 1) as nat,
            ));
            assert(out@ + le_bytes(cur as nat, (n - (i + 1)) as nat) =~= prev + le_bytes(
                prev_cur,
                (n - i) as nat,
            ));
        }
        i += 1;
    }
    proof {
        assert(le_bytes(cur as nat, 0) =~= Seq::<u8>::empty());
        assert(out@ =~= out@ + le_bytes(cur as nat, 0));
    }
}

/// Appends the compact encoding of the length `n` to `out`.
pub fn push_compact_len(out: &mut Vec<u8>, n: u32)
    ensures
        final(out)@ == old(out)@ + compact_len_bytes(n as nat),
{
    if n < 64 {
        out.push((n * 4) as u8);
        proof {
            assert(out@ =~= old(out)@ + compact_len_bytes(n as nat));
        }
    } else if n < 16384 {
        push_le_bytes(out, (n * 4 + 1) as u128, 2);
    } else if n < 1073741824 {
        push_le_bytes(out, (n * 4 + 2) as u128, 4);
    } else {
        let ghost mid = out@;
        out.push(3u8);
        proof {
            assert(out@ =~= mid + seq![3u8]);
        }
        push_le_bytes(out, n as u128, 4);
        proof {
            assert(out@ =~= mid + compact_len_bytes(n as nat));
        }
    }
}

/// Appends the bytes of `data` to `out`.
pub fn push_bytes(out: &mut Vec<u8>, data: &[u8])
    ensures
        final(out)@ == old(out)@ + data@,
{
    let mut i: usize = 0;
    while i < data.len()
        invariant
            0 <= i <= data@.len(),
            out@ == old(out)@ + data@.subrange(0, i as int),
        decreases data@.len() - i,
    {
        let ghost prev = out@;
        out.push(data[i]);
        proof {
            assert(out@ =~= old(out)@ + data@.subrange(0, i + 1));
        }
        i += 1;
    }
    proof {
        assert(data@.subrange(0, data@.len() as int) =~= data@);
    }
}

} // verus!
