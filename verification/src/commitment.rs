//! The amount commitment scheme.
//!
//! A commitment binds a party to a secret amount: the digest of a canonical
//! byte encoding of `(owner, amount, salt)`. The scheme is stateless — no
//! digest is stored; callers keep it and later reveal the tuple, which
//! anyone can check against the digest.
//!
//! The canonical encoding is fixed so that independently built clients can
//! reproduce commitments: the owner's length as eight little-endian bytes,
//! the owner's bytes, the amount's two's-complement bits as sixteen
//! little-endian bytes, then the salt. The length prefix keeps the encoding
//! injective across the field boundaries — no two distinct tuples share an
//! encoding, which is proved below — so a forged equivalent commitment would
//! need a digest collision.

use vstd::prelude::*;

use crate::account::AccountId;
use crate::errors::QuickexError;
use crate::hashing::sha256;
use crate::hashing::sha256_of;
use crate::QuickexContract;

verus! {

/// The canonical byte encoding of a commitment tuple.
pub open spec fn commitment_preimage(owner: Seq<u8>, amount: i128, salt: Seq<u8>) -> Seq<u8> {
    vstd::bytes::spec_u64_to_le_bytes(owner.len() as u64) + owner
        + vstd::bytes::spec_u128_to_le_bytes(amount as u128) + salt
}

/// The commitment digest of a tuple: the SHA-256 of its canonical encoding.
pub open spec fn commitment_digest(owner: Seq<u8>, amount: i128, salt: Seq<u8>) -> Seq<u8> {
    sha256_of(commitment_preimage(owner, amount, salt))
}

/// Whether a digest is exactly the commitment of the given tuple.
pub open spec fn commitment_matches(
    digest: Seq<u8>,
    owner: Seq<u8>,
    amount: i128,
    salt: Seq<u8>,
) -> bool {
    digest == commitment_digest(owner, amount, salt)
}

/// Appends the bytes of `src` to `dst`.
fn push_bytes(dst: &mut Vec<u8>, src: &Vec<u8>)
    ensures
        final(dst)@ == old(dst)@ + src@,
{
    proof {
        assert(dst@ =~= dst@ + src@.subrange(0, 0));
    }
    let mut i: usize = 0;
    while i < src.len()
        invariant
            i <= src.len(),
            dst@ == old(dst)@ + src@.subrange(0, i as int),
        decreases src.len() - i,
    {
        dst.push(src[i]);
        proof {
            assert(dst@ =~= old(dst)@ + src@.subrange(0, i as int + 1));
        }
        i = i + 1;
    }
    proof {
        assert(dst@ =~= old(dst)@ + src@);
    }
}

/// Builds the canonical encoding of a commitment tuple.
fn build_preimage(owner: &AccountId, amount: i128, salt: &Vec<u8>) -> (r: Vec<u8>)
    ensures
        r@ == commitment_preimage(owner@, amount, salt@),
{
    let mut data = vstd::bytes::u64_to_le_bytes(owner.bytes.len() as u64);
    push_bytes(&mut data, &owner.bytes);
    let amount_bytes = vstd::bytes::u128_to_le_bytes(#[verifier::truncate] (amount as u128));
    push_bytes(&mut data, &amount_bytes);
    push_bytes(&mut data, salt);
    proof {
        assert(data@ =~= commitment_preimage(owner@, amount, salt@));
    }
    data
}

/// Byte-for-byte equality of two byte strings.
fn bytes_eq(a: &Vec<u8>, b: &Vec<u8>) -> (r: bool)
    ensures
        r == (a@ == b@),
{
    if a.len() != b.len() {
        return false;
    }
    proof {
        assert(a@.subrange(0, 0) =~= b@.subrange(0, 0));
    }
    let mut i: usize = 0;
    while i < a.len()
        invariant
            i <= a.len(),
            a.len() == b.len(),
            a@.subrange(0, i as int) == b@.subrange(0, i as int),
        decreases a.len() - i,
    {
        if a[i] != b[i] {
            return false;
        }
        proof {
            assert(a@.subrange(0, i as int + 1) =~= b@.subrange(0, i as int + 1));
        }
        i = i + 1;
    }
    proof {
        assert(a@.subrange(0, a@.len() as int) =~= a@);
        assert(b@.subrange(0, b@.len() as int) =~= b@);
    }
    true
}

impl QuickexContract {
    /// Create a commitment for a hidden amount: the digest of the canonical
    /// encoding of `(owner, amount, salt)`. Pure — the same tuple always
    /// yields the same digest — and nothing is persisted. Never fails; the
    /// result type matches the operation surface, which reserves an error
    /// slot it does not use.
    pub fn create_amount_commitment(owner: &AccountId, amount: i128, salt: &Vec<u8>) -> (r: Result<
        Vec<u8>,
        QuickexError,
    >)
        ensures
            r is Ok,
            r->Ok_0@ == commitment_digest(owner@, amount, salt@),
            r->Ok_0@.len() == 32,
    {
        let preimage = build_preimage(owner, amount, salt);
        Ok(sha256(&preimage))
    }

    /// Check a revealed tuple against a commitment digest: recomputes the
    /// digest from `(owner, amount, salt)` and compares byte for byte. A
    /// mismatch — wrong owner, amount or salt — is the expected outcome
    /// `false`, never an error.
    pub fn verify_amount_commitment(
        digest: &Vec<u8>,
        owner: &AccountId,
        amount: i128,
        salt: &Vec<u8>,
    ) -> (r: bool)
        ensures
            r == commitment_matches(digest@, owner@, amount, salt@),
    {
        let preimage = build_preimage(owner, amount, salt);
        let computed = sha256(&preimage);
        bytes_eq(digest, &computed)
    }
}

/// Law: a commitment verifies against exactly the tuple that created it —
/// for every `(owner, amount, salt)`, the digest of the tuple matches the
/// tuple.
pub proof fn lemma_commitment_roundtrip(owner: Seq<u8>, amount: i128, salt: Seq<u8>)
    ensures
        commitment_matches(commitment_digest(owner, amount, salt), owner, amount, salt),
{
}

/// Law: the canonical encoding is injective — two commitment tuples with the
/// same encoding are the same tuple, so distinct tuples can only collide if
/// the digest itself collides.
pub proof fn lemma_commitment_preimage_injective(
    o1: Seq<u8>,
    a1: i128,
    s1: Seq<u8>,
    o2: Seq<u8>,
    a2: i128,
    s2: Seq<u8>,
)
    requires
        o1.len() <= u64::MAX,
        o2.len() <= u64::MAX,
        commitment_preimage(o1, a1, s1) == commitment_preimage(o2, a2, s2),
    ensures
        o1 == o2,
        a1 == a2,
        s1 == s2,
{
    vstd::bytes::lemma_auto_spec_u64_to_from_le_bytes();
    vstd::bytes::lemma_auto_spec_u128_to_from_le_bytes();
    let p1 = commitment_preimage(o1, a1, s1);
    let p2 = commitment_preimage(o2, a2, s2);
    let l1 = vstd::bytes::spec_u64_to_le_bytes(o1.len() as u64);
    let l2 = vstd::bytes::spec_u64_to_le_bytes(o2.len() as u64);
    let m1 = vstd::bytes::spec_u128_to_le_bytes(a1 as u128);
    let m2 = vstd::bytes::spec_u128_to_le_bytes(a2 as u128);
    assert(l1 =~= p1.subrange(0, 8));
    assert(l2 =~= p2.subrange(0, 8));
    assert(o1.len() as u64 == o2.len() as u64);
    assert(o1.len() == o2.len());
    let n = o1.len() as int;
    assert(o1 =~= p1.subrange(8, 8 + n));
    assert(o2 =~= p2.subrange(8, 8 + n));
    assert(m1 =~= p1.subrange(8 + n, 24 + n));
    assert(m2 =~= p2.subrange(8 + n, 24 + n));
    assert(a1 as u128 == a2 as u128);
    assert(a1 == a2) by (bit_vector)
        requires
            a1 as u128 == a2 as u128,
    ;
    assert(s1 =~= p1.subrange(24 + n, p1.len() as int));
    assert(s2 =~= p2.subrange(24 + n, p2.len() as int));
}

} // verus!
