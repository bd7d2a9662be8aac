//! Deterministic record addressing.
//!
//! Every escrow record lives at a storage address derived from the
//! tuple (listing identifier, buyer, seller, arbiter). The derivation
//! is a pure function, so any party can recompute the address without a
//! lookup table, and the same tuple always resolves to the same record.
//! Alongside the address the derivation fixes a single nonce byte; the
//! record stores it and later presents it, together with the re-derived
//! address, as the credential that authorizes transfers out of custody.

use vstd::prelude::*;
use vstd::wrapping::u64_specs;

use crate::identity::AccountId;

verus! {

/// Seed value of the mixing function.
pub const MIX_SEED: u64 = 0xcbf29ce484222325;

/// Multiplier of the mixing function.
pub const MIX_PRIME: u64 = 0x100000001b3;

/// The derived storage address of one escrow record: 32 bytes, keyed
/// by the identifying tuple and the derivation nonce.
#[derive(Clone, Copy, Debug)]
pub struct EscrowAddress {
    pub bytes: [u8; 32],
}

impl View for EscrowAddress {
    type V = Seq<u8>;

    open spec fn view(&self) -> Seq<u8> {
        self.bytes@
    }
}

/// One step of the mixing function: fold one byte into the running
/// 64-bit state.
pub open spec fn mix(h: u64, b: u8) -> u64 {
    u64_specs::wrapping_mul(h ^ (b as u64), MIX_PRIME)
}

/// Fold a whole byte sequence into the running state, front to back.
pub open spec fn mix_seq(h: u64, s: Seq<u8>) -> u64
    decreases s.len(),
{
    if s.len() == 0 {
        h
    } else {
        mix(mix_seq(h, s.drop_last()), s.last())
    }
}

/// The domain tag that separates escrow addresses from any other use
/// of the mixing function.
pub open spec fn domain_tag() -> Seq<u8> {
    seq![101u8, 115u8, 99u8, 114u8, 111u8, 119u8]
}

/// The 64-bit digest of the identifying tuple.
pub open spec fn tuple_digest(
    listing_id: Seq<u8>,
    buyer: AccountId,
    seller: AccountId,
    arbiter: AccountId,
) -> u64 {
    mix_seq(
        mix_seq(
            mix_seq(mix_seq(mix_seq(MIX_SEED, domain_tag()), listing_id), buyer.bytes@),
            seller.bytes@,
        ),
        arbiter.bytes@,
    )
}

/// The derivation nonce chosen for the identifying tuple: the top byte
/// of the tuple digest.
pub open spec fn nonce_spec(
    listing_id: Seq<u8>,
    buyer: AccountId,
    seller: AccountId,
    arbiter: AccountId,
) -> u8 {
    (tuple_digest(listing_id, buyer, seller, arbiter) >> 56) as u8
}

/// Iterate the mixing function over the first `i` position counters,
/// starting from state `h`.
pub open spec fn squeeze(h: u64, i: nat) -> u64
    decreases i,
{
    if i == 0 {
        h
    } else {
        mix(squeeze(h, (i - 1) as nat), (i - 1) as u8)
    }
}

/// The 32 address bytes derived from the identifying tuple and a nonce.
pub open spec fn address_spec(
    listing_id: Seq<u8>,
    buyer: AccountId,
    seller: AccountId,
    arbiter: AccountId,
    nonce: u8,
) -> Seq<u8> {
    let h0 = mix(tuple_digest(listing_id, buyer, seller, arbiter), nonce);
    Seq::new(32, |i: int| (squeeze(h0, (i + 1) as nat) >> 56) as u8)
}

/// One step of the mixing function.
fn mix_byte(h: u64, b: u8) -> (r: u64)
    ensures
        r == mix(h, b),
{
    (h ^ (b as u64)).wrapping_mul(MIX_PRIME)
}

/// Fold a fixed-size byte block into the running state.
fn absorb<const N: usize>(h: u64, data: &[u8; N]) -> (r: u64)
    ensures
        r == mix_seq(h, data@),
{
    let ghost h0: u64 = h;
    let mut acc: u64 = h;
    let mut i: usize = 0;
    while i < N
        invariant
            0 <= i <= N,
            acc == mix_seq(h0, data@.subrange(0, i as int)),
        decreases N - i,
    {
        acc = mix_byte(acc, data[i]);
        proof {
            assert(data@.subrange(0, i + 1).drop_last() =~= data@.subrange(0, i as int));
            assert(data@.subrange(0, i + 1).last() == data@[i as int]);
        }
        i += 1;
    }
    proof {
        assert(data@.subrange(0, N as int) =~= data@);
    }
    acc
}

/// Extract the top byte of the running state.
fn top_byte(h: u64) -> (r: u8)
    ensures
        r == (h >> 56) as u8,
{
    proof {
        assert(h >> 56 < 256) by (bit_vector);
    }
    (h >> 56) as u8
}

/// The 64-bit digest of the identifying tuple.
fn digest_tuple(
    listing_id: &[u8; 32],
    buyer: &AccountId,
    seller: &AccountId,
    arbiter: &AccountId,
) -> (r: u64)
    ensures
        r == tuple_digest(listing_id@, *buyer, *seller, *arbiter),
{
    let tag: [u8; 6] = [101u8, 115u8, 99u8, 114u8, 111u8, 119u8];
    proof {
        assert(tag@ =~= domain_tag());
    }
    let mut h: u64 = absorb(MIX_SEED, &tag);
    h = absorb(h, listing_id);
    h = absorb(h, &buyer.bytes);
    h = absorb(h, &seller.bytes);
    h = absorb(h, &arbiter.bytes);
    h
}

/// Re-derive the address of the record identified by the tuple, for a
/// known nonce. Used to reproduce a stored record's address when
/// authorizing transfers out of custody.
pub fn address_for_nonce(
    listing_id: &[u8; 32],
    buyer: &AccountId,
    seller: &AccountId,
    arbiter: &AccountId,
    nonce: u8,
) -> (r: EscrowAddress)
    ensures
        r@ == address_spec(listing_id@, *buyer, *seller, *arbiter, nonce),
{
    let ghost h0: u64 = mix(tuple_digest(listing_id@, *buyer, *seller, *arbiter), nonce);
    let mut h: u64 = mix_byte(digest_tuple(listing_id, buyer, seller, arbiter), nonce);
    let mut out: [u8; 32] = [0u8; 32];
    let mut i: usize = 0;
    while i < 32
        invariant
            0 <= i <= 32,
            h == squeeze(h0, i as nat),
            out@.len() == 32,
            forall|k: int|
                0 <= k < i ==> out@[k] == (squeeze(h0, (k + 1) as nat) >> 56) as u8,
        decreases 32 - i,
    {
        h = mix_byte(h, i as u8);
        out[i] = top_byte(h);
        i += 1;
    }
    let r = EscrowAddress { bytes: out };
    proof {
        assert(r@ =~= address_spec(listing_id@, *buyer, *seller, *arbiter, nonce));
    }
    r
}

/// Derive the storage address and the derivation nonce for the tuple
/// (listing identifier, buyer, seller, arbiter). Pure and
/// deterministic: the same tuple always yields the same pair.
pub fn derive_address(
    listing_id: &[u8; 32],
    buyer: &AccountId,
    seller: &AccountId,
    arbiter: &AccountId,
) -> (r: (EscrowAddress, u8))
    ensures
        r.1 == nonce_spec(listing_id@, *buyer, *seller, *arbiter),
        r.0@ == address_spec(listing_id@, *buyer, *seller, *arbiter, r.1),
{
    let nonce = top_byte(digest_tuple(listing_id, buyer, seller, arbiter));
    let addr = address_for_nonce(listing_id, buyer, seller, arbiter, nonce);
    (addr, nonce)
}

/// Exact equality of two addresses.
pub fn address_equal(a: &EscrowAddress, b: &EscrowAddress) -> (r: bool)
    ensures
        r == (a@ == b@),
{
    crate::identity::bytes_equal(&a.bytes, &b.bytes)
}

} // verus!
