//! Nonce management: the per-direction derivation run at handshake time and
//! the big-endian counter increment that advances a nonce after every use.

use vstd::prelude::*;

use crate::wire::{lemma_be32_of_bytes, spec_be32, spec_be32_bytes};
use crate::NONCE_LEN;

verus! {

/// Next value of the 32-bit counter: plus one, wrapping around at the top.
pub open spec fn spec_wrap_inc(v: u32) -> u32 {
    if v == u32::MAX {
        0
    } else {
        (v + 1) as u32
    }
}

/// The nonce with its trailing 4 bytes, read as a big-endian counter, advanced
/// by one with wraparound; the leading bytes are untouched.
pub open spec fn spec_increment(n: Seq<u8>) -> Seq<u8>
    recommends
        n.len() >= 4,
{
    n.subrange(0, n.len() - 4) + spec_be32_bytes(
        spec_wrap_inc(spec_be32(n.subrange(n.len() - 4, n.len() as int))),
    )
}

/// Reading-direction nonce: the first half of our random value, then the
/// second half of the peer's.
pub open spec fn spec_reading_nonce(our: Seq<u8>, remote: Seq<u8>) -> Seq<u8>
    recommends
        our.len() == NONCE_LEN,
        remote.len() == NONCE_LEN,
{
    our.subrange(0, NONCE_LEN as int / 2) + remote.subrange(NONCE_LEN as int / 2, NONCE_LEN as int)
}

/// Writing-direction nonce: the first half of the peer's random value, then
/// the second half of ours.
pub open spec fn spec_writing_nonce(our: Seq<u8>, remote: Seq<u8>) -> Seq<u8>
    recommends
        our.len() == NONCE_LEN,
        remote.len() == NONCE_LEN,
{
    remote.subrange(0, NONCE_LEN as int / 2) + our.subrange(NONCE_LEN as int / 2, NONCE_LEN as int)
}

/// Law: when two peers run the handshake against each other, each one's
/// reading nonce is the other's writing nonce, in both directions, so the
/// frames one peer seals are exactly the frames the other expects to open.
pub proof fn lemma_handshake_symmetry(a: Seq<u8>, b: Seq<u8>)
    requires
        a.len() == NONCE_LEN,
        b.len() == NONCE_LEN,
    ensures
        spec_reading_nonce(a, b) == spec_writing_nonce(b, a),
        spec_writing_nonce(a, b) == spec_reading_nonce(b, a),
{
}

/// Law: advancing a nonce always yields a different value, so two consecutive
/// frames in one direction are never sealed under the same nonce.
pub proof fn lemma_increment_changes(n: Seq<u8>)
    requires
        n.len() >= 4,
    ensures
        spec_increment(n) != n,
{
    let tail = n.subrange(n.len() - 4, n.len() as int);
    let v = spec_be32(tail);
    let w = spec_wrap_inc(v);
    lemma_be32_of_bytes(w);
    if spec_increment(n) == n {
        assert(spec_increment(n).subrange(n.len() - 4, n.len() as int) =~= spec_be32_bytes(w));
        assert(tail == spec_be32_bytes(w));
        assert(v == w);
        assert(false);
    }
}

/// Advances the nonce: its last 4 bytes are a big-endian counter, incremented
/// by one with wraparound on overflow. The protocol fixes the nonce size well
/// above 4, so shorter buffers are ruled out rather than handled.
pub fn increment_nonce_inplace(nonce: &mut Vec<u8>)
    requires
        old(nonce)@.len() >= 4,
    ensures
        final(nonce)@ == spec_increment(old(nonce)@),
{
    let len = nonce.len();
    let b0 = nonce[len - 4];
    let b1 = nonce[len - 3];
    let b2 = nonce[len - 2];
    let b3 = nonce[len - 1];
    let v: u32 = ((b0 as u32) << 24) | ((b1 as u32) << 16) | ((b2 as u32) << 8) | (b3 as u32);
    let w: u32 = if v == u32::MAX {
        0
    } else {
        v + 1
    };
    nonce.set(len - 4, ((w >> 24) & 0xff) as u8);
    nonce.set(len - 3, ((w >> 16) & 0xff) as u8);
    nonce.set(len - 2, ((w >> 8) & 0xff) as u8);
    nonce.set(len - 1, (w & 0xff) as u8);
    proof {
        let old_tail = old(nonce)@.subrange(old(nonce)@.len() - 4, old(nonce)@.len() as int);
        assert(v == spec_be32(old_tail));
        assert(w == spec_wrap_inc(v));
        assert(nonce@ =~= spec_increment(old(nonce)@));
    }
}

/// Builds one derived nonce: the first half of `a` followed by the second
/// half of `b`.
pub fn half_and_half(a: &Vec<u8>, b: &Vec<u8>) -> (r: Vec<u8>)
    requires
        a@.len() == NONCE_LEN,
        b@.len() == NONCE_LEN,
    ensures
        r@ == a@.subrange(0, NONCE_LEN as int / 2) + b@.subrange(
            NONCE_LEN as int / 2,
            NONCE_LEN as int,
        ),
{
    let mut r: Vec<u8> = Vec::new();
    let mut i: usize = 0;
    while i < NONCE_LEN / 2
        invariant
            i <= NONCE_LEN / 2,
            a@.len() == NONCE_LEN,
            r@ =~= a@.subrange(0, i as int),
        decreases NONCE_LEN / 2 - i,
    {
        r.push(a[i]);
        i = i + 1;
    }
    let mut j: usize = NONCE_LEN / 2;
    while j < NONCE_LEN
        invariant
            NONCE_LEN / 2 <= j <= NONCE_LEN,
            a@.len() == NONCE_LEN,
            b@.len() == NONCE_LEN,
            r@ =~= a@.subrange(0, NONCE_LEN as int / 2) + b@.subrange(
                NONCE_LEN as int / 2,
                j as int,
            ),
        decreases NONCE_LEN - j,
    {
        r.push(b[j]);
        j = j + 1;
    }
    proof {
        assert(r@ =~= a@.subrange(0, NONCE_LEN as int / 2) + b@.subrange(
            NONCE_LEN as int / 2,
            NONCE_LEN as int,
        ));
    }
    r
}

} // verus!
