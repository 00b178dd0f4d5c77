//! A small, fast, dependency-free FxHash-style hasher for byte-slice keys.
//! SipHash (std default) dominates the BPE hot path; this is ~an order of
//! magnitude cheaper per key.
use vstd::bytes::{spec_u32_from_le_bytes, spec_u64_from_le_bytes, u32_from_le_bytes, u64_from_le_bytes};
use vstd::prelude::*;
use vstd::wrapping::u64_specs::wrapping_mul;

verus! {

pub const K: u64 = 0x517c_c1b7_2722_0a95;

/// `h` rotated left by 5 bits.
pub open spec fn rotl5(h: u64) -> u64 {
    (h << 5u64) | (h >> 59u64)
}

/// One mixing step: the state after absorbing the word `i`.
pub open spec fn fx_add(h: u64, i: u64) -> u64 {
    wrapping_mul(rotl5(h) ^ i, K)
}

/// Absorb the bytes one at a time.
pub open spec fn fx_bytes(h: u64, bytes: Seq<u8>) -> u64
    decreases bytes.len(),
{
    if bytes.len() == 0 {
        h
    } else {
        fx_bytes(fx_add(h, bytes[0] as u64), bytes.drop_first())
    }
}

/// Absorb at most one 4-byte little-endian word, then the remaining bytes.
pub open spec fn fx_tail(h: u64, bytes: Seq<u8>) -> u64 {
    if bytes.len() >= 4 {
        fx_bytes(fx_add(h, spec_u32_from_le_bytes(bytes.take(4)) as u64), bytes.skip(4))
    } else {
        fx_bytes(h, bytes)
    }
}

/// Absorb `bytes`: 8-byte little-endian words while they last, then the tail.
pub open spec fn fx_write(h: u64, bytes: Seq<u8>) -> u64
    decreases bytes.len(),
{
    if bytes.len() >= 8 {
        fx_write(fx_add(h, spec_u64_from_le_bytes(bytes.take(8))), bytes.skip(8))
    } else {
        fx_tail(h, bytes)
    }
}

/// Hash of a byte string as a length-prefixed key: its length, then its bytes.
pub open spec fn fx_hash_key(bytes: Seq<u8>) -> u64 {
    fx_write(fx_add(0, bytes.len() as u64), bytes)
}

#[derive(Default)]
pub struct FxHasher {
    pub hash: u64,
}

impl FxHasher {
    pub fn new() -> (r: Self)
        ensures
            r.hash == 0,
    {
        FxHasher { hash: 0 }
    }

    #[inline]
    fn add(&mut self, i: u64)
        ensures
            final(self).hash == fx_add(old(self).hash, i),
    {
        let h = self.hash;
        let rot = (h << 5u64) | (h >> 59u64);
        self.hash = (rot ^ i).wrapping_mul(K);
    }

    /// Absorb a byte string.
    #[inline]
    pub fn write(&mut self, bytes: &[u8])
        ensures
            final(self).hash == fx_write(old(self).hash, bytes@),
    {
        let mut rest = bytes;
        while rest.len() >= 8
            invariant
                fx_write(self.hash, rest@) == fx_write(old(self).hash, bytes@),
            decreases rest@.len(),
        {
            proof {
                assert(rest@.subrange(0, 8) =~= rest@.take(8));
                assert(rest@.subrange(8, rest@.len() as int) =~= rest@.skip(8));
            }
            let v = u64_from_le_bytes(&rest[0..8]);
            self.add(v);
            rest = &rest[8..rest.len()];
        }
        let ghost tail = rest@;
        let ghost h0 = self.hash;
        if rest.len() >= 4 {
            proof {
                assert(tail.subrange(0, 4) =~= tail.take(4));
                assert(tail.subrange(4, tail.len() as int) =~= tail.skip(4));
            }
            let v = u32_from_le_bytes(&rest[0..4]) as u64;
            self.add(v);
            rest = &rest[4..rest.len()];
        }
        proof {
            assert(rest@.skip(0) =~= rest@);
            assert(fx_write(h0, tail) == fx_tail(h0, tail));
        }
        let mut i: usize = 0;
        while i < rest.len()
            invariant
                0 <= i <= rest@.len(),
                fx_bytes(self.hash, rest@.skip(i as int)) == fx_write(old(self).hash, bytes@),
            decreases rest@.len() - i,
        {
            proof {
                assert(rest@.skip(i as int).drop_first() =~= rest@.skip(i + 1));
            }
            self.add(rest[i] as u64);
            i += 1;
        }
    }

    #[inline]
    pub fn write_u8(&mut self, i: u8)
        ensures
            final(self).hash == fx_add(old(self).hash, i as u64),
    {
        self.add(i as u64);
    }

    #[inline]
    pub fn write_usize(&mut self, i: usize)
        ensures
            final(self).hash == fx_add(old(self).hash, i as u64),
    {
        self.add(i as u64);
    }

    #[inline]
    pub fn finish(&self) -> (r: u64)
        ensures
            r == self.hash,
    {
        self.hash
    }
}

/// Hash a byte-string key the way a `Hash` impl for byte strings feeds it to
/// the hasher: the length, then the bytes.
pub fn hash_key(bytes: &[u8]) -> (r: u64)
    ensures
        r == fx_hash_key(bytes@),
{
    let mut h = FxHasher::new();
    h.write_usize(bytes.len());
    h.write(bytes);
    h.finish()
}

} // verus!
