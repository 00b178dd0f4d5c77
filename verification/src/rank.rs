//! Token rank (= id) storage and lookup, tuned for the BPE hot path.
//!
//! Lookups dispatch by key length:
//!   len 1   -> `byte_id[256]`     (direct array)
//!   len 2   -> `byte2[65536]`     (direct array)
//!   len 3..=7 -> `short`          (open-addressed table, inline u64 keys)
//!   len >=8 -> `long`             (open-addressed table keyed by FxHash)
//!
//! Short keys (the vast majority of tokens and merge spans) live in a compact
//! table with keys stored *inline* as u64 — no heap-pointer chase on key
//! compare, so it stays L2-resident. All structures are immutable after build.
use crate::hash::{fx_hash_key, hash_key};
use crate::probe::{
    dist, has_vacancy, homes_ok, lemma_empty_table, lemma_fill, lemma_found_iff_stored,
    lemma_occupied_finite, lemma_probe_bound, lemma_probe_range, lemma_probe_stop, lemma_vacancy,
    no_gaps, occupied, probe, slot_of,
};
use vstd::arithmetic::power2::{lemma2_to64, lemma_pow2_strictly_increases, lemma_pow2_unfold, pow2};
use vstd::bits::{lemma_usize_low_bits_mask_is_mod, low_bits_mask};
use vstd::prelude::*;
use vstd::wrapping::u64_specs::wrapping_mul;

verus! {

/// A BPE rank, identical to a token id for mergeable tokens.
pub type Rank = u32;

/// Sentinel meaning "no rank" (pair not in vocab). Never a real id.
pub const RANK_MAX: Rank = 0xFFFF_FFFF;

/// A looked-up rank, with `RANK_MAX` standing for "absent".
pub open spec fn rank_or_max(r: Option<Rank>) -> Rank {
    match r {
        Some(x) => x,
        None => RANK_MAX,
    }
}

/// Lookup of a byte sequence to its rank, plus the dense fast paths.
pub trait RankLookup {
    /// The rank of the token whose bytes are `key`, if it is one.
    spec fn rank_of(&self, key: Seq<u8>) -> Option<Rank>;

    fn get(&self, key: &[u8]) -> (r: Option<Rank>)
        ensures
            r == self.rank_of(key@),
    ;

    /// Rank of the 2-byte token `[a, b]`, or `RANK_MAX` (initial pair scan).
    fn get_pair(&self, a: u8, b: u8) -> (r: Rank)
        ensures
            r == rank_or_max(self.rank_of(seq![a, b])),
    {
        let key = [a, b];
        assert(key@ == seq![a, b]);
        match self.get(key.as_slice()) {
            Some(x) => x,
            None => RANK_MAX,
        }
    }
}


// ---------------------------------------------------------------------------
// Byte strings as values
// ---------------------------------------------------------------------------

/// Copy a byte slice into a new vector.
pub fn copy_bytes(b: &[u8]) -> (r: Vec<u8>)
    ensures
        r@ == b@,
{
    let mut r: Vec<u8> = Vec::with_capacity(b.len());
    let mut i: usize = 0;
    while i < b.len()
        invariant
            i <= b@.len(),
            r@ == b@.subrange(0, i as int),
        decreases b@.len() - i,
    {
        r.push(b[i]);
        i += 1;
        proof {
            assert(r@ =~= b@.subrange(0, i as int));
        }
    }
    proof {
        assert(b@.subrange(0, b@.len() as int) =~= b@);
    }
    r
}

/// Byte-string equality.
pub fn bytes_eq(a: &[u8], b: &[u8]) -> (r: bool)
    ensures
        r == (a@ == b@),
{
    if a.len() != b.len() {
        return false;
    }
    let mut i: usize = 0;
    while i < a.len()
        invariant
            a@.len() == b@.len(),
            i <= a@.len(),
            forall|j: int| 0 <= j < i ==> a@[j] == b@[j],
        decreases a@.len() - i,
    {
        if a[i] != b[i] {
            return false;
        }
        i += 1;
    }
    proof {
        assert(a@ =~= b@);
    }
    true
}

// ---------------------------------------------------------------------------
// Packed short keys
// ---------------------------------------------------------------------------

/// Little-endian value of a byte string.
pub open spec fn le_value(b: Seq<u8>) -> nat
    decreases b.len(),
{
    if b.len() == 0 {
        0
    } else {
        b[0] as nat + 256 * le_value(b.drop_first())
    }
}

pub open spec fn pow256(n: nat) -> nat
    decreases n,
{
    if n == 0 {
        1
    } else {
        256 * pow256((n - 1) as nat)
    }
}

/// A byte slice of length 1..=7 packed into a u64: bytes in the low 56 bits
/// (little-endian), length in the top byte. Distinct for distinct
/// (bytes, len); never zero.
pub open spec fn pack_spec(b: Seq<u8>) -> u64 {
    (b.len() * 0x100000000000000 + le_value(b)) as u64
}

proof fn lemma_le_value_bound(b: Seq<u8>)
    ensures
        le_value(b) < pow256(b.len()),
    decreases b.len(),
{
    if b.len() > 0 {
        lemma_le_value_bound(b.drop_first());
    }
}

proof fn lemma_le_value_injective(a: Seq<u8>, b: Seq<u8>)
    requires
        a.len() == b.len(),
        le_value(a) == le_value(b),
    ensures
        a == b,
    decreases a.len(),
{
    if a.len() > 0 {
        let xa = le_value(a.drop_first());
        let xb = le_value(b.drop_first());
        assert(a[0] as nat + 256 * xa == b[0] as nat + 256 * xb);
        assert(a[0] == b[0] && xa == xb) by (nonlinear_arith)
            requires
                a[0] as nat + 256 * xa == b[0] as nat + 256 * xb,
                a[0] < 256,
                b[0] < 256,
        ;
        lemma_le_value_injective(a.drop_first(), b.drop_first());
        assert(a =~= seq![a[0]] + a.drop_first());
        assert(b =~= seq![b[0]] + b.drop_first());
    }
}

/// Packing is injective on byte strings of length 1..=7, and never zero.
pub proof fn lemma_pack(a: Seq<u8>, b: Seq<u8>)
    requires
        1 <= a.len() <= 7,
        1 <= b.len() <= 7,
    ensures
        pack_spec(a) != 0,
        pack_spec(a) == pack_spec(b) ==> a == b,
{
    lemma_le_value_bound(a);
    lemma_le_value_bound(b);
    assert(pow256(7) == 0x100000000000000) by {
        reveal_with_fuel(pow256, 8);
    }
    lemma_pow256_mono(a.len(), 7);
    lemma_pow256_mono(b.len(), 7);
    let la = a.len() * 0x100000000000000 + le_value(a);
    let lb = b.len() * 0x100000000000000 + le_value(b);
    assert(la < 0x10000000000000000);
    assert(lb < 0x10000000000000000);
    if pack_spec(a) == pack_spec(b) {
        assert(la == lb);
        assert(a.len() == b.len() && le_value(a) == le_value(b)) by (nonlinear_arith)
            requires
                a.len() * 0x100000000000000 + le_value(a) == b.len() * 0x100000000000000
                    + le_value(b),
                le_value(a) < 0x100000000000000,
                le_value(b) < 0x100000000000000,
        ;
        lemma_le_value_injective(a, b);
    }
}

proof fn lemma_pow256_mono(m: nat, n: nat)
    requires
        m <= n,
    ensures
        pow256(m) <= pow256(n),
    decreases n,
{
    if m < n {
        lemma_pow256_mono(m, (n - 1) as nat);
    }
}

/// Pack a byte slice of length 1..=7 into a u64 (bytes in low 56 bits, length in
/// the top byte). Distinct for distinct (bytes, len); never zero (len >= 1).
#[inline]
fn pack(b: &[u8]) -> (r: u64)
    requires
        1 <= b@.len() <= 7,
    ensures
        r == pack_spec(b@),
{
    proof {
        lemma_le_value_bound(b@);
        assert(pow256(7) == 0x100000000000000) by {
            reveal_with_fuel(pow256, 8);
        }
        lemma_pow256_mono(b@.len(), 7);
    }
    let mut v: u64 = 0;
    let mut i = b.len();
    while i > 0
        invariant
            i <= b@.len() <= 7,
            v == le_value(b@.skip(i as int)),
            le_value(b@.skip(i as int)) < pow256((b@.len() - i) as nat),
            pow256(7) == 0x100000000000000,
        decreases i,
    {
        i -= 1;
        proof {
            assert(b@.skip(i as int).drop_first() =~= b@.skip(i + 1));
            lemma_le_value_bound(b@.skip(i as int));
            lemma_pow256_mono((b@.len() - i) as nat, 7);
        }
        v = v * 256 + b[i] as u64;
    }
    proof {
        assert(b@.skip(0) =~= b@);
    }
    let len = b.len() as u64;
    v + len * 0x100000000000000
}

/// The byte string a packed key stands for.
pub open spec fn unpack_spec(key: u64) -> Seq<u8> {
    Seq::new((key >> 56u64) as nat, |i: int| unpack_byte(key, i))
}

/// Byte `i` of a little-endian value is the `i`-th byte of the string.
proof fn lemma_le_value_bytes(b: Seq<u8>, i: int)
    requires
        b.len() <= 7,
        0 <= i < b.len(),
    ensures
        le_value(b) < 0x100000000000000,
        ((le_value(b) as u64) >> (8 * i) as u64) as u8 == b[i],
    decreases i,
{
    lemma_le_value_bound(b);
    assert(pow256(7) == 0x100000000000000) by {
        reveal_with_fuel(pow256, 8);
    }
    lemma_pow256_mono(b.len(), 7);
    let rest = b.drop_first();
    lemma_le_value_bound(rest);
    lemma_pow256_mono(rest.len(), 7);
    let v = le_value(b) as u64;
    let w = le_value(rest) as u64;
    let b0 = b[0];
    assert(v == b0 as u64 + 256 * w);
    if i == 0 {
        assert(((v >> 0u64) as u8) == b0) by (bit_vector)
            requires
                v == b0 as u64 + 256 * w,
                w < 0x100000000000000,
        ;
    } else {
        lemma_le_value_bytes(rest, i - 1);
        assert(rest[i - 1] == b[i]);
        let sh = (8 * (i - 1)) as u64;
        assert(((w >> sh) as u8) == rest[i - 1]);
        assert((v >> (sh + 8)) == (w >> sh)) by (bit_vector)
            requires
                v == b0 as u64 + 256 * w,
                w < 0x100000000000000,
                sh < 56,
        ;
        assert((8 * i) as u64 == sh + 8);
    }
}

/// Unpacking a packed key gives the byte string back.
pub proof fn lemma_unpack_pack(k: Seq<u8>)
    requires
        1 <= k.len() <= 7,
    ensures
        unpack_spec(pack_spec(k)) == k,
{
    lemma_le_value_bound(k);
    assert(pow256(7) == 0x100000000000000) by {
        reveal_with_fuel(pow256, 8);
    }
    lemma_pow256_mono(k.len(), 7);
    let l = k.len() as u64;
    let v = le_value(k) as u64;
    let x = pack_spec(k);
    assert(x == l * 0x100000000000000 + v);
    assert((x >> 56u64) == l) by (bit_vector)
        requires
            x == l * 0x100000000000000 + v,
            v < 0x100000000000000,
            l <= 7,
    ;
    assert forall|i: int| 0 <= i < k.len() implies #[trigger] unpack_byte(x, i) == k[i] by {
        lemma_le_value_bytes(k, i);
        let sh = (8 * i) as u64;
        assert(((x >> sh) as u8) == ((v >> sh) as u8)) by (bit_vector)
            requires
                x == l * 0x100000000000000 + v,
                v < 0x100000000000000,
                l <= 7,
                sh <= 48,
        ;
    }
    assert(unpack_spec(x) =~= k);
}

/// Byte `i` of a packed key (little-endian; zero past the eighth byte).
pub open spec fn unpack_byte(key: u64, i: int) -> u8 {
    if 0 <= i < 8 {
        (key >> (8 * i) as u64) as u8
    } else {
        0
    }
}

/// The byte string a packed key stands for.
fn unpack(key: u64) -> (r: Vec<u8>)
    ensures
        r@ == unpack_spec(key),
{
    assert((key >> 56u64) <= 255) by (bit_vector);
    let len = (key >> 56u64) as usize;
    let mut v: Vec<u8> = Vec::new();
    let mut i: usize = 0;
    while i < len
        invariant
            i <= len,
            len == (key >> 56u64) as nat,
            v@ =~= Seq::new(i as nat, |j: int| unpack_byte(key, j)),
        decreases len - i,
    {
        let b: u8 = if i < 8 {
            (key >> ((i as u64) * 8)) as u8
        } else {
            0
        };
        v.push(b);
        i += 1;
    }
    v
}

#[inline]
fn mix64(key: u64) -> (r: u64)
    ensures
        r == wrapping_mul(key, 0x9E37_79B9_7F4A_7C15),
{
    // Fibonacci hashing; high bits are well-mixed.
    key.wrapping_mul(0x9E37_79B9_7F4A_7C15)
}

/// The first rank recorded for `key`.
pub open spec fn first_u64(entries: Seq<(u64, Rank)>, key: u64) -> Option<Rank>
    decreases entries.len(),
{
    if entries.len() == 0 {
        None
    } else if first_u64(entries.drop_last(), key) is Some {
        first_u64(entries.drop_last(), key)
    } else if entries.last().0 == key {
        Some(entries.last().1)
    } else {
        None
    }
}

/// The last rank recorded for `key`.
pub open spec fn last_bytes(entries: Seq<(Seq<u8>, Rank)>, key: Seq<u8>) -> Option<Rank>
    decreases entries.len(),
{
    if entries.len() == 0 {
        None
    } else if entries.last().0 == key {
        Some(entries.last().1)
    } else {
        last_bytes(entries.drop_last(), key)
    }
}

/// The most entries an open-addressed table holds: its slots (at least 10/7
/// as many, a power of two) must fit in the address space.
pub const MAX_ENTRIES: usize = usize::MAX / 16;

/// Table size for `n` entries: a power of two, at least 8, at least 10/7 of `n`.
fn table_bits(n: usize) -> (r: (usize, u32))
    requires
        n <= MAX_ENTRIES,
    ensures
        r.0 == pow2(r.1 as nat),
        3 <= r.1 < usize::BITS,
        r.0 > n,
        r.0 >= 8,
{
    let want = if n * 10 / 7 > 1 {
        n * 10 / 7
    } else {
        1
    };
    let mut cap: usize = 8;
    let mut bits: u32 = 3;
    proof {
        lemma2_to64();
        assert(want <= usize::MAX / 2);
        assert(want >= n);
    }
    while cap < want
        invariant
            cap == pow2(bits as nat),
            3 <= bits <= 64,
            8 <= cap,
            cap < 2 * want || cap == 8,
            want <= usize::MAX / 2,
            want >= n,
            n * 10 / 7 > 1 ==> want == n * 10 / 7,
        decreases usize::MAX - cap,
    {
        proof {
            lemma_pow2_unfold((bits + 1) as nat);
            if bits >= 64 {
                lemma2_to64();
                if bits > 64 {
                    lemma_pow2_strictly_increases(64, bits as nat);
                }
            }
        }
        cap = cap * 2;
        bits = bits + 1;
    }
    proof {
        lemma2_to64();
        if bits >= usize::BITS {
            if bits > usize::BITS {
                lemma_pow2_strictly_increases(usize::BITS as nat, bits as nat);
            }
            assert(pow2(usize::BITS as nat) > usize::MAX);
        }
    }
    (cap, bits)
}

/// Stepping to the next slot with the mask of a table of `2^bits` slots wraps
/// from the last slot to the first.
proof fn lemma_next_slot(slot: usize, mask: usize, bits: nat)
    requires
        bits < usize::BITS,
        mask == low_bits_mask(bits),
        slot < pow2(bits),
    ensures
        ((slot + 1) as usize) & mask == if slot + 1 < pow2(bits) {
            slot + 1
        } else {
            0
        },
{
    lemma2_to64();
    if bits + 1 < usize::BITS {
        lemma_pow2_strictly_increases(bits + 1, usize::BITS as nat);
    }
    lemma_pow2_unfold(bits + 1);
    assert(pow2(bits) <= usize::MAX);
    lemma_usize_low_bits_mask_is_mod((slot + 1) as usize, bits);
    let p = pow2(bits) as int;
    let x = (slot + 1) as int;
    if x < p {
        vstd::arithmetic::div_mod::lemma_small_mod(x as nat, p as nat);
    } else {
        vstd::arithmetic::div_mod::lemma_mod_self_0(p);
    }
}

// ---------------------------------------------------------------------------
// Short table
// ---------------------------------------------------------------------------

/// Open-addressed (linear probe) table with inline u64 keys; key 0 = empty.
pub struct ShortTable {
    keys: Vec<u64>,
    vals: Vec<Rank>,
    mask: usize,
    shift: u32,
    bits: Ghost<nat>,
}

impl ShortTable {
    pub closed spec fn slots(&self) -> Seq<Option<u64>> {
        Seq::new(
            self.keys@.len(),
            |s: int|
                if self.keys@[s] == 0 {
                    None
                } else {
                    Some(self.keys@[s])
                },
        )
    }

    pub closed spec fn home_fn(&self) -> spec_fn(u64) -> int {
        |k: u64| ((wrapping_mul(k, 0x9E37_79B9_7F4A_7C15) >> self.shift) as usize & self.mask) as int
    }

    pub closed spec fn wf(&self) -> bool {
        &&& self.keys@.len() == self.vals@.len()
        &&& self.keys@.len() > 0 ==> {
            &&& self.keys@.len() == pow2(self.bits@)
            &&& self.mask == low_bits_mask(self.bits@)
            &&& self.bits@ < usize::BITS
            &&& self.shift < 64
            &&& homes_ok(self.home_fn(), self.keys@.len() as int)
            &&& no_gaps(self.slots(), self.home_fn())
            &&& has_vacancy(self.slots())
        }
    }

    /// The rank found for `key`.
    pub closed spec fn lookup(&self, key: u64) -> Option<Rank> {
        if key == 0 {
            None
        } else {
            match slot_of(self.slots(), self.home_fn(), key) {
                Some(s) => Some(self.vals@[s]),
                None => None,
            }
        }
    }

    /// Some occupied slot holds `key` with value `id`.
    pub closed spec fn holds(&self, key: u64, id: Rank) -> bool {
        exists|s: int| 0 <= s < self.keys@.len() && self.keys@[s] == key && key != 0 && self.vals@[s] == id
    }

    pub fn empty() -> (r: Self)
        ensures
            r.wf(),
            forall|k: u64| r.lookup(k) is None,
    {
        let r = ShortTable { keys: Vec::new(), vals: Vec::new(), mask: 0, shift: 0, bits: Ghost(0) };
        proof {
            assert forall|k: u64| r.lookup(k) is None by {
                if k != 0 {
                    if exists|d: int| crate::probe::found_at(r.slots(), r.home_fn(), k, d) {
                    }
                }
            }
        }
        r
    }

    #[inline]
    fn home(&self, key: u64) -> (r: usize)
        requires
            self.wf(),
            self.keys@.len() > 0,
        ensures
            r == (self.home_fn())(key),
            r < self.keys@.len(),
    {
        let r = (mix64(key) >> self.shift) as usize & self.mask;
        proof {
            assert(homes_ok(self.home_fn(), self.keys@.len() as int));
            assert(0 <= (self.home_fn())(key) < self.keys@.len());
        }
        r
    }

    pub fn build(entries: &[(u64, Rank)]) -> (t: Self)
        requires
            entries@.len() <= MAX_ENTRIES,
            forall|i: int| 0 <= i < entries@.len() ==> (#[trigger] entries@[i]).0 != 0,
        ensures
            t.wf(),
            forall|k: u64| #[trigger] t.lookup(k) == first_u64(entries@, k),
            forall|k: u64, id: Rank| #[trigger] t.holds(k, id) ==> entries@.contains((k, id)),
    {
        let (cap, bits) = table_bits(entries.len());
        let shift = 64 - bits;
        let mut t = ShortTable {
            keys: vec![0u64; cap],
            vals: vec![RANK_MAX; cap],
            mask: cap - 1,
            shift,
            bits: Ghost(bits as nat),
        };
        proof {
            assert(homes_ok(t.home_fn(), cap as int)) by {
                assert forall|k: u64| 0 <= #[trigger] (t.home_fn())(k) < cap as int by {
                    let x = (wrapping_mul(k, 0x9E37_79B9_7F4A_7C15) >> t.shift) as usize;
                    let m = t.mask;
                    assert(x & m <= m) by (bit_vector);
                }
            }
            lemma_empty_table(t.slots(), t.home_fn());
            lemma_occupied_finite(t.slots());
            assert(first_u64(entries@.subrange(0, 0), 0) is None);
        }
        let mut j: usize = 0;
        while j < entries.len()
            invariant
                j <= entries@.len() <= MAX_ENTRIES,
                forall|i: int| 0 <= i < entries@.len() ==> (#[trigger] entries@[i]).0 != 0,
                t.keys@.len() == cap,
                t.vals@.len() == cap,
                cap > entries@.len(),
                cap == pow2(t.bits@),
                t.mask == cap - 1,
                t.bits@ == bits,
                t.shift == shift,
                shift < 64,
                bits < usize::BITS,
                homes_ok(t.home_fn(), cap as int),
                no_gaps(t.slots(), t.home_fn()),
                occupied(t.slots()).finite(),
                occupied(t.slots()).len() == j,
                forall|k: u64| #[trigger] t.lookup(k) == first_u64(entries@.subrange(0, j as int), k),
                forall|s: int|
                    0 <= s < cap && #[trigger] t.keys@[s] != 0 ==> entries@.contains(
                        (t.keys@[s], t.vals@[s]),
                    ),
            decreases entries@.len() - j,
        {
            let (key, val) = entries[j];
            proof {
                lemma_occupied_finite(t.slots());
                lemma_vacancy(t.slots());
            }
            let mut slot = t.home(key);
            let ghost h = (t.home_fn())(key);
            let ghost mut d: int = 0;
            while t.keys[slot] != 0
                invariant
                    t.keys@.len() == cap,
                    cap == pow2(t.bits@),
                    t.mask == cap - 1,
                    t.bits@ == bits,
                    bits < usize::BITS,
                    homes_ok(t.home_fn(), cap as int),
                    has_vacancy(t.slots()),
                    h == (t.home_fn())(key),
                    0 <= d < cap,
                    slot == probe(h, d, cap as int),
                    forall|d2: int| 0 <= d2 < d ==> (#[trigger] t.slots()[probe(h, d2, cap as int)]) is Some,
                decreases cap - d,
            {
                proof {
                    lemma_probe_range(h, d, cap as int);
                    assert(t.slots()[probe(h, d, cap as int)] is Some);
                    lemma_probe_bound(t.slots(), t.home_fn(), key, d + 1);
                    lemma_next_slot(slot, t.mask, bits as nat);
                }
                slot = (slot + 1) & t.mask;
                proof {
                    d = d + 1;
                }
            }
            proof {
                lemma_probe_range(h, d, cap as int);
                lemma_fill(t.slots(), t.home_fn(), key, d);
                assert(!occupied(t.slots()).contains(slot as int));
            }
            let ghost old_t = t;
            t.keys.set(slot, key);
            t.vals.set(slot, val);
            proof {
                let e = slot as int;
                assert(entries@[j as int] == (key, val));
                assert(entries@.contains((key, val)));
                assert forall|s: int|
                    0 <= s < cap && #[trigger] t.keys@[s] != 0 implies entries@.contains(
                        (t.keys@[s], t.vals@[s]),
                    ) by {
                    if s != e {
                        assert(old_t.keys@[s] == t.keys@[s] && old_t.vals@[s] == t.vals@[s]);
                    }
                }
                assert(t.slots() =~= old_t.slots().update(e, Some(key)));
                assert(t.home_fn() == old_t.home_fn());
                let pre = entries@.subrange(0, j as int);
                let post = entries@.subrange(0, j + 1);
                assert(post.drop_last() =~= pre);
                assert forall|k: u64| #[trigger] t.lookup(k) == first_u64(post, k) by {
                    if k != 0 {
                        if k != key {
                            if let Some(s) = slot_of(old_t.slots(), old_t.home_fn(), k) {
                                lemma_found_iff_stored(old_t.slots(), old_t.home_fn(), k);
                                lemma_slot_of_in_range(old_t.slots(), old_t.home_fn(), k);
                                assert(s != e);
                            }
                            assert(old_t.lookup(k) == t.lookup(k));
                        } else {
                            if let Some(s) = slot_of(old_t.slots(), old_t.home_fn(), k) {
                                lemma_slot_of_in_range(old_t.slots(), old_t.home_fn(), k);
                                assert(s != e);
                            }
                        }
                    }
                }
            }
            j += 1;
        }
        proof {
            assert(entries@.subrange(0, entries@.len() as int) =~= entries@);
            lemma_vacancy(t.slots());
            assert forall|k: u64, id: Rank| #[trigger] t.holds(k, id) implies entries@.contains((k, id)) by {
                let s = choose|s: int|
                    0 <= s < t.keys@.len() && t.keys@[s] == k && k != 0 && t.vals@[s] == id;
                assert(t.keys@[s] != 0);
            }
        }
        t
    }

    /// A key that lookup finds is held by a slot.
    proof fn lemma_lookup_holds(&self, key: u64)
        requires
            self.wf(),
        ensures
            self.lookup(key) matches Some(id) ==> self.holds(key, id),
    {
        if key != 0 {
            if let Some(s) = slot_of(self.slots(), self.home_fn(), key) {
                let c = choose|d: int| crate::probe::found_at(self.slots(), self.home_fn(), key, d);
                assert(self.keys@.len() > 0);
                lemma_slot_of_in_range(self.slots(), self.home_fn(), key);
                assert(self.keys@[s] == key);
            }
        }
    }

    /// Find the packed key whose value equals `id` (O(n); tests only).
    fn key_for(&self, id: Rank) -> (r: Option<u64>)
        requires
            self.wf(),
        ensures
            r matches Some(k) ==> self.holds(k, id),
            r is None ==> forall|k: u64| !self.holds(k, id),
    {
        let n = if self.keys.len() < self.vals.len() {
            self.keys.len()
        } else {
            self.vals.len()
        };
        let mut s: usize = 0;
        while s < n
            invariant
                s <= n,
                n <= self.keys@.len(),
                n <= self.vals@.len(),
                forall|x: int| 0 <= x < s ==> !(self.keys@[x] != 0 && self.vals@[x] == id),
            decreases n - s,
        {
            if self.keys[s] != 0 && self.vals[s] == id {
                return Some(self.keys[s]);
            }
            s += 1;
        }
        None
    }

    #[inline]
    fn get(&self, key: u64) -> (r: Option<Rank>)
        requires
            self.wf(),
            key != 0,
        ensures
            r == self.lookup(key),
    {
        if self.keys.len() == 0 {
            proof {
                if let Some(s) = slot_of(self.slots(), self.home_fn(), key) {
                    let c = choose|d: int| crate::probe::found_at(self.slots(), self.home_fn(), key, d);
                }
            }
            return None;
        }
        let cap = self.keys.len();
        let mut slot = self.home(key);
        let ghost h = (self.home_fn())(key);
        let ghost mut d: int = 0;
        loop
            invariant
                self.wf(),
                self.keys@.len() == cap,
                cap > 0,
                key != 0,
                h == (self.home_fn())(key),
                0 <= d < cap,
                slot == probe(h, d, cap as int),
                forall|d2: int|
                    0 <= d2 < d ==> (#[trigger] self.slots()[probe(h, d2, cap as int)]) is Some
                        && self.slots()[probe(h, d2, cap as int)] != Some(key),
            decreases cap - d,
        {
            proof {
                lemma_probe_range(h, d, cap as int);
            }
            let k = self.keys[slot];
            if k == key {
                proof {
                    lemma_probe_stop(self.slots(), self.home_fn(), key, d);
                }
                return Some(self.vals[slot]);
            }
            if k == 0 {
                proof {
                    lemma_probe_stop(self.slots(), self.home_fn(), key, d);
                }
                return None;
            }
            proof {
                lemma_probe_bound(self.slots(), self.home_fn(), key, d + 1);
                lemma_next_slot(slot, self.mask, self.bits@);
            }
            slot = (slot + 1) & self.mask;
            proof {
                d = d + 1;
            }
        }
    }
}

proof fn lemma_slot_of_in_range<K>(slots: Seq<Option<K>>, home: spec_fn(K) -> int, k: K)
    requires
        homes_ok(home, slots.len() as int),
    ensures
        slot_of(slots, home, k) matches Some(s) ==> 0 <= s < slots.len() && slots[s] == Some(k),
{
    if let Some(s) = slot_of(slots, home, k) {
        let c = choose|d: int| crate::probe::found_at(slots, home, k, d);
        assert(0 <= home(k) < slots.len());
        lemma_probe_range(home(k), c, slots.len() as int);
    }
}


// ---------------------------------------------------------------------------
// Long table
// ---------------------------------------------------------------------------

/// The (bytes, rank) pairs of a list, by value.
pub open spec fn pairs_view(pairs: Seq<(Vec<u8>, Rank)>) -> Seq<(Seq<u8>, Rank)> {
    pairs.map_values(|e: (Vec<u8>, Rank)| (e.0@, e.1))
}

/// Open-addressed (linear probe) table for keys of any nonzero length, homed by
/// FxHash of the key; an empty key marks a vacant slot. A later insert of an
/// equal key replaces the earlier rank.
pub struct LongTable {
    keys: Vec<Vec<u8>>,
    vals: Vec<Rank>,
    mask: usize,
    bits: Ghost<nat>,
}

impl LongTable {
    pub closed spec fn slots(&self) -> Seq<Option<Seq<u8>>> {
        Seq::new(
            self.keys@.len(),
            |s: int|
                if self.keys@[s]@.len() == 0 {
                    None
                } else {
                    Some(self.keys@[s]@)
                },
        )
    }

    pub closed spec fn home_fn(&self) -> spec_fn(Seq<u8>) -> int {
        |k: Seq<u8>| ((fx_hash_key(k) as usize) & self.mask) as int
    }

    pub closed spec fn wf(&self) -> bool {
        &&& self.keys@.len() == self.vals@.len()
        &&& self.keys@.len() > 0 ==> {
            &&& self.keys@.len() == pow2(self.bits@)
            &&& self.mask == low_bits_mask(self.bits@)
            &&& self.bits@ < usize::BITS
            &&& homes_ok(self.home_fn(), self.keys@.len() as int)
            &&& no_gaps(self.slots(), self.home_fn())
            &&& has_vacancy(self.slots())
        }
    }

    /// The rank found for `key`.
    pub closed spec fn lookup(&self, key: Seq<u8>) -> Option<Rank> {
        if key.len() == 0 {
            None
        } else {
            match slot_of(self.slots(), self.home_fn(), key) {
                Some(s) => Some(self.vals@[s]),
                None => None,
            }
        }
    }

    /// Some occupied slot holds `key` with value `id`.
    pub closed spec fn holds(&self, key: Seq<u8>, id: Rank) -> bool {
        exists|s: int|
            0 <= s < self.keys@.len() && self.keys@[s]@ == key && key.len() > 0 && self.vals@[s]
                == id
    }

    #[inline]
    fn home(&self, key: &[u8]) -> (r: usize)
        requires
            self.wf(),
            self.keys@.len() > 0,
        ensures
            r == (self.home_fn())(key@),
            r < self.keys@.len(),
    {
        let r = (hash_key(key) as usize) & self.mask;
        proof {
            assert(homes_ok(self.home_fn(), self.keys@.len() as int));
            assert(0 <= (self.home_fn())(key@) < self.keys@.len());
        }
        r
    }

    pub fn build(entries: &[(Vec<u8>, Rank)]) -> (t: Self)
        requires
            entries@.len() <= MAX_ENTRIES,
            forall|i: int| 0 <= i < entries@.len() ==> (#[trigger] entries@[i]).0@.len() > 0,
        ensures
            t.wf(),
            forall|k: Seq<u8>| #[trigger] t.lookup(k) == last_bytes(pairs_view(entries@), k),
            forall|k: Seq<u8>, id: Rank| #[trigger] t.holds(k, id) ==> pairs_view(entries@).contains(
                (k, id),
            ),
    {
        let (cap, bits) = table_bits(entries.len());
        let mut keys: Vec<Vec<u8>> = Vec::new();
        let mut vals: Vec<Rank> = Vec::new();
        let mut c: usize = 0;
        while c < cap
            invariant
                c <= cap,
                keys@.len() == c,
                vals@.len() == c,
                forall|s: int| 0 <= s < c ==> (#[trigger] keys@[s])@.len() == 0,
            decreases cap - c,
        {
            keys.push(Vec::new());
            vals.push(RANK_MAX);
            c += 1;
        }
        let mut t = LongTable { keys, vals, mask: cap - 1, bits: Ghost(bits as nat) };
        proof {
            assert(homes_ok(t.home_fn(), cap as int)) by {
                assert forall|k: Seq<u8>| 0 <= #[trigger] (t.home_fn())(k) < cap as int by {
                    let x = fx_hash_key(k) as usize;
                    let m = t.mask;
                    assert(x & m <= m) by (bit_vector);
                }
            }
            lemma_empty_table(t.slots(), t.home_fn());
            lemma_occupied_finite(t.slots());
            assert(pairs_view(entries@.subrange(0, 0)) =~= Seq::empty());
        }
        let mut j: usize = 0;
        while j < entries.len()
            invariant
                j <= entries@.len() <= MAX_ENTRIES,
                forall|i: int| 0 <= i < entries@.len() ==> (#[trigger] entries@[i]).0@.len() > 0,
                t.keys@.len() == cap,
                t.vals@.len() == cap,
                cap > entries@.len(),
                cap == pow2(t.bits@),
                t.mask == cap - 1,
                t.bits@ == bits,
                bits < usize::BITS,
                homes_ok(t.home_fn(), cap as int),
                no_gaps(t.slots(), t.home_fn()),
                occupied(t.slots()).finite(),
                occupied(t.slots()).len() <= j,
                forall|k: Seq<u8>| #[trigger]
                    t.lookup(k) == last_bytes(pairs_view(entries@.subrange(0, j as int)), k),
                forall|s: int|
                    0 <= s < cap && (#[trigger] t.keys@[s])@.len() != 0 ==> pairs_view(
                        entries@,
                    ).contains((t.keys@[s]@, t.vals@[s])),
            decreases entries@.len() - j,
        {
            let key: &Vec<u8> = &entries[j].0;
            let val = entries[j].1;
            proof {
                lemma_occupied_finite(t.slots());
                lemma_vacancy(t.slots());
            }
            let mut slot = t.home(key.as_slice());
            let ghost h = (t.home_fn())(key@);
            let ghost mut d: int = 0;
            while t.keys[slot].len() != 0 && !bytes_eq(t.keys[slot].as_slice(), key.as_slice())
                invariant
                    t.keys@.len() == cap,
                    cap == pow2(t.bits@),
                    t.mask == cap - 1,
                    t.bits@ == bits,
                    bits < usize::BITS,
                    homes_ok(t.home_fn(), cap as int),
                    has_vacancy(t.slots()),
                    h == (t.home_fn())(key@),
                    0 <= d < cap,
                    slot == probe(h, d, cap as int),
                    forall|d2: int|
                        0 <= d2 < d ==> (#[trigger] t.slots()[probe(h, d2, cap as int)]) is Some
                            && t.slots()[probe(h, d2, cap as int)] != Some(key@),
                decreases cap - d,
            {
                proof {
                    lemma_probe_range(h, d, cap as int);
                    assert(t.slots()[probe(h, d, cap as int)] is Some);
                    lemma_probe_bound(t.slots(), t.home_fn(), key@, d + 1);
                    lemma_next_slot(slot, t.mask, bits as nat);
                }
                slot = (slot + 1) & t.mask;
                proof {
                    d = d + 1;
                }
            }
            proof {
                lemma_probe_range(h, d, cap as int);
                lemma_probe_stop(t.slots(), t.home_fn(), key@, d);
            }
            let ghost old_t = t;
            let ghost pre = entries@.subrange(0, j as int);
            let ghost post = entries@.subrange(0, j + 1);
            proof {
                assert(pairs_view(post).drop_last() =~= pairs_view(pre));
                assert(pairs_view(post).last() == (key@, val));
                assert(pairs_view(entries@)[j as int] == (key@, val));
                assert(pairs_view(entries@).contains((key@, val)));
            }
            if t.keys[slot].len() == 0 {
                proof {
                    lemma_fill(t.slots(), t.home_fn(), key@, d);
                    assert(!occupied(t.slots()).contains(slot as int));
                }
                let copy = copy_bytes(key.as_slice());
                t.keys.set(slot, copy);
                t.vals.set(slot, val);
                proof {
                    let e = slot as int;
                    assert forall|s: int|
                        0 <= s < cap && (#[trigger] t.keys@[s])@.len() != 0 implies pairs_view(
                            entries@,
                        ).contains((t.keys@[s]@, t.vals@[s])) by {
                        if s != e {
                            assert(old_t.keys@[s] == t.keys@[s] && old_t.vals@[s] == t.vals@[s]);
                        }
                    }
                    assert(t.slots() =~= old_t.slots().update(e, Some(key@)));
                    assert(t.home_fn() == old_t.home_fn());
                    assert forall|k: Seq<u8>| #[trigger]
                        t.lookup(k) == last_bytes(pairs_view(post), k) by {
                        if k.len() != 0 && k != key@ {
                            if let Some(s) = slot_of(old_t.slots(), old_t.home_fn(), k) {
                                lemma_slot_of_in_range(old_t.slots(), old_t.home_fn(), k);
                                assert(s != e);
                            }
                            assert(old_t.lookup(k) == t.lookup(k));
                        }
                    }
                }
            } else {
                t.vals.set(slot, val);
                proof {
                    let e = slot as int;
                    assert(old_t.keys@[e]@ == key@);
                    assert forall|s: int|
                        0 <= s < cap && (#[trigger] t.keys@[s])@.len() != 0 implies pairs_view(
                            entries@,
                        ).contains((t.keys@[s]@, t.vals@[s])) by {
                        if s != e {
                            assert(old_t.keys@[s] == t.keys@[s] && old_t.vals@[s] == t.vals@[s]);
                        }
                    }
                    assert(t.slots() =~= old_t.slots());
                    assert(t.home_fn() == old_t.home_fn());
                    assert forall|k: Seq<u8>| #[trigger]
                        t.lookup(k) == last_bytes(pairs_view(post), k) by {
                        if k.len() != 0 && k != key@ {
                            if let Some(s) = slot_of(old_t.slots(), old_t.home_fn(), k) {
                                lemma_slot_of_in_range(old_t.slots(), old_t.home_fn(), k);
                                assert(s != e);
                            }
                            assert(old_t.lookup(k) == t.lookup(k));
                        }
                    }
                }
            }
            j += 1;
        }
        proof {
            assert(entries@.subrange(0, entries@.len() as int) =~= entries@);
            lemma_occupied_finite(t.slots());
            lemma_vacancy(t.slots());
            assert forall|k: Seq<u8>, id: Rank| #[trigger] t.holds(k, id) implies pairs_view(
                entries@,
            ).contains((k, id)) by {
                let s = choose|s: int|
                    0 <= s < t.keys@.len() && t.keys@[s]@ == k && k.len() > 0 && t.vals@[s] == id;
                assert(t.keys@[s]@.len() != 0);
            }
        }
        t
    }

    /// A key that lookup finds is held by a slot.
    proof fn lemma_lookup_holds(&self, key: Seq<u8>)
        requires
            self.wf(),
        ensures
            self.lookup(key) matches Some(id) ==> self.holds(key, id),
    {
        if key.len() > 0 {
            if let Some(s) = slot_of(self.slots(), self.home_fn(), key) {
                let c = choose|d: int| crate::probe::found_at(self.slots(), self.home_fn(), key, d);
                assert(self.keys@.len() > 0);
                lemma_slot_of_in_range(self.slots(), self.home_fn(), key);
                assert(self.keys@[s]@ == key);
            }
        }
    }

    /// Find a stored key whose value equals `id` (O(n); tests only).
    fn key_for(&self, id: Rank) -> (r: Option<Vec<u8>>)
        requires
            self.wf(),
        ensures
            r matches Some(k) ==> self.holds(k@, id),
            r is None ==> forall|k: Seq<u8>| !self.holds(k, id),
    {
        let n = self.keys.len();
        let mut s: usize = 0;
        while s < n
            invariant
                s <= n,
                n == self.keys@.len(),
                n == self.vals@.len(),
                forall|x: int|
                    0 <= x < s ==> !((#[trigger] self.keys@[x])@.len() != 0 && self.vals@[x] == id),
            decreases n - s,
        {
            if self.keys[s].len() != 0 && self.vals[s] == id {
                return Some(copy_bytes(self.keys[s].as_slice()));
            }
            s += 1;
        }
        None
    }

    #[inline]
    pub fn get(&self, key: &[u8]) -> (r: Option<Rank>)
        requires
            self.wf(),
            key@.len() > 0,
        ensures
            r == self.lookup(key@),
    {
        if self.keys.len() == 0 {
            proof {
                if let Some(s) = slot_of(self.slots(), self.home_fn(), key@) {
                    let c = choose|d: int| crate::probe::found_at(self.slots(), self.home_fn(), key@, d);
                }
            }
            return None;
        }
        let cap = self.keys.len();
        let mut slot = self.home(key);
        let ghost h = (self.home_fn())(key@);
        let ghost mut d: int = 0;
        loop
            invariant
                self.wf(),
                self.keys@.len() == cap,
                cap > 0,
                key@.len() > 0,
                h == (self.home_fn())(key@),
                0 <= d < cap,
                slot == probe(h, d, cap as int),
                forall|d2: int|
                    0 <= d2 < d ==> (#[trigger] self.slots()[probe(h, d2, cap as int)]) is Some
                        && self.slots()[probe(h, d2, cap as int)] != Some(key@),
            decreases cap - d,
        {
            proof {
                lemma_probe_range(h, d, cap as int);
            }
            let k = &self.keys[slot];
            if k.len() == 0 {
                proof {
                    lemma_probe_stop(self.slots(), self.home_fn(), key@, d);
                }
                return None;
            }
            if bytes_eq(k.as_slice(), key) {
                proof {
                    lemma_probe_stop(self.slots(), self.home_fn(), key@, d);
                }
                return Some(self.vals[slot]);
            }
            proof {
                lemma_probe_bound(self.slots(), self.home_fn(), key@, d + 1);
                lemma_next_slot(slot, self.mask, self.bits@);
            }
            slot = (slot + 1) & self.mask;
            proof {
                d = d + 1;
            }
        }
    }
}


// ---------------------------------------------------------------------------
// The rank map
// ---------------------------------------------------------------------------

/// `r` as a lookup result, with `RANK_MAX` standing for "absent".
pub open spec fn present(r: Rank) -> Option<Rank> {
    if r == RANK_MAX {
        None
    } else {
        Some(r)
    }
}

/// The first rank recorded for `key`.
pub open spec fn first_bytes(entries: Seq<(Seq<u8>, Rank)>, key: Seq<u8>) -> Option<Rank>
    decreases entries.len(),
{
    if entries.len() == 0 {
        None
    } else if first_bytes(entries.drop_last(), key) is Some {
        first_bytes(entries.drop_last(), key)
    } else if entries.last().0 == key {
        Some(entries.last().1)
    } else {
        None
    }
}

/// The rank that loading a list of (bytes, rank) pairs gives `key`: single
/// bytes and byte pairs take the last rank written for them, `RANK_MAX` reading
/// as absent; keys of 3..=7 bytes keep the first rank written; longer keys the
/// last; the empty key has none.
pub open spec fn pairs_rank(pairs: Seq<(Seq<u8>, Rank)>, key: Seq<u8>) -> Option<Rank> {
    if key.len() == 0 {
        None
    } else if key.len() <= 2 {
        present(rank_or_max(last_bytes(pairs, key)))
    } else if key.len() <= 7 {
        first_bytes(pairs, key)
    } else {
        last_bytes(pairs, key)
    }
}

/// Index of the byte pair `[a, b]` in the dense pair table.
pub open spec fn pair_index(a: u8, b: u8) -> int {
    a * 256 + b
}

/// Vocab with length-dispatched fast paths.
pub struct RankMap {
    byte_id: Vec<Rank>,
    byte2: Vec<Rank>,
    short: ShortTable,
    long: LongTable,
    n: usize,
}

impl RankMap {
    #[verifier::type_invariant]
    closed spec fn inv(self) -> bool {
        &&& self.byte_id@.len() == 256
        &&& self.byte2@.len() == 65536
        &&& self.short.wf()
        &&& self.long.wf()
    }

    /// The number of pairs the map was built from.
    pub closed spec fn count(&self) -> nat {
        self.n as nat
    }

    /// The rank slot of the single byte `b` (`RANK_MAX` when unset).
    pub closed spec fn byte_rank(&self, b: u8) -> Rank {
        self.byte_id@[b as int]
    }

    /// Some slot of the map holds `key` with rank `id`.
    pub closed spec fn stores(&self, key: Seq<u8>, id: Rank) -> bool {
        ||| key.len() == 1 && self.byte_id@[key[0] as int] == id
        ||| key.len() == 2 && self.byte2@[pair_index(key[0], key[1])] == id
        ||| exists|pk: u64| #[trigger] self.short.holds(pk, id) && unpack_spec(pk) == key
        ||| self.long.holds(key, id)
    }

    pub fn from_pairs(pairs: Vec<(Vec<u8>, Rank)>) -> (r: Self)
        requires
            pairs@.len() <= MAX_ENTRIES,
        ensures
            forall|k: Seq<u8>| #[trigger] r.rank_of(k) == pairs_rank(pairs_view(pairs@), k),
            forall|b: u8|
                #[trigger] r.byte_rank(b) == rank_or_max(last_bytes(pairs_view(pairs@), seq![b])),
            r.count() == pairs@.len(),
            forall|k: Seq<u8>, id: Rank|
                #[trigger] r.stores(k, id) && id != RANK_MAX ==> pairs_view(pairs@).contains((k, id)),
    {
        let mut byte_id: Vec<Rank> = vec![RANK_MAX; 256];
        let mut byte2: Vec<Rank> = vec![RANK_MAX; 65536];
        let mut short_entries: Vec<(u64, Rank)> = Vec::new();
        let mut long_entries: Vec<(Vec<u8>, Rank)> = Vec::new();
        let mut n: usize = 0;
        proof {
            assert(pairs_view(pairs@.subrange(0, 0)) =~= Seq::empty());
            assert(pairs_view(long_entries@) =~= Seq::empty());
        }
        while n < pairs.len()
            invariant
                byte_id@.len() == 256,
                byte2@.len() == 65536,
                n <= pairs@.len() <= MAX_ENTRIES,
                short_entries@.len() <= n,
                long_entries@.len() <= n,
                forall|i: int| 0 <= i < short_entries@.len() ==> (#[trigger] short_entries@[i]).0 != 0,
                forall|i: int|
                    0 <= i < long_entries@.len() ==> (#[trigger] long_entries@[i]).0@.len() > 0,
                forall|b: u8|
                    #[trigger] byte_id@[b as int] == rank_or_max(
                        last_bytes(pairs_view(pairs@.subrange(0, n as int)), seq![b]),
                    ),
                forall|a: u8, b: u8|
                    #[trigger] byte2@[pair_index(a, b)] == rank_or_max(
                        last_bytes(pairs_view(pairs@.subrange(0, n as int)), seq![a, b]),
                    ),
                forall|k: Seq<u8>|
                    3 <= k.len() <= 7 ==> #[trigger] first_bytes(
                        pairs_view(pairs@.subrange(0, n as int)),
                        k,
                    ) == first_u64(short_entries@, pack_spec(k)),
                forall|k: Seq<u8>|
                    k.len() >= 8 ==> #[trigger] last_bytes(
                        pairs_view(pairs@.subrange(0, n as int)),
                        k,
                    ) == last_bytes(pairs_view(long_entries@), k),
                forall|i: int|
                    0 <= i < short_entries@.len() ==> pairs_view(pairs@).contains(
                        (unpack_spec((#[trigger] short_entries@[i]).0), short_entries@[i].1),
                    ),
                forall|i: int|
                    0 <= i < long_entries@.len() ==> pairs_view(pairs@).contains(
                        #[trigger] pairs_view(long_entries@)[i],
                    ),
            decreases pairs@.len() - n,
        {
            let bytes: &Vec<u8> = &pairs[n].0;
            let rank = pairs[n].1;
            let ghost pre = pairs_view(pairs@.subrange(0, n as int));
            let ghost post = pairs_view(pairs@.subrange(0, n + 1));
            proof {
                assert(post.drop_last() =~= pre);
                assert(post.last() == (bytes@, rank));
                assert(pairs_view(pairs@)[n as int] == (bytes@, rank));
                assert(pairs_view(pairs@).contains((bytes@, rank)));
            }
            let ghost old_se = short_entries@;
            let ghost old_le = long_entries@;
            let len = bytes.len();
            if len == 1 {
                let ghost old_b = byte_id@;
                byte_id.set(bytes[0] as usize, rank);
                proof {
                    assert(bytes@ =~= seq![bytes@[0]]);
                    assert forall|b: u8|
                        #[trigger] byte_id@[b as int] == rank_or_max(last_bytes(post, seq![b])) by {
                        if b != bytes@[0] {
                            assert(seq![b] != bytes@) by {
                                assert(seq![b][0] != bytes@[0]);
                            }
                            assert(byte_id@[b as int] == old_b[b as int]);
                        }
                    }
                    assert forall|a: u8, b: u8|
                        #[trigger] byte2@[pair_index(a, b)] == rank_or_max(
                            last_bytes(post, seq![a, b]),
                        ) by {
                        assert(seq![a, b].len() != bytes@.len());
                    }
                }
            } else if len == 2 {
                let ghost old_b2 = byte2@;
                let idx = (bytes[0] as usize) * 256 + (bytes[1] as usize);
                byte2.set(idx, rank);
                proof {
                    assert(bytes@ =~= seq![bytes@[0], bytes@[1]]);
                    assert(idx == pair_index(bytes@[0], bytes@[1]));
                    assert forall|b: u8|
                        #[trigger] byte_id@[b as int] == rank_or_max(last_bytes(post, seq![b])) by {
                        assert(seq![b].len() != bytes@.len());
                    }
                    assert forall|a: u8, b: u8|
                        #[trigger] byte2@[pair_index(a, b)] == rank_or_max(
                            last_bytes(post, seq![a, b]),
                        ) by {
                        if a != bytes@[0] || b != bytes@[1] {
                            assert(seq![a, b] != bytes@) by {
                                assert(seq![a, b][0] == a && seq![a, b][1] == b);
                            }
                            assert(pair_index(a, b) != idx);
                            assert(byte2@[pair_index(a, b)] == old_b2[pair_index(a, b)]);
                        }
                    }
                }
            } else if 3 <= len && len <= 7 {
                let pk = pack(bytes.as_slice());
                short_entries.push((pk, rank));
                proof {
                    lemma_unpack_pack(bytes@);
                    assert forall|i: int|
                        0 <= i < short_entries@.len() implies pairs_view(pairs@).contains(
                            (unpack_spec((#[trigger] short_entries@[i]).0), short_entries@[i].1),
                        ) by {
                        if i < old_se.len() {
                            assert(short_entries@[i] == old_se[i]);
                        }
                    }
                    lemma_pack(bytes@, bytes@);
                    assert(short_entries@.drop_last() =~= old_se);
                    assert forall|k: Seq<u8>|
                        3 <= k.len() <= 7 implies #[trigger] first_bytes(post, k) == first_u64(
                            short_entries@,
                            pack_spec(k),
                        ) by {
                        lemma_pack(k, bytes@);
                        assert(first_bytes(pre, k) == first_u64(old_se, pack_spec(k)));
                        assert(short_entries@.last() == (pk, rank));
                        assert(first_u64(short_entries@, pack_spec(k)) == if first_u64(old_se, pack_spec(k)) is Some {
                            first_u64(old_se, pack_spec(k))
                        } else if pk == pack_spec(k) {
                            Some(rank)
                        } else {
                            None
                        });
                    }
                    assert forall|b: u8|
                        #[trigger] byte_id@[b as int] == rank_or_max(last_bytes(post, seq![b])) by {
                        assert(seq![b].len() != bytes@.len());
                    }
                    assert forall|a: u8, b: u8|
                        #[trigger] byte2@[pair_index(a, b)] == rank_or_max(
                            last_bytes(post, seq![a, b]),
                        ) by {
                        assert(seq![a, b].len() != bytes@.len());
                    }
                }
            } else if len >= 8 {
                let copy = copy_bytes(bytes.as_slice());
                long_entries.push((copy, rank));
                proof {
                    assert(pairs_view(long_entries@) =~= pairs_view(old_le).push((bytes@, rank)));
                    assert forall|i: int|
                        0 <= i < long_entries@.len() implies pairs_view(pairs@).contains(
                            #[trigger] pairs_view(long_entries@)[i],
                        ) by {
                        if i < old_le.len() {
                            assert(pairs_view(long_entries@)[i] == pairs_view(old_le)[i]);
                        }
                    }
                    assert(pairs_view(long_entries@).drop_last() =~= pairs_view(old_le));
                    assert forall|b: u8|
                        #[trigger] byte_id@[b as int] == rank_or_max(last_bytes(post, seq![b])) by {
                        assert(seq![b].len() != bytes@.len());
                    }
                    assert forall|a: u8, b: u8|
                        #[trigger] byte2@[pair_index(a, b)] == rank_or_max(
                            last_bytes(post, seq![a, b]),
                        ) by {
                        assert(seq![a, b].len() != bytes@.len());
                    }
                }
            } else {
                proof {
                    assert forall|b: u8|
                        #[trigger] byte_id@[b as int] == rank_or_max(last_bytes(post, seq![b])) by {
                        assert(seq![b].len() != bytes@.len());
                    }
                    assert forall|a: u8, b: u8|
                        #[trigger] byte2@[pair_index(a, b)] == rank_or_max(
                            last_bytes(post, seq![a, b]),
                        ) by {
                        assert(seq![a, b].len() != bytes@.len());
                    }
                }
            }
            proof {
                assert forall|k: Seq<u8>|
                    3 <= k.len() <= 7 implies #[trigger] first_bytes(post, k) == first_u64(
                        short_entries@,
                        pack_spec(k),
                    ) by {
                    assert(first_bytes(pre, k) == first_u64(old_se, pack_spec(k)));
                    if !(3 <= len <= 7) {
                        assert(short_entries@ == old_se);
                        assert(k != bytes@);
                    }
                }
                assert forall|k: Seq<u8>|
                    k.len() >= 8 implies #[trigger] last_bytes(post, k) == last_bytes(
                        pairs_view(long_entries@),
                        k,
                    ) by {
                    assert(last_bytes(pre, k) == last_bytes(pairs_view(old_le), k));
                    if len < 8 {
                        assert(long_entries@ == old_le);
                        assert(k != bytes@);
                    }
                }
            }
            n += 1;
        }
        proof {
            assert(pairs@.subrange(0, pairs@.len() as int) =~= pairs@);
            assert forall|i: int| 0 <= i < short_entries@.len() implies (#[trigger] short_entries@[i]).0 != 0 by {}
        }
        let short = ShortTable::build(short_entries.as_slice());
        let long = LongTable::build(long_entries.as_slice());
        let r = RankMap { byte_id, byte2, short, long, n };
        proof {
            let pv = pairs_view(pairs@);
            assert forall|k: Seq<u8>, id: Rank|
                #[trigger] r.stores(k, id) && id != RANK_MAX implies pv.contains((k, id)) by {
                if k.len() == 1 && r.byte_id@[k[0] as int] == id {
                    assert(k =~= seq![k[0]]);
                    assert(r.byte_rank(k[0]) == id);
                    lemma_last_bytes_listed(pv, k);
                } else if k.len() == 2 && r.byte2@[pair_index(k[0], k[1])] == id {
                    assert(k =~= seq![k[0], k[1]]);
                    lemma_last_bytes_listed(pv, k);
                } else if exists|pk: u64| #[trigger] r.short.holds(pk, id) && unpack_spec(pk) == k {
                    let pk = choose|pk: u64| #[trigger] r.short.holds(pk, id) && unpack_spec(pk) == k;
                    assert(short_entries@.contains((pk, id)));
                    let i = choose|i: int| 0 <= i < short_entries@.len() && short_entries@[i] == (pk, id);
                    assert(pv.contains((unpack_spec(short_entries@[i].0), short_entries@[i].1)));
                } else {
                    assert(r.long.holds(k, id));
                    assert(pairs_view(long_entries@).contains((k, id)));
                    let i = choose|i: int|
                        0 <= i < pairs_view(long_entries@).len() && pairs_view(long_entries@)[i] == (k, id);
                    assert(pv.contains(pairs_view(long_entries@)[i]));
                }
            }
            assert forall|k: Seq<u8>| #[trigger] r.rank_of(k) == pairs_rank(pv, k) by {
                if k.len() == 1 {
                    assert(k =~= seq![k[0]]);
                } else if k.len() == 2 {
                    assert(k =~= seq![k[0], k[1]]);
                } else if 3 <= k.len() <= 7 {
                    lemma_pack(k, k);
                }
            }
        }
        r
    }

    pub fn len(&self) -> (r: usize)
        ensures
            r == self.count(),
    {
        self.n
    }

    /// Reverse lookup id -> bytes (O(n); tests only): a stored key with rank
    /// `id`, single bytes first (lowest byte first), then byte pairs, then the
    /// longer keys. `RANK_MAX` is never a real id and has no bytes.
    pub fn bytes_for(&self, id: Rank) -> (r: Option<Vec<u8>>)
        ensures
            id == RANK_MAX ==> r is None,
            r matches Some(v) ==> self.stores(v@, id),
            r is None && id != RANK_MAX ==> forall|k: Seq<u8>| !self.stores(k, id),
            r is None && id != RANK_MAX ==> forall|k: Seq<u8>| #[trigger] self.rank_of(k) != Some(id),
            id != RANK_MAX && (exists|b: u8| self.byte_rank(b) == id) ==> (r matches Some(v)
                && v@.len() == 1 && self.byte_rank(v@[0]) == id && forall|b: u8|
                b < v@[0] ==> self.byte_rank(b) != id),
    {
        proof {
            use_type_invariant(self);
        }
        if id == RANK_MAX {
            return None;
        }
        let mut b: usize = 0;
        while b < 256
            invariant
                id != RANK_MAX,
                b <= 256,
                self.byte_id@.len() == 256,
                forall|x: int| 0 <= x < b ==> self.byte_id@[x] != id,
            decreases 256 - b,
        {
            if self.byte_id[b] == id {
                let v = vec![b as u8];
                proof {
                    assert(v@ =~= seq![b as u8]);
                    assert(v@[0] as int == b);
                }
                return Some(v);
            }
            b += 1;
        }
        proof {
            assert forall|c: u8| self.byte_rank(c) != id by {
                assert(self.byte_id@[c as int] != id);
            }
        }
        let mut hi: usize = 0;
        while hi < 256
            invariant
                id != RANK_MAX,
                hi <= 256,
                self.byte2@.len() == 65536,
                forall|x: int| 0 <= x < hi * 256 ==> self.byte2@[x] != id,
                forall|c: u8| self.byte_rank(c) != id,
            decreases 256 - hi,
        {
            let mut lo: usize = 0;
            while lo < 256
                invariant
                    id != RANK_MAX,
                    lo <= 256,
                    hi < 256,
                    self.byte2@.len() == 65536,
                    forall|x: int| 0 <= x < hi * 256 + lo ==> self.byte2@[x] != id,
                    forall|c: u8| self.byte_rank(c) != id,
                decreases 256 - lo,
            {
                if self.byte2[hi * 256 + lo] == id {
                    let v = vec![hi as u8, lo as u8];
                    proof {
                        assert(v@ =~= seq![hi as u8, lo as u8]);
                        assert(v@[0] as int == hi && v@[1] as int == lo);
                        assert(pair_index(v@[0], v@[1]) == hi * 256 + lo);
                    }
                    return Some(v);
                }
                lo += 1;
            }
            hi += 1;
        }
        proof {
            assert forall|k: Seq<u8>| k.len() == 2 implies self.byte2@[pair_index(k[0], k[1])] != id by {
                let x = pair_index(k[0], k[1]);
                assert(0 <= x < 65536);
            }
            assert forall|k: Seq<u8>| k.len() == 1 implies self.byte_id@[k[0] as int] != id by {
                assert(self.byte_rank(k[0]) != id);
            }
        }
        match self.short.key_for(id) {
            Some(key) => {
                let v = unpack(key);
                return Some(v);
            },
            None => {},
        }
        match self.long.key_for(id) {
            Some(k) => {
                proof {
                    assert(k@.len() > 0);
                }
                Some(k)
            },
            None => {
                proof {
                    assert forall|k: Seq<u8>| #[trigger] self.rank_of(k) != Some(id) by {
                        if 3 <= k.len() <= 7 {
                            self.short.lemma_lookup_holds(pack_spec(k));
                            lemma_unpack_pack(k);
                            if self.rank_of(k) == Some(id) {
                                assert(self.short.holds(pack_spec(k), id));
                                assert(self.stores(k, id));
                            }
                        } else if k.len() >= 8 {
                            self.long.lemma_lookup_holds(k);
                        }
                    }
                }
                None
            },
        }
    }

    pub fn is_empty(&self) -> (r: bool)
        ensures
            r == (self.count() == 0),
    {
        self.n == 0
    }
}

impl Default for RankMap {
    fn default() -> (r: Self)
        ensures
            forall|k: Seq<u8>| #[trigger] r.rank_of(k) is None,
            r.count() == 0,
    {
        let r = RankMap::from_pairs(Vec::new());
        proof {
            assert forall|k: Seq<u8>| #[trigger] r.rank_of(k) is None by {
                assert(pairs_view(Seq::<(Vec<u8>, Rank)>::empty()) =~= Seq::empty());
            }
        }
        r
    }
}

/// No two pairs share a key.
pub open spec fn distinct_keys(pairs: Seq<(Seq<u8>, Rank)>) -> bool {
    forall|i: int, j: int| 0 <= i < j < pairs.len() ==> pairs[i].0 != pairs[j].0
}

proof fn lemma_recorded_distinct(pairs: Seq<(Seq<u8>, Rank)>, i: int)
    requires
        distinct_keys(pairs),
        0 <= i < pairs.len(),
    ensures
        last_bytes(pairs, pairs[i].0) == Some(pairs[i].1),
        first_bytes(pairs, pairs[i].0) == Some(pairs[i].1),
    decreases pairs.len(),
{
    if i < pairs.len() - 1 {
        let init = pairs.drop_last();
        assert(distinct_keys(init));
        assert(init[i] == pairs[i]);
        lemma_recorded_distinct(init, i);
        assert(pairs.last().0 != pairs[i].0);
    } else {
        lemma_recorded_absent(pairs.drop_last(), pairs[i].0);
    }
}

proof fn lemma_recorded_absent(pairs: Seq<(Seq<u8>, Rank)>, key: Seq<u8>)
    requires
        forall|i: int| 0 <= i < pairs.len() ==> (#[trigger] pairs[i]).0 != key,
    ensures
        last_bytes(pairs, key) is None,
        first_bytes(pairs, key) is None,
    decreases pairs.len(),
{
    if pairs.len() > 0 {
        let init = pairs.drop_last();
        assert forall|i: int| 0 <= i < init.len() implies (#[trigger] init[i]).0 != key by {
            assert(init[i] == pairs[i]);
        }
        lemma_recorded_absent(init, key);
        assert(pairs[pairs.len() - 1].0 != key);
    }
}

/// Loading a vocabulary whose keys are distinct gives every nonempty key the
/// rank it was listed with (unless that rank is the `RANK_MAX` sentinel on a
/// key of one or two bytes), and no rank to a key that is not listed.
pub proof fn lemma_pairs_rank_distinct(pairs: Seq<(Seq<u8>, Rank)>, key: Seq<u8>)
    requires
        distinct_keys(pairs),
    ensures
        forall|i: int|
            0 <= i < pairs.len() && key == pairs[i].0 && key.len() > 0 && (key.len() > 2
                || pairs[i].1 != RANK_MAX) ==> pairs_rank(pairs, key) == Some(pairs[i].1),
        (forall|i: int| 0 <= i < pairs.len() ==> (#[trigger] pairs[i]).0 != key) ==> pairs_rank(
            pairs,
            key,
        ) is None,
{
    assert forall|i: int|
        0 <= i < pairs.len() && key == pairs[i].0 && key.len() > 0 && (key.len() > 2
            || pairs[i].1 != RANK_MAX) implies pairs_rank(pairs, key) == Some(pairs[i].1) by {
        lemma_recorded_distinct(pairs, i);
    }
    if forall|i: int| 0 <= i < pairs.len() ==> (#[trigger] pairs[i]).0 != key {
        lemma_recorded_absent(pairs, key);
    }
}

proof fn lemma_first_bytes_in(entries: Seq<(Seq<u8>, Rank)>, k: Seq<u8>)
    requires
        first_bytes(entries, k) is Some,
    ensures
        exists|i: int|
            0 <= i < entries.len() && entries[i] == (k, first_bytes(entries, k)->Some_0),
    decreases entries.len(),
{
    if first_bytes(entries.drop_last(), k) is Some {
        lemma_first_bytes_in(entries.drop_last(), k);
        let i = choose|i: int|
            0 <= i < entries.drop_last().len() && entries.drop_last()[i] == (
                k,
                first_bytes(entries.drop_last(), k)->Some_0,
            );
        assert(entries[i] == entries.drop_last()[i]);
    } else {
        assert(entries[entries.len() - 1] == entries.last());
    }
}

proof fn lemma_last_bytes_listed(entries: Seq<(Seq<u8>, Rank)>, k: Seq<u8>)
    requires
        last_bytes(entries, k) is Some,
    ensures
        exists|i: int|
            0 <= i < entries.len() && entries[i] == (k, last_bytes(entries, k)->Some_0),
    decreases entries.len(),
{
    if entries.last().0 != k {
        lemma_last_bytes_listed(entries.drop_last(), k);
        let i = choose|i: int|
            0 <= i < entries.drop_last().len() && entries.drop_last()[i] == (
                k,
                last_bytes(entries.drop_last(), k)->Some_0,
            );
        assert(entries[i] == entries.drop_last()[i]);
    } else {
        assert(entries[entries.len() - 1] == entries.last());
    }
}

/// Every rank a loaded map gives a key was listed with that key.
pub proof fn lemma_pairs_rank_listed(pairs: Seq<(Seq<u8>, Rank)>, key: Seq<u8>)
    ensures
        pairs_rank(pairs, key) matches Some(id) ==> exists|i: int|
            0 <= i < pairs.len() && pairs[i] == (key, id),
{
    if pairs_rank(pairs, key) is Some {
        if key.len() <= 2 {
            lemma_last_bytes_listed(pairs, key);
        } else if key.len() <= 7 {
            lemma_first_bytes_in(pairs, key);
        } else {
            lemma_last_bytes_listed(pairs, key);
        }
    }
}

impl RankLookup for RankMap {
    closed spec fn rank_of(&self, key: Seq<u8>) -> Option<Rank> {
        if key.len() == 0 {
            None
        } else if key.len() == 1 {
            present(self.byte_id@[key[0] as int])
        } else if key.len() == 2 {
            present(self.byte2@[pair_index(key[0], key[1])])
        } else if key.len() <= 7 {
            self.short.lookup(pack_spec(key))
        } else {
            self.long.lookup(key)
        }
    }

    #[inline]
    fn get(&self, key: &[u8]) -> (r: Option<Rank>) {
        proof {
            use_type_invariant(self);
        }
        let len = key.len();
        if len == 0 {
            None
        } else if len == 1 {
            let r = self.byte_id[key[0] as usize];
            if r == RANK_MAX {
                None
            } else {
                Some(r)
            }
        } else if len == 2 {
            let r = self.byte2[(key[0] as usize) * 256 + (key[1] as usize)];
            if r == RANK_MAX {
                None
            } else {
                Some(r)
            }
        } else if len <= 7 {
            proof {
                lemma_pack(key@, key@);
            }
            self.short.get(pack(key))
        } else {
            self.long.get(key)
        }
    }

    #[inline]
    fn get_pair(&self, a: u8, b: u8) -> (r: Rank) {
        proof {
            use_type_invariant(self);
            assert(seq![a, b][0] == a && seq![a, b][1] == b);
        }
        self.byte2[(a as usize) * 256 + (b as usize)]
    }
}

} // verus!
