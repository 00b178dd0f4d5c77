//! The model of an open-addressed table with linear probing: a sequence of
//! slots (`None` = vacant) and a home slot for every key. A key is found by
//! walking from its home slot, wrapping at the end, until the key or a vacant
//! slot turns up.
use vstd::prelude::*;
use vstd::set_lib::*;

verus! {

/// The slot `d` steps after `h` in a table of `cap` slots.
pub open spec fn probe(h: int, d: int, cap: int) -> int {
    if h + d < cap {
        h + d
    } else {
        h + d - cap
    }
}

/// How many steps after `h` slot `s` is.
pub open spec fn dist(h: int, s: int, cap: int) -> int {
    if s >= h {
        s - h
    } else {
        s + cap - h
    }
}

/// Every key's home slot is a slot of the table.
pub open spec fn homes_ok<K>(home: spec_fn(K) -> int, cap: int) -> bool {
    forall|k: K| 0 <= #[trigger] home(k) < cap
}

/// Walking from `k`'s home, the `d`-th slot holds `k`, and every earlier slot is
/// occupied by another key.
pub open spec fn found_at<K>(slots: Seq<Option<K>>, home: spec_fn(K) -> int, k: K, d: int) -> bool {
    &&& 0 <= d < slots.len()
    &&& slots[probe(home(k), d, slots.len() as int)] == Some(k)
    &&& forall|d2: int|
        0 <= d2 < d ==> (#[trigger] slots[probe(home(k), d2, slots.len() as int)]) is Some
            && slots[probe(home(k), d2, slots.len() as int)] != Some(k)
}

/// The slot at which probing finds `k`, if it does.
pub open spec fn slot_of<K>(slots: Seq<Option<K>>, home: spec_fn(K) -> int, k: K) -> Option<int> {
    if exists|d: int| found_at(slots, home, k, d) {
        Some(probe(home(k), choose|d: int| found_at(slots, home, k, d), slots.len() as int))
    } else {
        None
    }
}

/// No occupied slot is separated from its key's home by a vacant slot.
pub open spec fn no_gaps<K>(slots: Seq<Option<K>>, home: spec_fn(K) -> int) -> bool {
    forall|s: int, d2: int|
        #![trigger slots[s], slots[probe(home(slots[s]->Some_0), d2, slots.len() as int)]]
        0 <= s < slots.len() && slots[s] is Some && 0 <= d2 < dist(
            home(slots[s]->Some_0),
            s,
            slots.len() as int,
        ) ==> slots[probe(home(slots[s]->Some_0), d2, slots.len() as int)] is Some
}

/// Some slot is vacant.
pub open spec fn has_vacancy<K>(slots: Seq<Option<K>>) -> bool {
    exists|s: int| 0 <= s < slots.len() && slots[s] is None
}

/// The occupied slots.
pub open spec fn occupied<K>(slots: Seq<Option<K>>) -> Set<int> {
    Set::new(|s: int| 0 <= s < slots.len() && slots[s] is Some)
}

pub proof fn lemma_probe_dist(h: int, s: int, cap: int)
    requires
        0 <= h < cap,
        0 <= s < cap,
    ensures
        0 <= dist(h, s, cap) < cap,
        probe(h, dist(h, s, cap), cap) == s,
{
}

pub proof fn lemma_probe_range(h: int, d: int, cap: int)
    requires
        0 <= h < cap,
        0 <= d < cap,
    ensures
        0 <= probe(h, d, cap) < cap,
        dist(h, probe(h, d, cap), cap) == d,
{
}

/// Probing finds a key at most once.
pub proof fn lemma_found_unique<K>(slots: Seq<Option<K>>, home: spec_fn(K) -> int, k: K, d1: int, d2: int)
    requires
        found_at(slots, home, k, d1),
        found_at(slots, home, k, d2),
    ensures
        d1 == d2,
{
    if d1 < d2 {
        assert(slots[probe(home(k), d1, slots.len() as int)] != Some(k));
    } else if d2 < d1 {
        assert(slots[probe(home(k), d2, slots.len() as int)] != Some(k));
    }
}

/// If probing `k` reaches step `d`, which is vacant or holds `k`, the outcome is
/// decided there.
pub proof fn lemma_probe_stop<K>(slots: Seq<Option<K>>, home: spec_fn(K) -> int, k: K, d: int)
    requires
        homes_ok(home, slots.len() as int),
        0 <= d < slots.len(),
        forall|d2: int|
            0 <= d2 < d ==> (#[trigger] slots[probe(home(k), d2, slots.len() as int)]) is Some
                && slots[probe(home(k), d2, slots.len() as int)] != Some(k),
    ensures
        slots[probe(home(k), d, slots.len() as int)] == Some(k) ==> slot_of(slots, home, k) == Some(
            probe(home(k), d, slots.len() as int),
        ),
        slots[probe(home(k), d, slots.len() as int)] is None ==> slot_of(slots, home, k) is None,
{
    let cap = slots.len() as int;
    if slots[probe(home(k), d, cap)] == Some(k) {
        assert(found_at(slots, home, k, d));
        let c = choose|d1: int| found_at(slots, home, k, d1);
        lemma_found_unique(slots, home, k, c, d);
    }
    if slots[probe(home(k), d, cap)] is None {
        if exists|d1: int| found_at(slots, home, k, d1) {
            let c = choose|d1: int| found_at(slots, home, k, d1);
            if c < d {
            } else if c == d {
            } else {
                assert(slots[probe(home(k), d, cap)] is Some);
            }
        }
    }
}

/// With a vacancy, probing `k` reaches a vacancy or `k` within the table.
pub proof fn lemma_probe_bound<K>(slots: Seq<Option<K>>, home: spec_fn(K) -> int, k: K, d: int)
    requires
        homes_ok(home, slots.len() as int),
        has_vacancy(slots),
        0 <= d,
        forall|d2: int|
            0 <= d2 < d ==> (#[trigger] slots[probe(home(k), d2, slots.len() as int)]) is Some,
    ensures
        d < slots.len(),
{
    let cap = slots.len() as int;
    let e = choose|s: int| 0 <= s < cap && slots[s] is None;
    assert(0 <= home(k) < cap);
    lemma_probe_dist(home(k), e, cap);
    if d >= cap {
        assert(slots[probe(home(k), dist(home(k), e, cap), cap)] is Some);
    }
}

/// A key is found iff some slot holds it (given no gaps).
pub proof fn lemma_found_iff_stored<K>(slots: Seq<Option<K>>, home: spec_fn(K) -> int, k: K)
    requires
        homes_ok(home, slots.len() as int),
        no_gaps(slots, home),
    ensures
        slot_of(slots, home, k) is None <==> !(exists|s: int| 0 <= s < slots.len() && slots[s] == Some(k)),
{
    let cap = slots.len() as int;
    if exists|s: int| 0 <= s < cap && slots[s] == Some(k) {
        // the first copy along k's probe path
        let s0 = choose|s: int| 0 <= s < cap && slots[s] == Some(k);
        assert(0 <= home(k) < cap);
        lemma_probe_dist(home(k), s0, cap);
        lemma_first_copy(slots, home, k, dist(home(k), s0, cap));
    }
    if slot_of(slots, home, k) is Some {
        let c = choose|d1: int| found_at(slots, home, k, d1);
        assert(0 <= home(k) < cap);
        lemma_probe_range(home(k), c, cap);
    }
}

/// If step `d` of `k`'s probe holds `k`, some step `<= d` is where `k` is found.
proof fn lemma_first_copy<K>(slots: Seq<Option<K>>, home: spec_fn(K) -> int, k: K, d: int)
    requires
        homes_ok(home, slots.len() as int),
        no_gaps(slots, home),
        0 <= d < slots.len(),
        slots[probe(home(k), d, slots.len() as int)] == Some(k),
    ensures
        exists|d1: int| found_at(slots, home, k, d1),
    decreases d,
{
    let cap = slots.len() as int;
    let s = probe(home(k), d, cap);
    assert(0 <= home(k) < cap);
    lemma_probe_range(home(k), d, cap);
    if exists|d2: int| 0 <= d2 < d && #[trigger] slots[probe(home(k), d2, cap)] == Some(k) {
        let d2 = choose|d2: int| 0 <= d2 < d && #[trigger] slots[probe(home(k), d2, cap)] == Some(k);
        lemma_first_copy(slots, home, k, d2);
    } else {
        assert forall|d2: int| 0 <= d2 < d implies (#[trigger] slots[probe(home(k), d2, cap)])
            is Some && slots[probe(home(k), d2, cap)] != Some(k) by {
            assert(slots[s] is Some && 0 <= d2 < dist(home(slots[s]->Some_0), s, cap));
        }
        assert(found_at(slots, home, k, d));
    }
}

/// Filling the first vacant slot on `k`'s probe path with `k` keeps the table
/// free of gaps, leaves every other key where it was found, and makes `k` found
/// where it was found before, or else at the filled slot.
pub proof fn lemma_fill<K>(slots: Seq<Option<K>>, home: spec_fn(K) -> int, k: K, d: int)
    requires
        homes_ok(home, slots.len() as int),
        no_gaps(slots, home),
        0 <= d < slots.len(),
        slots[probe(home(k), d, slots.len() as int)] is None,
        forall|d2: int|
            0 <= d2 < d ==> (#[trigger] slots[probe(home(k), d2, slots.len() as int)]) is Some,
    ensures
        ({
            let new = slots.update(probe(home(k), d, slots.len() as int), Some(k));
            &&& no_gaps(new, home)
            &&& forall|k2: K| k2 != k ==> #[trigger] slot_of(new, home, k2) == slot_of(slots, home, k2)
            &&& slot_of(new, home, k) == (if slot_of(slots, home, k) is Some {
                slot_of(slots, home, k)
            } else {
                Some(probe(home(k), d, slots.len() as int))
            })
            &&& occupied(new) == occupied(slots).insert(probe(home(k), d, slots.len() as int))
        }),
{
    let cap = slots.len() as int;
    let e = probe(home(k), d, cap);
    let new = slots.update(e, Some(k));
    assert(0 <= home(k) < cap);
    lemma_probe_range(home(k), d, cap);
    // no gaps
    assert forall|s: int, d2: int|
        #![trigger new[s], new[probe(home(new[s]->Some_0), d2, cap)]]
        0 <= s < cap && new[s] is Some && 0 <= d2 < dist(home(new[s]->Some_0), s, cap) implies new[probe(
            home(new[s]->Some_0),
            d2,
            cap,
        )] is Some by {
        let ks = new[s]->Some_0;
        assert(0 <= home(ks) < cap);
        lemma_probe_dist(home(ks), s, cap);
        if s == e {
            assert(ks == k);
            assert(slots[probe(home(k), d2, cap)] is Some);
        } else {
            assert(slots[s] is Some);
            assert(slots[probe(home(ks), d2, cap)] is Some);
        }
    }
    // other keys
    assert forall|k2: K| k2 != k implies #[trigger] slot_of(new, home, k2) == slot_of(slots, home, k2) by {
        assert(0 <= home(k2) < cap);
        if exists|d1: int| found_at(slots, home, k2, d1) {
            let c = choose|d1: int| found_at(slots, home, k2, d1);
            lemma_probe_range(home(k2), c, cap);
            // e is not on k2's path up to c: those slots were occupied
            assert forall|d2: int| 0 <= d2 < c implies (#[trigger] new[probe(home(k2), d2, cap)])
                is Some && new[probe(home(k2), d2, cap)] != Some(k2) by {
                lemma_probe_range(home(k2), d2, cap);
            }
            assert(found_at(new, home, k2, c));
            let c2 = choose|d1: int| found_at(new, home, k2, d1);
            lemma_found_unique(new, home, k2, c, c2);
        } else if exists|d1: int| found_at(new, home, k2, d1) {
            let c = choose|d1: int| found_at(new, home, k2, d1);
            lemma_probe_range(home(k2), c, cap);
            let sc = probe(home(k2), c, cap);
            assert(sc != e);
            assert(slots[sc] == Some(k2));
            // a path step equal to e would be a gap before k2's copy at sc
            assert forall|d2: int| 0 <= d2 < c implies (#[trigger] slots[probe(home(k2), d2, cap)])
                is Some && slots[probe(home(k2), d2, cap)] != Some(k2) by {
                lemma_probe_range(home(k2), d2, cap);
                let x = probe(home(k2), d2, cap);
                assert(new[x] is Some && new[x] != Some(k2));
                if x == e {
                    assert(slots[sc]->Some_0 == k2);
                    assert(dist(home(k2), sc, cap) == c);
                    assert(slots[probe(home(slots[sc]->Some_0), d2, cap)] is Some);
                    assert(false);
                } else {
                    assert(slots[x] == new[x]);
                }
            }
            assert(found_at(slots, home, k2, c));
        }
    }
    // k itself
    if exists|d1: int| found_at(slots, home, k, d1) {
        let c = choose|d1: int| found_at(slots, home, k, d1);
        lemma_probe_range(home(k), c, cap);
        if c >= d {
            assert(slots[probe(home(k), d, cap)] is Some);
        }
        assert forall|d2: int| 0 <= d2 < c implies (#[trigger] new[probe(home(k), d2, cap)]) is Some
            && new[probe(home(k), d2, cap)] != Some(k) by {
            lemma_probe_range(home(k), d2, cap);
        }
        assert(found_at(new, home, k, c));
        let c2 = choose|d1: int| found_at(new, home, k, d1);
        lemma_found_unique(new, home, k, c, c2);
    } else {
        assert forall|d2: int| 0 <= d2 < d implies (#[trigger] new[probe(home(k), d2, cap)]) is Some
            && new[probe(home(k), d2, cap)] != Some(k) by {
            lemma_probe_range(home(k), d2, cap);
            if slots[probe(home(k), d2, cap)] == Some(k) {
                lemma_first_copy(slots, home, k, d2);
            }
        }
        assert(found_at(new, home, k, d));
        let c2 = choose|d1: int| found_at(new, home, k, d1);
        lemma_found_unique(new, home, k, d, c2);
    }
    assert(occupied(new) =~= occupied(slots).insert(e));
}

/// A table with fewer occupied slots than slots has a vacancy.
pub proof fn lemma_vacancy<K>(slots: Seq<Option<K>>)
    requires
        occupied(slots).len() < slots.len(),
    ensures
        has_vacancy(slots),
{
    let cap = slots.len() as int;
    lemma_int_range(0, cap);
    if !has_vacancy(slots) {
        assert(set_int_range(0, cap) =~= occupied(slots));
    }
}

/// The occupied slots of a table are finite and bounded by its size.
pub proof fn lemma_occupied_finite<K>(slots: Seq<Option<K>>)
    ensures
        occupied(slots).finite(),
        occupied(slots).len() <= slots.len(),
{
    let cap = slots.len() as int;
    lemma_int_range(0, cap);
    assert(occupied(slots).subset_of(set_int_range(0, cap)));
    lemma_len_subset(occupied(slots), set_int_range(0, cap));
}

/// An all-vacant table.
pub proof fn lemma_empty_table<K>(slots: Seq<Option<K>>, home: spec_fn(K) -> int)
    requires
        homes_ok(home, slots.len() as int),
        forall|s: int| 0 <= s < slots.len() ==> slots[s] is None,
    ensures
        no_gaps(slots, home),
        occupied(slots) == Set::<int>::empty(),
        forall|k: K| #[trigger] slot_of(slots, home, k) is None,
{
    assert(occupied(slots) =~= Set::<int>::empty());
    assert forall|k: K| #[trigger] slot_of(slots, home, k) is None by {
        if exists|d: int| found_at(slots, home, k, d) {
            let c = choose|d: int| found_at(slots, home, k, d);
            assert(0 <= home(k) < slots.len());
            lemma_probe_range(home(k), c, slots.len() as int);
            assert(slots[probe(home(k), c, slots.len() as int)] is None);
        }
    }
}

} // verus!
