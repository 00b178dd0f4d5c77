//! Special-token registry and a scanner that finds the next special token
//! occurrence in input. Specials are matched as exact literal byte strings.
use crate::rank::{copy_bytes, pairs_view, Rank};
use vstd::prelude::*;

verus! {

// ---------------------------------------------------------------------------
// Order of the registry
// ---------------------------------------------------------------------------

/// Lexicographic order of byte strings.
pub open spec fn lex_lt(a: Seq<u8>, b: Seq<u8>) -> bool
    decreases a.len(),
{
    if a.len() == 0 {
        b.len() > 0
    } else if b.len() == 0 {
        false
    } else if a[0] != b[0] {
        a[0] < b[0]
    } else {
        lex_lt(a.drop_first(), b.drop_first())
    }
}

/// `a` comes strictly before `b`: longer first, then lexicographically.
pub open spec fn before(a: Seq<u8>, b: Seq<u8>) -> bool {
    a.len() > b.len() || (a.len() == b.len() && lex_lt(a, b))
}

/// Where `e` goes in a sorted list: before the first entry it precedes.
pub open spec fn ins_pos(t: Seq<(Seq<u8>, Rank)>, e: (Seq<u8>, Rank)) -> int
    decreases t.len(),
{
    if t.len() == 0 {
        0
    } else if before(e.0, t[0].0) {
        0
    } else {
        1 + ins_pos(t.drop_first(), e)
    }
}

/// The entries in registry order: a stable sort by `before`.
pub open spec fn sort_entries(s: Seq<(Seq<u8>, Rank)>) -> Seq<(Seq<u8>, Rank)>
    decreases s.len(),
{
    if s.len() == 0 {
        Seq::empty()
    } else {
        let t = sort_entries(s.drop_last());
        t.insert(ins_pos(t, s.last()), s.last())
    }
}

fn bytes_lt(a: &[u8], b: &[u8]) -> (r: bool)
    ensures
        r == lex_lt(a@, b@),
{
    let mut i: usize = 0;
    proof {
        assert(a@.skip(0) =~= a@);
        assert(b@.skip(0) =~= b@);
    }
    while i < a.len() && i < b.len() && a[i] == b[i]
        invariant
            i <= a@.len(),
            i <= b@.len(),
            lex_lt(a@, b@) == lex_lt(a@.skip(i as int), b@.skip(i as int)),
        decreases a@.len() - i,
    {
        proof {
            assert(a@.skip(i as int).drop_first() =~= a@.skip(i + 1));
            assert(b@.skip(i as int).drop_first() =~= b@.skip(i + 1));
        }
        i += 1;
    }
    proof {
        if i < a@.len() {
            assert(a@.skip(i as int)[0] == a@[i as int]);
        }
        if i < b@.len() {
            assert(b@.skip(i as int)[0] == b@[i as int]);
        }
    }
    if i == a.len() {
        i < b.len()
    } else if i == b.len() {
        false
    } else {
        a[i] < b[i]
    }
}

fn precedes(a: &[u8], b: &[u8]) -> (r: bool)
    ensures
        r == before(a@, b@),
{
    a.len() > b.len() || (a.len() == b.len() && bytes_lt(a, b))
}

// ---------------------------------------------------------------------------
// Substring search
// ---------------------------------------------------------------------------

/// `needle` (nonempty) occurs in `hay` at `s`.
pub open spec fn occurs_at(hay: Seq<u8>, needle: Seq<u8>, s: int) -> bool {
    &&& needle.len() > 0
    &&& 0 <= s
    &&& s + needle.len() <= hay.len()
    &&& hay.subrange(s, s + needle.len()) == needle
}

/// The first occurrence of `needle` in `hay` at or after `i`.
pub open spec fn first_from(hay: Seq<u8>, needle: Seq<u8>, i: int) -> Option<int>
    decreases hay.len() - i,
{
    if i < 0 || i + needle.len() > hay.len() || needle.len() == 0 {
        None
    } else if occurs_at(hay, needle, i) {
        Some(i)
    } else {
        first_from(hay, needle, i + 1)
    }
}

fn match_at(hay: &[u8], needle: &[u8], s: usize) -> (r: bool)
    requires
        s + needle@.len() <= hay@.len(),
        needle@.len() > 0,
    ensures
        r == occurs_at(hay@, needle@, s as int),
{
    let hl = hay.len();
    let mut j: usize = 0;
    while j < needle.len()
        invariant
            j <= needle@.len(),
            hl == hay@.len(),
            s + needle@.len() <= hay@.len(),
            forall|k: int| 0 <= k < j ==> hay@[s + k] == needle@[k],
        decreases needle@.len() - j,
    {
        if hay[s + j] != needle[j] {
            proof {
                assert(hay@.subrange(s as int, s + needle@.len())[j as int] != needle@[j as int]);
            }
            return false;
        }
        j += 1;
    }
    proof {
        assert(hay@.subrange(s as int, s + needle@.len()) =~= needle@);
    }
    true
}

/// First position of `needle` in `hay` (none for an empty needle).
pub fn find_sub(hay: &[u8], needle: &[u8]) -> (r: Option<usize>)
    ensures
        r matches Some(x) ==> first_from(hay@, needle@, 0) == Some(x as int),
        r is None ==> first_from(hay@, needle@, 0) is None,
{
    if needle.len() == 0 || needle.len() > hay.len() {
        return None;
    }
    let last = hay.len() - needle.len();
    let mut s: usize = 0;
    while s <= last
        invariant
            last == hay@.len() - needle@.len(),
            last < usize::MAX,
            needle@.len() > 0,
            s <= last + 1,
            first_from(hay@, needle@, 0) == first_from(hay@, needle@, s as int),
        decreases last + 1 - s,
    {
        if match_at(hay, needle, s) {
            return Some(s);
        }
        s += 1;
    }
    None
}

// ---------------------------------------------------------------------------
// Sets of ids
// ---------------------------------------------------------------------------

/// Which special-token ids a scan may match.
pub enum IdFilter {
    /// Every id.
    All,
    /// No id.
    Nothing,
    /// Exactly the listed ids.
    Only(Vec<Rank>),
    /// Every id but the listed ones.
    Except(Vec<Rank>),
}

fn copy_ids(v: &Vec<Rank>) -> (r: Vec<Rank>)
    ensures
        r@ == v@,
{
    let mut r: Vec<Rank> = Vec::new();
    let mut i: usize = 0;
    while i < v.len()
        invariant
            i <= v@.len(),
            r@ == v@.take(i as int),
        decreases v@.len() - i,
    {
        r.push(v[i]);
        i += 1;
        proof {
            assert(r@ =~= v@.take(i as int));
        }
    }
    proof {
        assert(v@.take(v@.len() as int) =~= v@);
    }
    r
}

impl IdFilter {
    /// The filter as a predicate on ids.
    pub open spec fn as_pred(&self) -> spec_fn(Rank) -> bool {
        |id: Rank| self.passes(id)
    }

    pub open spec fn passes(&self, id: Rank) -> bool {
        match self {
            IdFilter::All => true,
            IdFilter::Nothing => false,
            IdFilter::Only(v) => v@.contains(id),
            IdFilter::Except(v) => !v@.contains(id),
        }
    }

    pub fn allows(&self, id: Rank) -> (r: bool)
        ensures
            r == self.passes(id),
    {
        match self {
            IdFilter::All => true,
            IdFilter::Nothing => false,
            IdFilter::Only(v) => contains_id(v, id),
            IdFilter::Except(v) => !contains_id(v, id),
        }
    }

    /// The ids this filter does not ok_id.
    pub fn complement(&self) -> (r: IdFilter)
        ensures
            forall|id: Rank| #[trigger] r.passes(id) == !self.passes(id),
    {
        match self {
            IdFilter::All => IdFilter::Nothing,
            IdFilter::Nothing => IdFilter::All,
            IdFilter::Only(v) => IdFilter::Except(copy_ids(v)),
            IdFilter::Except(v) => IdFilter::Only(copy_ids(v)),
        }
    }
}

fn contains_id(v: &Vec<Rank>, id: Rank) -> (r: bool)
    ensures
        r == v@.contains(id),
{
    let mut i: usize = 0;
    while i < v.len()
        invariant
            i <= v@.len(),
            forall|j: int| 0 <= j < i ==> v@[j] != id,
        decreases v@.len() - i,
    {
        if v[i] == id {
            return true;
        }
        i += 1;
    }
    false
}

// ---------------------------------------------------------------------------
// The registry
// ---------------------------------------------------------------------------

pub struct SpecialTokens {
    /// (literal bytes, id), kept sorted by descending length so longest-match wins.
    entries: Vec<(Vec<u8>, Rank)>,
}

impl View for SpecialTokens {
    type V = Seq<(Seq<u8>, Rank)>;

    closed spec fn view(&self) -> Seq<(Seq<u8>, Rank)> {
        pairs_view(self.entries@)
    }
}

/// Where special `k` first occurs in `input` at or after `from`.
pub open spec fn occurrence(
    entries: Seq<(Seq<u8>, Rank)>,
    input: Seq<u8>,
    from: int,
    k: int,
) -> Option<int> {
    match first_from(input.skip(from), entries[k].0, 0) {
        Some(o) => Some(from + o),
        None => None,
    }
}

/// Special `k` is admitted and occurs at or after `from`.
pub open spec fn candidate(
    entries: Seq<(Seq<u8>, Rank)>,
    input: Seq<u8>,
    from: int,
    ok_id: spec_fn(Rank) -> bool,
    k: int,
) -> bool {
    0 <= k < entries.len() && ok_id(entries[k].1) && occurrence(entries, input, from, k) is Some
}

/// `k` is the special the scan picks: it occurs earliest, and no earlier entry
/// occurs at the same place.
pub open spec fn chosen(
    entries: Seq<(Seq<u8>, Rank)>,
    input: Seq<u8>,
    from: int,
    ok_id: spec_fn(Rank) -> bool,
    k: int,
    upto: int,
) -> bool {
    &&& 0 <= k < upto
    &&& candidate(entries, input, from, ok_id, k)
    &&& forall|j: int|
        0 <= j < upto && #[trigger] candidate(entries, input, from, ok_id, j) ==> occurrence(
            entries,
            input,
            from,
            k,
        )->Some_0 <= occurrence(entries, input, from, j)->Some_0
    &&& forall|j: int|
        0 <= j < k && #[trigger] candidate(entries, input, from, ok_id, j) ==> occurrence(
            entries,
            input,
            from,
            k,
        )->Some_0 < occurrence(entries, input, from, j)->Some_0
}

/// The special the scan picks at or after `from`: (start, end, id).
pub open spec fn next_special(
    entries: Seq<(Seq<u8>, Rank)>,
    input: Seq<u8>,
    from: int,
    ok_id: spec_fn(Rank) -> bool,
) -> Option<(int, int, Rank)> {
    if exists|k: int| chosen(entries, input, from, ok_id, k, entries.len() as int) {
        let k = choose|k: int| chosen(entries, input, from, ok_id, k, entries.len() as int);
        let s = occurrence(entries, input, from, k)->Some_0;
        Some((s, s + entries[k].0.len(), entries[k].1))
    } else {
        None
    }
}

proof fn lemma_chosen_unique(
    entries: Seq<(Seq<u8>, Rank)>,
    input: Seq<u8>,
    from: int,
    ok_id: spec_fn(Rank) -> bool,
    k1: int,
    k2: int,
)
    requires
        chosen(entries, input, from, ok_id, k1, entries.len() as int),
        chosen(entries, input, from, ok_id, k2, entries.len() as int),
    ensures
        k1 == k2,
{
    if k1 < k2 {
        assert(candidate(entries, input, from, ok_id, k1));
    } else if k2 < k1 {
        assert(candidate(entries, input, from, ok_id, k2));
    }
}

/// The bytes of the first entry with id `id`.
pub open spec fn name_spec(entries: Seq<(Seq<u8>, Rank)>, id: Rank) -> Option<Seq<u8>>
    decreases entries.len(),
{
    if entries.len() == 0 {
        None
    } else if entries[0].1 == id {
        Some(entries[0].0)
    } else {
        name_spec(entries.drop_first(), id)
    }
}

/// The id of the first entry whose bytes are `name`.
pub open spec fn id_spec(entries: Seq<(Seq<u8>, Rank)>, name: Seq<u8>) -> Option<Rank>
    decreases entries.len(),
{
    if entries.len() == 0 {
        None
    } else if entries[0].0 == name {
        Some(entries[0].1)
    } else {
        id_spec(entries.drop_first(), name)
    }
}

impl SpecialTokens {
    pub fn new(entries: Vec<(Vec<u8>, Rank)>) -> (r: Self)
        ensures
            r@ == sort_entries(pairs_view(entries@)),
    {
        let mut sorted: Vec<(Vec<u8>, Rank)> = Vec::new();
        let mut i: usize = 0;
        proof {
            assert(pairs_view(entries@.take(0)) =~= Seq::empty());
            assert(pairs_view(sorted@) =~= Seq::empty());
        }
        while i < entries.len()
            invariant
                i <= entries@.len(),
                pairs_view(sorted@) == sort_entries(pairs_view(entries@.take(i as int))),
            decreases entries@.len() - i,
        {
            let b: &Vec<u8> = &entries[i].0;
            let id = entries[i].1;
            let ghost t = pairs_view(sorted@);
            let ghost e = (b@, id);
            let mut p: usize = 0;
            proof {
                assert(t.skip(0) =~= t);
            }
            while p < sorted.len() && !precedes(b.as_slice(), sorted[p].0.as_slice())
                invariant
                    p <= sorted@.len(),
                    t == pairs_view(sorted@),
                    e == (b@, id),
                    ins_pos(t, e) == p + ins_pos(t.skip(p as int), e),
                decreases sorted@.len() - p,
            {
                proof {
                    assert(t.skip(p as int)[0] == t[p as int]);
                    assert(t.skip(p as int).drop_first() =~= t.skip(p + 1));
                }
                p += 1;
            }
            proof {
                if p < sorted@.len() {
                    assert(t.skip(p as int)[0] == t[p as int]);
                }
                assert(ins_pos(t, e) == p);
            }
            let copy = copy_bytes(b.as_slice());
            sorted.insert(p, (copy, id));
            proof {
                let pv = pairs_view(entries@.take(i + 1));
                assert(pv.drop_last() =~= pairs_view(entries@.take(i as int)));
                assert(pv.last() == e);
                assert(pairs_view(sorted@) =~= t.insert(p as int, e));
            }
            i += 1;
        }
        proof {
            assert(entries@.take(entries@.len() as int) =~= entries@);
        }
        SpecialTokens { entries: sorted }
    }

    pub fn is_empty(&self) -> (r: bool)
        ensures
            r == (self@.len() == 0),
    {
        self.entries.len() == 0
    }

    /// The entries in registry order, as (bytes, id) pairs.
    pub fn iter(&self) -> (r: Vec<(Vec<u8>, Rank)>)
        ensures
            pairs_view(r@) == self@,
    {
        let mut r: Vec<(Vec<u8>, Rank)> = Vec::new();
        let mut i: usize = 0;
        proof {
            assert(pairs_view(r@) =~= self@.take(0));
        }
        while i < self.entries.len()
            invariant
                i <= self@.len(),
                self@ == pairs_view(self.entries@),
                pairs_view(r@) == self@.take(i as int),
            decreases self@.len() - i,
        {
            let ghost before = r@;
            r.push((copy_bytes(self.entries[i].0.as_slice()), self.entries[i].1));
            proof {
                assert(pairs_view(r@) =~= pairs_view(before).push(self@[i as int]));
                assert(self@.take(i + 1) =~= self@.take(i as int).push(self@[i as int]));
            }
            i += 1;
        }
        proof {
            assert(self@.take(self@.len() as int) =~= self@);
        }
        r
    }

    /// The id of the first entry whose bytes are `name`.
    pub fn id_of(&self, name: &[u8]) -> (r: Option<Rank>)
        ensures
            r == id_spec(self@, name@),
    {
        let mut k: usize = 0;
        proof {
            assert(self@.skip(0) =~= self@);
        }
        while k < self.entries.len()
            invariant
                k <= self@.len(),
                self@ == pairs_view(self.entries@),
                id_spec(self@, name@) == id_spec(self@.skip(k as int), name@),
            decreases self@.len() - k,
        {
            proof {
                assert(self@.skip(k as int)[0] == self@[k as int]);
                assert(self@.skip(k as int).drop_first() =~= self@.skip(k + 1));
            }
            if crate::rank::bytes_eq(self.entries[k].0.as_slice(), name) {
                return Some(self.entries[k].1);
            }
            k += 1;
        }
        None
    }

    /// The bytes of the first entry with id `id`.
    pub fn name_of(&self, id: Rank) -> (r: Option<&[u8]>)
        ensures
            r matches Some(b) ==> name_spec(self@, id) == Some(b@),
            r is None ==> name_spec(self@, id) is None,
    {
        let mut k: usize = 0;
        proof {
            assert(self@.skip(0) =~= self@);
        }
        while k < self.entries.len()
            invariant
                k <= self@.len(),
                self@ == pairs_view(self.entries@),
                name_spec(self@, id) == name_spec(self@.skip(k as int), id),
            decreases self@.len() - k,
        {
            proof {
                assert(self@.skip(k as int)[0] == self@[k as int]);
                assert(self@.skip(k as int).drop_first() =~= self@.skip(k + 1));
            }
            if self.entries[k].1 == id {
                return Some(self.entries[k].0.as_slice());
            }
            k += 1;
        }
        None
    }

    /// Find the earliest special-token occurrence at or after `from`, restricted
    /// to the `allowed` set (by id). Returns (start, end, id).
    pub fn find_next(&self, input: &[u8], from: usize, allowed: &IdFilter) -> (r: Option<
        (usize, usize, Rank),
    >)
        requires
            from <= input@.len(),
        ensures
            r is None ==> next_special(self@, input@, from as int, allowed.as_pred()) is None,
            r matches Some((s, e, id)) ==> next_special(
                self@,
                input@,
                from as int,
                allowed.as_pred(),
            ) == Some((s as int, e as int, id)),
            r matches Some((s, e, id)) ==> from <= s < e <= input@.len(),
    {
        let ghost ent = self@;
        let ghost inp = input@;
        let ghost fr = from as int;
        let mut best: Option<(usize, usize, Rank)> = None;
        let ghost mut kb: int = 0;
        let rest = &input[from..input.len()];
        proof {
            assert(rest@ =~= inp.skip(fr));
        }
        let n = input.len();
        let mut k: usize = 0;
        while k < self.entries.len()
            invariant
                k <= ent.len(),
                n == input@.len(),
                ent == self@,
                ent == pairs_view(self.entries@),
                inp == input@,
                rest@ == inp.skip(fr),
                fr == from,
                from <= input@.len(),
                best is None <==> forall|j: int|
                    0 <= j < k ==> !#[trigger] candidate(ent, inp, fr, allowed.as_pred(), j),
                best matches Some((s, e, id)) ==> {
                    &&& chosen(ent, inp, fr, allowed.as_pred(), kb, k as int)
                    &&& occurrence(ent, inp, fr, kb) == Some(s as int)
                    &&& e == s + ent[kb].0.len()
                    &&& id == ent[kb].1
                    &&& from <= s <= e <= input@.len()
                },
            decreases ent.len() - k,
        {
            let bytes = self.entries[k].0.as_slice();
            let id = self.entries[k].1;
            let ghost old_best = best;
            proof {
                assert(ent[k as int] == (bytes@, id));
            }
            if allowed.allows(id) {
                match find_sub(rest, bytes) {
                    Some(off) => {
                        proof {
                            assert(occurrence(ent, inp, fr, k as int) == Some(from + off));
                            lemma_first_from_found(rest@, bytes@, 0, off as int);
                            assert(candidate(ent, inp, fr, allowed.as_pred(), k as int));
                        }
                        let s = from + off;
                        let cand = (s, s + bytes.len(), id);
                        best = match best {
                            Some(b) => {
                                if b.0 <= cand.0 {
                                    Some(b)
                                } else {
                                    proof {
                                        kb = k as int;
                                    }
                                    Some(cand)
                                }
                            },
                            None => {
                                proof {
                                    kb = k as int;
                                }
                                Some(cand)
                            },
                        };
                    },
                    None => {
                        proof {
                            assert(occurrence(ent, inp, fr, k as int) is None);
                        }
                    },
                }
            } else {
            }
            proof {
                if old_best is Some {
                    assert(candidate(ent, inp, fr, allowed.as_pred(), kb));
                }
            }
            k += 1;
        }
        proof {
            let okf = allowed.as_pred();
            if let Some((s, e, id)) = best {
                assert(chosen(ent, inp, fr, okf, kb, ent.len() as int));
                let c = choose|k: int| chosen(ent, inp, fr, okf, k, ent.len() as int);
                lemma_chosen_unique(ent, inp, fr, okf, c, kb);
                assert(ent[kb].0.len() > 0) by {
                    let o = first_from(inp.skip(fr), ent[kb].0, 0);
                    lemma_first_from_found(inp.skip(fr), ent[kb].0, 0, o->Some_0);
                }
            } else {
                if exists|k: int| chosen(ent, inp, fr, okf, k, ent.len() as int) {
                    let c = choose|k: int| chosen(ent, inp, fr, okf, k, ent.len() as int);
                    assert(candidate(ent, inp, fr, okf, c));
                }
            }
        }
        best
    }
}

/// A found occurrence lies inside the haystack.
pub proof fn lemma_first_from_found(hay: Seq<u8>, needle: Seq<u8>, i: int, s: int)
    requires
        first_from(hay, needle, i) == Some(s),
    ensures
        occurs_at(hay, needle, s),
        i <= s,
    decreases hay.len() - i,
{
    if !(i < 0 || i + needle.len() > hay.len() || needle.len() == 0) && !occurs_at(hay, needle, i) {
        lemma_first_from_found(hay, needle, i + 1, s);
    }
}


// ---------------------------------------------------------------------------
// Laws of the registry order
// ---------------------------------------------------------------------------

/// No entry comes strictly before an earlier one.
pub open spec fn sorted(s: Seq<(Seq<u8>, Rank)>) -> bool {
    forall|i: int, j: int| 0 <= i < j < s.len() ==> !before(#[trigger] s[j].0, #[trigger] s[i].0)
}

proof fn lemma_lex_lt_trans(a: Seq<u8>, b: Seq<u8>, c: Seq<u8>)
    requires
        lex_lt(a, b),
        lex_lt(b, c),
    ensures
        lex_lt(a, c),
    decreases a.len(),
{
    if a.len() > 0 && b.len() > 0 && c.len() > 0 && a[0] == b[0] && b[0] == c[0] {
        lemma_lex_lt_trans(a.drop_first(), b.drop_first(), c.drop_first());
    }
}

proof fn lemma_lex_lt_irrefl(a: Seq<u8>)
    ensures
        !lex_lt(a, a),
    decreases a.len(),
{
    if a.len() > 0 {
        lemma_lex_lt_irrefl(a.drop_first());
    }
}

proof fn lemma_before_trans(a: Seq<u8>, b: Seq<u8>, c: Seq<u8>)
    requires
        before(a, b),
        before(b, c),
    ensures
        before(a, c),
{
    if a.len() == b.len() && b.len() == c.len() {
        lemma_lex_lt_trans(a, b, c);
    }
}

proof fn lemma_ins_pos(t: Seq<(Seq<u8>, Rank)>, e: (Seq<u8>, Rank))
    ensures
        0 <= ins_pos(t, e) <= t.len(),
        forall|i: int| 0 <= i < ins_pos(t, e) ==> !before(e.0, #[trigger] t[i].0),
        ins_pos(t, e) < t.len() ==> before(e.0, t[ins_pos(t, e)].0),
    decreases t.len(),
{
    if t.len() > 0 && !before(e.0, t[0].0) {
        lemma_ins_pos(t.drop_first(), e);
        assert forall|i: int| 0 <= i < ins_pos(t, e) implies !before(e.0, #[trigger] t[i].0) by {
            if i > 0 {
                assert(t[i] == t.drop_first()[i - 1]);
            }
        }
    }
}

/// The registry order sorts: longer specials first, then byte order, and no
/// entry comes before one listed earlier.
pub proof fn lemma_sort_entries_sorted(s: Seq<(Seq<u8>, Rank)>)
    ensures
        sorted(sort_entries(s)),
    decreases s.len(),
{
    if s.len() > 0 {
        let t = sort_entries(s.drop_last());
        let e = s.last();
        lemma_sort_entries_sorted(s.drop_last());
        lemma_ins_pos(t, e);
        let p = ins_pos(t, e);
        let r = t.insert(p, e);
        assert forall|i: int, j: int| 0 <= i < j < r.len() implies !before(
            #[trigger] r[j].0,
            #[trigger] r[i].0,
        ) by {
            if j < p {
                assert(r[i] == t[i] && r[j] == t[j]);
            } else if j == p {
                assert(r[i] == t[i]);
            } else if i == p {
                assert(r[j] == t[j - 1]);
                if p < t.len() {
                    if j - 1 > p {
                        assert(!before(t[j - 1].0, t[p].0));
                    }
                    if before(t[j - 1].0, e.0) {
                        lemma_before_trans(t[j - 1].0, e.0, t[p].0);
                        if j - 1 == p {
                            lemma_lex_lt_irrefl(t[p].0);
                        }
                    }
                }
            } else if i < p {
                assert(r[i] == t[i] && r[j] == t[j - 1]);
            } else {
                assert(r[i] == t[i - 1] && r[j] == t[j - 1]);
            }
        }
    }
}

/// The registry holds exactly the entries it was given.
pub proof fn lemma_sort_entries_permutes(s: Seq<(Seq<u8>, Rank)>)
    ensures
        sort_entries(s).to_multiset() == s.to_multiset(),
    decreases s.len(),
{
    broadcast use vstd::seq_lib::group_to_multiset_ensures;

    if s.len() > 0 {
        let t = sort_entries(s.drop_last());
        let e = s.last();
        lemma_sort_entries_permutes(s.drop_last());
        lemma_ins_pos(t, e);
        let p = ins_pos(t, e);
        let r = t.insert(p, e);
        assert(r.remove(p) =~= t);
        assert(r[p] == e);
        assert(r.to_multiset() =~= t.to_multiset().insert(e)) by {
            assert(r.to_multiset().remove(e) =~= t.to_multiset());
            assert(r.to_multiset().count(e) > 0) by {
                assert(r.contains(e));
            }
        }
        assert(s.drop_last().push(e) =~= s);
    } else {
        assert(s.to_multiset() =~= vstd::multiset::Multiset::empty());
        assert(sort_entries(s).to_multiset() =~= vstd::multiset::Multiset::empty());
    }
}

/// In a sorted registry, the special the scan picks is a longest one of those
/// that occur at the earliest place.
pub proof fn lemma_find_next_longest(
    entries: Seq<(Seq<u8>, Rank)>,
    input: Seq<u8>,
    from: int,
    ok_id: spec_fn(Rank) -> bool,
    k: int,
    j: int,
)
    requires
        sorted(entries),
        chosen(entries, input, from, ok_id, k, entries.len() as int),
        candidate(entries, input, from, ok_id, j),
        occurrence(entries, input, from, j) == occurrence(entries, input, from, k),
    ensures
        entries[j].0.len() <= entries[k].0.len(),
{
    if j > k {
        assert(!before(entries[j].0, entries[k].0));
    }
}

} // verus!
