//! Linear-time BPE by greedy longest match with backtracking (the algorithm of
//! the `bpe` crate that quicktok and bpe-openai use): take the longest token
//! that prefixes the rest of the piece, keep it while it forms a valid pair
//! with the token before it, and back off to shorter prefixes or earlier cuts
//! when it does not.
//!
//! A pair `t1 t2` is valid when BPE would not have merged across the
//! boundary between them; that is decided from the split of every merged
//! token into the two tokens it was made from.
use crate::bpe::bpe_piece;
use crate::rank::{
    copy_bytes, last_bytes, pairs_view, LongTable, Rank, RankLookup, MAX_ENTRIES, RANK_MAX,
};
use std::collections::HashMap;
use vstd::prelude::*;

verus! {

broadcast use vstd::std_specs::hash::group_hash_axioms;

// ---------------------------------------------------------------------------
// The vocabulary, by value
// ---------------------------------------------------------------------------

/// The nonempty tokens with their ids, in id order.
pub open spec fn token_entries(tb: Seq<Seq<u8>>) -> Seq<(Seq<u8>, Rank)>
    decreases tb.len(),
{
    if tb.len() == 0 {
        Seq::empty()
    } else if tb.last().len() > 0 {
        token_entries(tb.drop_last()).push((tb.last(), (tb.len() - 1) as Rank))
    } else {
        token_entries(tb.drop_last())
    }
}

/// The id of the token whose bytes are `k` (the highest such id).
pub open spec fn token_id(tb: Seq<Seq<u8>>, k: Seq<u8>) -> Option<Rank> {
    last_bytes(token_entries(tb), k)
}

/// The longest length `m <= l` (at least 1) whose prefix of `text` is a token.
pub open spec fn longest_len(tb: Seq<Seq<u8>>, text: Seq<u8>, l: int) -> Option<int>
    decreases l,
{
    if l < 1 {
        None
    } else if token_id(tb, text.take(l)) is Some {
        Some(l)
    } else {
        longest_len(tb, text, l - 1)
    }
}

/// The id of the longest token that is a prefix of `text` no longer than `l`
/// bytes, or `RANK_MAX`.
pub open spec fn prefix_match(tb: Seq<Seq<u8>>, text: Seq<u8>, l: int) -> Rank {
    match longest_len(tb, text, l) {
        Some(m) => token_id(tb, text.take(m))->Some_0,
        None => RANK_MAX,
    }
}

/// The key of the pair `(t1, t2)` in the pair table.
pub open spec fn pair_key(t1: u32, t2: u32) -> u64 {
    ((t1 as u64) * 0x1_0000_0000 + (t2 as u64)) as u64
}

/// Each token is a base token (split into itself) or splits into two earlier
/// tokens whose bytes make it up.
pub open spec fn splits_ok(tb: Seq<Seq<u8>>, split: Seq<(u32, u32)>) -> bool {
    forall|x: int|
        0 <= x < split.len() ==> {
            let s = #[trigger] split[x];
            ||| s == (x as u32, x as u32)
            ||| s.0 < x && s.1 < x && tb[s.0 as int] + tb[s.1 as int] == tb[x]
        }
}

/// Every pair in the pair table names the token it merges into.
pub open spec fn pairs_ok(split: Seq<(u32, u32)>, pl: Map<u64, u32>) -> bool {
    forall|key: u64|
        #[trigger] pl.contains_key(key) ==> {
            let id = pl[key];
            &&& id < split.len()
            &&& split[id as int] != (id, id)
            &&& key == pair_key(split[id as int].0, split[id as int].1)
        }
}

/// Whether `[.., t1, t2]` is a valid BPE output: BPE would not have merged
/// across the `t1|t2` boundary. Peels the later-made of the two tokens back to
/// its parts until a merge is found across the boundary below `limit`, or
/// both sides are base tokens.
pub open spec fn valid_pair(
    split: Seq<(u32, u32)>,
    pl: Map<u64, u32>,
    t1: u32,
    t2: u32,
    limit: u32,
) -> bool
    decreases t1 + t2,
{
    let key = pair_key(t1, t2);
    let c = if pl.contains_key(key) {
        pl[key]
    } else {
        RANK_MAX
    };
    if c != RANK_MAX && c < limit {
        false
    } else if t1 > t2 {
        let n1 = split[t1 as int].1;
        if n1 == t1 {
            let n2 = split[t2 as int].0;
            if n2 == t2 {
                true
            } else if n2 < t2 {
                valid_pair(split, pl, t1, n2, (t2 + 1) as u32)
            } else {
                false
            }
        } else if n1 < t1 {
            valid_pair(split, pl, n1, t2, t1)
        } else {
            false
        }
    } else {
        let n2 = split[t2 as int].0;
        if n2 == t2 {
            let n1 = split[t1 as int].1;
            if n1 == t1 {
                true
            } else if n1 < t1 {
                valid_pair(split, pl, n1, t2, t1)
            } else {
                false
            }
        } else if n2 < t2 {
            valid_pair(split, pl, t1, n2, (t2 + 1) as u32)
        } else {
            false
        }
    }
}

/// The bytes of a token sequence.
pub open spec fn spell(tb: Seq<Seq<u8>>, toks: Seq<Rank>) -> Seq<u8>
    decreases toks.len(),
{
    if toks.len() == 0 {
        Seq::empty()
    } else {
        spell(tb, toks.drop_last()) + tb[toks.last() as int]
    }
}

/// Every adjacent pair of `toks` is valid.
pub open spec fn pairs_valid(split: Seq<(u32, u32)>, pl: Map<u64, u32>, toks: Seq<Rank>) -> bool {
    forall|i: int|
        0 <= i < toks.len() - 1 ==> valid_pair(split, pl, #[trigger] toks[i], toks[i + 1], RANK_MAX)
}

// ---------------------------------------------------------------------------
// Facts about token ids
// ---------------------------------------------------------------------------

proof fn lemma_token_entries(tb: Seq<Seq<u8>>, i: int)
    requires
        tb.len() < RANK_MAX,
        0 <= i < token_entries(tb).len(),
    ensures
        ({
            let e = token_entries(tb)[i];
            &&& e.1 < tb.len()
            &&& tb[e.1 as int] == e.0
            &&& e.0.len() > 0
        }),
    decreases tb.len(),
{
    let init = token_entries(tb.drop_last());
    if i < init.len() {
        lemma_token_entries(tb.drop_last(), i);
        if tb.last().len() > 0 {
            assert(token_entries(tb)[i] == init[i]);
        }
    }
}

proof fn lemma_last_bytes_in(entries: Seq<(Seq<u8>, Rank)>, k: Seq<u8>)
    requires
        last_bytes(entries, k) is Some,
    ensures
        exists|i: int|
            0 <= i < entries.len() && entries[i].0 == k && entries[i].1 == last_bytes(
                entries,
                k,
            )->Some_0,
    decreases entries.len(),
{
    if entries.last().0 != k {
        lemma_last_bytes_in(entries.drop_last(), k);
        let i = choose|i: int|
            0 <= i < entries.drop_last().len() && entries.drop_last()[i].0 == k
                && entries.drop_last()[i].1 == last_bytes(entries.drop_last(), k)->Some_0;
        assert(entries[i] == entries.drop_last()[i]);
    } else {
        assert(entries[entries.len() - 1] == entries.last());
    }
}

/// A token id names a token with exactly those bytes.
pub proof fn lemma_token_id(tb: Seq<Seq<u8>>, k: Seq<u8>)
    requires
        tb.len() < RANK_MAX,
    ensures
        token_id(tb, k) matches Some(id) ==> id < tb.len() && tb[id as int] == k && k.len() > 0,
{
    if token_id(tb, k) is Some {
        lemma_last_bytes_in(token_entries(tb), k);
        let i = choose|i: int|
            0 <= i < token_entries(tb).len() && token_entries(tb)[i].0 == k
                && token_entries(tb)[i].1 == token_id(tb, k)->Some_0;
        lemma_token_entries(tb, i);
    }
}

/// The longest match is a prefix token of the right length.
pub proof fn lemma_longest_len(tb: Seq<Seq<u8>>, text: Seq<u8>, l: int)
    requires
        tb.len() < RANK_MAX,
        l <= text.len(),
    ensures
        longest_len(tb, text, l) matches Some(m) ==> {
            &&& 1 <= m <= l
            &&& prefix_match(tb, text, l) < tb.len()
            &&& tb[prefix_match(tb, text, l) as int] == text.take(m)
        },
        longest_len(tb, text, l) is None ==> prefix_match(tb, text, l) == RANK_MAX,
    decreases l,
{
    if l >= 1 && token_id(tb, text.take(l)) is None {
        lemma_longest_len(tb, text, l - 1);
    }
    if let Some(m) = longest_len(tb, text, l) {
        lemma_token_id(tb, text.take(m));
    }
}

// ---------------------------------------------------------------------------
// Longest-prefix search
// ---------------------------------------------------------------------------

/// The id of the longest token that prefixes `text[..l]`, or `RANK_MAX`.
fn match_prefix(
    index: &LongTable,
    Ghost(tb): Ghost<Seq<Seq<u8>>>,
    max_len: usize,
    text: &[u8],
    l: usize,
) -> (r: Rank)
    requires
        index.wf(),
        tb.len() < RANK_MAX,
        forall|k: Seq<u8>| #[trigger] index.lookup(k) == token_id(tb, k),
        forall|id: int| 0 <= id < tb.len() ==> (#[trigger] tb[id]).len() <= max_len,
        l <= text@.len(),
    ensures
        r == prefix_match(tb, text@, l as int),
{
    let mut m: usize = if l < max_len {
        l
    } else {
        max_len
    };
    proof {
        if l > max_len {
            lemma_above_max(tb, text@, max_len as int, l as int);
        }
    }
    while m > 0
        invariant
            index.wf(),
            tb.len() < RANK_MAX,
            forall|k: Seq<u8>| #[trigger] index.lookup(k) == token_id(tb, k),
            m <= l <= text@.len(),
            longest_len(tb, text@, l as int) == longest_len(tb, text@, m as int),
        decreases m,
    {
        let key = &text[0..m];
        proof {
            assert(key@ =~= text@.take(m as int));
        }
        match index.get(key) {
            Some(id) => {
                return id;
            },
            None => {},
        }
        m -= 1;
    }
    RANK_MAX
}

/// The longest token prefix of `text[..l]` has length `k` when that prefix is
/// a token and no longer prefix up to `l` is.
proof fn lemma_longest_len_at(tb: Seq<Seq<u8>>, text: Seq<u8>, l: int, k: int)
    requires
        1 <= k <= l,
        token_id(tb, text.take(k)) is Some,
        forall|j: int| k < j <= l ==> token_id(tb, #[trigger] text.take(j)) is None,
    ensures
        longest_len(tb, text, l) == Some(k),
    decreases l,
{
    if l > k {
        assert(token_id(tb, text.take(l)) is None);
        lemma_longest_len_at(tb, text, l - 1, k);
    }
}

/// Cuts that increase step by step increase overall.
proof fn lemma_cuts_increasing(c: Seq<int>, a: int, b: int)
    requires
        0 <= a <= b < c.len(),
        forall|i: int| 0 <= i < c.len() - 1 ==> c[i] < #[trigger] c[i + 1],
    ensures
        c[a] <= c[b],
        a < b ==> c[a] < c[b],
    decreases b - a,
{
    if a < b {
        lemma_cuts_increasing(c, a + 1, b);
        assert(c[a] < c[a + 1]);
    }
}

/// Prefixes longer than every token are not tokens.
proof fn lemma_above_max(tb: Seq<Seq<u8>>, text: Seq<u8>, max_len: int, j: int)
    requires
        tb.len() < RANK_MAX,
        forall|id: int| 0 <= id < tb.len() ==> (#[trigger] tb[id]).len() <= max_len,
        0 <= max_len <= j <= text.len(),
    ensures
        longest_len(tb, text, j) == longest_len(tb, text, max_len),
    decreases j - max_len,
{
    if j > max_len {
        lemma_token_id(tb, text.take(j));
        lemma_above_max(tb, text, max_len, j - 1);
    }
}


// ---------------------------------------------------------------------------
// Pair validity
// ---------------------------------------------------------------------------

/// Each entry is a base token or splits into two smaller ids.
pub open spec fn split_shape(split: Seq<(u32, u32)>) -> bool {
    forall|x: int|
        0 <= x < split.len() ==> {
            let s = #[trigger] split[x];
            s == (x as u32, x as u32) || (s.0 < x && s.1 < x)
        }
}

proof fn lemma_splits_shape(tb: Seq<Seq<u8>>, split: Seq<(u32, u32)>)
    requires
        splits_ok(tb, split),
    ensures
        split_shape(split),
{
    assert forall|x: int| 0 <= x < split.len() implies {
        let s = #[trigger] split[x];
        s == (x as u32, x as u32) || (s.0 < x && s.1 < x)
    } by {
        let s = split[x];
        assert(s == (x as u32, x as u32) || (s.0 < x && s.1 < x && tb[s.0 as int] + tb[s.1 as int]
            == tb[x]));
    }
}

/// Whether `[.., t1, t2]` is a valid BPE output (see `valid_pair`).
fn is_valid_token_pair(split: &Vec<(u32, u32)>, pl: &HashMap<u64, u32>, t1: u32, t2: u32) -> (r:
    bool)
    requires
        t1 < split@.len(),
        t2 < split@.len(),
        split@.len() < RANK_MAX,
        split_shape(split@),
    ensures
        r == valid_pair(split@, pl@, t1, t2, RANK_MAX),
{
    let mut x1 = t1;
    let mut x2 = t2;
    let mut limit: u32 = RANK_MAX;
    loop
        invariant
            x1 < split@.len(),
            x2 < split@.len(),
            split@.len() < RANK_MAX,
            split_shape(split@),
            valid_pair(split@, pl@, x1, x2, limit) == valid_pair(split@, pl@, t1, t2, RANK_MAX),
        decreases x1 + x2,
    {
        let ghost a = x1;
        let ghost b = x2;
        let ghost lim = limit;
        let key: u64 = (x1 as u64) * 0x1_0000_0000 + (x2 as u64);
        let c = match pl.get(&key) {
            Some(v) => *v,
            None => RANK_MAX,
        };
        proof {
            assert(key == pair_key(x1, x2));
            let s1 = split@[x1 as int];
            let s2 = split@[x2 as int];
            assert(s1 == (x1, x1) || (s1.0 < x1 && s1.1 < x1));
            assert(s2 == (x2, x2) || (s2.0 < x2 && s2.1 < x2));
        }
        if c != RANK_MAX && c < limit {
            proof {
                assert(!valid_pair(split@, pl@, a, b, lim));
            }
            return false;
        }
        if x1 > x2 {
            limit = x1;
            x1 = split[x1 as usize].1;
            if x1 == limit {
                limit = x2 + 1;
                x2 = split[x2 as usize].0;
                if x2 + 1 == limit {
                    proof {
                        assert(valid_pair(split@, pl@, a, b, lim));
                    }
                    return true;
                }
            }
        } else {
            limit = x2 + 1;
            x2 = split[x2 as usize].0;
            if x2 + 1 == limit {
                limit = x1;
                x1 = split[x1 as usize].1;
                if x1 == limit {
                    proof {
                        assert(valid_pair(split@, pl@, a, b, lim));
                    }
                    return true;
                }
            }
        }
        proof {
            assert(valid_pair(split@, pl@, a, b, lim) == valid_pair(split@, pl@, x1, x2, limit));
        }
    }
}

/// `u` is `t` or one of the tokens met by splitting `t` repeatedly and
/// keeping the right part: the tokens that can end `t`'s bytes.
pub open spec fn right_spine(split: Seq<(u32, u32)>, t: u32, u: u32) -> bool
    decreases t,
{
    if u == t {
        true
    } else if t < split.len() && split[t as int].1 < t {
        right_spine(split, split[t as int].1, u)
    } else {
        false
    }
}

/// `v` is `t` or one of the tokens met by splitting `t` repeatedly and
/// keeping the left part: the tokens that can begin `t`'s bytes.
pub open spec fn left_spine(split: Seq<(u32, u32)>, t: u32, v: u32) -> bool
    decreases t,
{
    if v == t {
        true
    } else if t < split.len() && split[t as int].0 < t {
        left_spine(split, split[t as int].0, v)
    } else {
        false
    }
}

proof fn lemma_right_spine_step(split: Seq<(u32, u32)>, t: u32, u: u32)
    requires
        right_spine(split, t, u),
        u < split.len(),
        split[u as int].1 < u,
    ensures
        right_spine(split, t, split[u as int].1),
        u <= t,
    decreases t,
{
    let w = split[u as int].1;
    if u != t {
        lemma_right_spine_step(split, split[t as int].1, u);
        assert(right_spine(split, split[t as int].1, w));
    } else {
        assert(right_spine(split, w, w));
    }
}

proof fn lemma_left_spine_step(split: Seq<(u32, u32)>, t: u32, v: u32)
    requires
        left_spine(split, t, v),
        v < split.len(),
        split[v as int].0 < v,
    ensures
        left_spine(split, t, split[v as int].0),
        v <= t,
    decreases t,
{
    let w = split[v as int].0;
    if v != t {
        lemma_left_spine_step(split, split[t as int].0, v);
        assert(left_spine(split, split[t as int].0, w));
    } else {
        assert(left_spine(split, w, w));
    }
}

proof fn lemma_right_spine_le(split: Seq<(u32, u32)>, t: u32, u: u32)
    requires
        right_spine(split, t, u),
    ensures
        u <= t,
    decreases t,
{
    if u != t {
        lemma_right_spine_le(split, split[t as int].1, u);
    }
}

proof fn lemma_left_spine_le(split: Seq<(u32, u32)>, t: u32, v: u32)
    requires
        left_spine(split, t, v),
    ensures
        v <= t,
    decreases t,
{
    if v != t {
        lemma_left_spine_le(split, split[t as int].0, v);
    }
}

/// Every merge across the `t1|t2` boundary ranks after both tokens.
pub open spec fn only_late_merges(split: Seq<(u32, u32)>, pl: Map<u64, u32>, t1: u32, t2: u32) -> bool {
    forall|u: u32, v: u32|
        #![trigger right_spine(split, t1, u), left_spine(split, t2, v)]
        right_spine(split, t1, u) && left_spine(split, t2, v) && pl.contains_key(pair_key(u, v))
            ==> pl[pair_key(u, v)] > t1 && pl[pair_key(u, v)] > t2
}

proof fn lemma_valid_pair_from(
    split: Seq<(u32, u32)>,
    pl: Map<u64, u32>,
    t1: u32,
    t2: u32,
    x1: u32,
    x2: u32,
    lim: u32,
)
    requires
        split_shape(split),
        t1 < split.len(),
        t2 < split.len(),
        !pl.contains_key(pair_key(t1, t2)),
        only_late_merges(split, pl, t1, t2),
        right_spine(split, t1, x1),
        left_spine(split, t2, x2),
        (x1 == t1 && x2 == t2) || lim <= t1 || lim <= t2 + 1,
    ensures
        valid_pair(split, pl, x1, x2, lim),
    decreases x1 + x2,
{
    lemma_right_spine_le(split, t1, x1);
    lemma_left_spine_le(split, t2, x2);
    let s1 = split[x1 as int];
    let s2 = split[x2 as int];
    assert(s1 == (x1, x1) || (s1.0 < x1 && s1.1 < x1));
    assert(s2 == (x2, x2) || (s2.0 < x2 && s2.1 < x2));
    if pl.contains_key(pair_key(x1, x2)) {
        assert(pl[pair_key(x1, x2)] > t1 && pl[pair_key(x1, x2)] > t2);
    }
    if x1 > x2 {
        if s1.1 == x1 {
            if s2.0 != x2 {
                lemma_left_spine_step(split, t2, x2);
                lemma_valid_pair_from(split, pl, t1, t2, x1, s2.0, (x2 + 1) as u32);
            }
        } else {
            lemma_right_spine_step(split, t1, x1);
            lemma_valid_pair_from(split, pl, t1, t2, s1.1, x2, x1);
        }
    } else {
        if s2.0 == x2 {
            if s1.1 != x1 {
                lemma_right_spine_step(split, t1, x1);
                lemma_valid_pair_from(split, pl, t1, t2, s1.1, x2, x1);
            }
        } else {
            lemma_left_spine_step(split, t2, x2);
            lemma_valid_pair_from(split, pl, t1, t2, x1, s2.0, (x2 + 1) as u32);
        }
    }
}

/// A pair that does not itself merge, and across whose boundary every merge
/// ranks after both of its tokens, is valid: a merge that BPE would apply
/// only after building both tokens cannot have taken place.
pub proof fn lemma_valid_pair_late_merges(
    split: Seq<(u32, u32)>,
    pl: Map<u64, u32>,
    t1: u32,
    t2: u32,
)
    requires
        split_shape(split),
        t1 < split.len(),
        t2 < split.len(),
        !pl.contains_key(pair_key(t1, t2)),
        only_late_merges(split, pl, t1, t2),
    ensures
        valid_pair(split, pl, t1, t2, RANK_MAX),
{
    lemma_valid_pair_from(split, pl, t1, t2, t1, t2, RANK_MAX);
}

/// A pair that merges directly is never valid.
pub proof fn lemma_valid_pair_not_merged(
    split: Seq<(u32, u32)>,
    pl: Map<u64, u32>,
    t1: u32,
    t2: u32,
)
    requires
        pl.contains_key(pair_key(t1, t2)),
        pl[pair_key(t1, t2)] < RANK_MAX,
    ensures
        !valid_pair(split, pl, t1, t2, RANK_MAX),
{
}

// ---------------------------------------------------------------------------
// The vocabulary
// ---------------------------------------------------------------------------

/// The token table that loading `pairs` into `n` ids gives: each id holds the
/// bytes of the last pair listed with it, or nothing.
pub open spec fn table_of(pairs: Seq<(Seq<u8>, Rank)>, n: nat) -> Seq<Seq<u8>>
    decreases pairs.len(),
{
    if pairs.len() == 0 {
        Seq::new(n, |i: int| Seq::<u8>::empty())
    } else {
        table_of(pairs.drop_last(), n).update(pairs.last().1 as int, pairs.last().0)
    }
}

/// The split loading gives the token with bytes `t` and id `id`, looking at
/// its proper prefixes of at most `m` bytes, longest first: the first prefix
/// that is a token `a < id` whose rest is a token `b < id`, with `a b` a valid
/// pair under the splits and pair table of the tokens before it.
pub open spec fn split_choice(
    tb: Seq<Seq<u8>>,
    split: Seq<(u32, u32)>,
    pl: Map<u64, u32>,
    id: int,
    t: Seq<u8>,
    m: int,
) -> Option<(u32, u32)>
    decreases m,
{
    if m < 1 {
        None
    } else {
        let a = token_id(tb, t.take(m));
        let b = token_id(tb, t.skip(m));
        if a is Some && b is Some && a->Some_0 < id && b->Some_0 < id && valid_pair(
            split,
            pl,
            a->Some_0,
            b->Some_0,
            RANK_MAX,
        ) {
            Some((a->Some_0, b->Some_0))
        } else {
            split_choice(tb, split, pl, id, t, m - 1)
        }
    }
}

/// The splits and pair table of the first `n` tokens: each token splits into
/// its `split_choice`, whose pair then merges into it, or into itself.
pub open spec fn split_table(tb: Seq<Seq<u8>>, n: nat) -> (Seq<(u32, u32)>, Map<u64, u32>)
    decreases n,
{
    if n == 0 {
        (Seq::empty(), Map::empty())
    } else {
        let id = n - 1;
        let (split, pl) = split_table(tb, id as nat);
        let t = tb[id];
        match split_choice(tb, split, pl, id, t, t.len() - 1) {
            Some((a, b)) => (split.push((a, b)), pl.insert(pair_key(a, b), id as u32)),
            None => (split.push((id as u32, id as u32)), pl),
        }
    }
}

/// Lengths with no token prefix are passed over.
proof fn lemma_split_choice_skip(
    tb: Seq<Seq<u8>>,
    split: Seq<(u32, u32)>,
    pl: Map<u64, u32>,
    id: int,
    t: Seq<u8>,
    l: int,
)
    ensures
        longest_len(tb, t, l) matches Some(m) ==> split_choice(tb, split, pl, id, t, l)
            == split_choice(tb, split, pl, id, t, m),
        longest_len(tb, t, l) is None ==> split_choice(tb, split, pl, id, t, l) is None,
    decreases l,
{
    if l >= 1 && token_id(tb, t.take(l)) is None {
        lemma_split_choice_skip(tb, split, pl, id, t, l - 1);
    }
}

/// The longest token prefix of a prefix is the longest token prefix of the
/// whole, up to the prefix's length.
proof fn lemma_longest_len_take(tb: Seq<Seq<u8>>, t: Seq<u8>, k: int, l: int)
    requires
        l <= k <= t.len(),
    ensures
        longest_len(tb, t.take(k), l) == longest_len(tb, t, l),
        prefix_match(tb, t.take(k), l) == prefix_match(tb, t, l),
    decreases l,
{
    if l >= 1 {
        assert(t.take(k).take(l) =~= t.take(l));
        lemma_longest_len_take(tb, t, k, l - 1);
        if let Some(m) = longest_len(tb, t, l) {
            lemma_longest_len_le(tb, t, l);
            assert(t.take(k).take(m) =~= t.take(m));
        }
    }
}

proof fn lemma_longest_len_le(tb: Seq<Seq<u8>>, text: Seq<u8>, l: int)
    ensures
        longest_len(tb, text, l) matches Some(m) ==> 1 <= m <= l && token_id(tb, text.take(m))
            is Some,
    decreases l,
{
    if l >= 1 && token_id(tb, text.take(l)) is None {
        lemma_longest_len_le(tb, text, l - 1);
    }
}

/// No two pairs share an id.
pub open spec fn ids_distinct(pairs: Seq<(Seq<u8>, Rank)>) -> bool {
    forall|i: int, j: int| 0 <= i < j < pairs.len() ==> pairs[i].1 != pairs[j].1
}

/// Every id is below `n`.
pub open spec fn ids_below(pairs: Seq<(Seq<u8>, Rank)>, n: nat) -> bool {
    forall|k: int| 0 <= k < pairs.len() ==> (#[trigger] pairs[k]).1 < n
}

proof fn lemma_ids_below_init(pairs: Seq<(Seq<u8>, Rank)>, n: nat)
    requires
        ids_below(pairs, n),
        pairs.len() > 0,
    ensures
        ids_below(pairs.drop_last(), n),
        pairs.last().1 < n,
{
    let init = pairs.drop_last();
    assert forall|k: int| 0 <= k < init.len() implies (#[trigger] init[k]).1 < n by {
        assert(init[k] == pairs[k]);
    }
    assert(pairs[pairs.len() - 1] == pairs.last());
}

proof fn lemma_table_of_len(pairs: Seq<(Seq<u8>, Rank)>, n: nat)
    requires
        ids_below(pairs, n),
    ensures
        table_of(pairs, n).len() == n,
    decreases pairs.len(),
{
    if pairs.len() > 0 {
        lemma_ids_below_init(pairs, n);
        lemma_table_of_len(pairs.drop_last(), n);
    }
}

/// With distinct ids, id `i` holds the bytes listed with it, or nothing.
proof fn lemma_table_of_at(pairs: Seq<(Seq<u8>, Rank)>, n: nat, i: Rank)
    requires
        ids_distinct(pairs),
        ids_below(pairs, n),
        i < n,
    ensures
        forall|x: Seq<u8>| #[trigger] pairs.contains((x, i)) ==> table_of(pairs, n)[i as int] == x,
        (forall|k: int| 0 <= k < pairs.len() ==> pairs[k].1 != i) ==> table_of(pairs, n)[i as int]
            == Seq::<u8>::empty(),
    decreases pairs.len(),
{
    lemma_table_of_len(pairs, n);
    if pairs.len() > 0 {
        let init = pairs.drop_last();
        lemma_ids_below_init(pairs, n);
        assert(ids_distinct(init)) by {
            assert forall|a: int, b: int| 0 <= a < b < init.len() implies init[a].1 != init[b].1 by {
                assert(init[a] == pairs[a] && init[b] == pairs[b]);
            }
        }
        lemma_table_of_at(init, n, i);
        lemma_table_of_len(init, n);
        assert forall|x: Seq<u8>| #[trigger] pairs.contains((x, i)) implies table_of(pairs, n)[i as int]
            == x by {
            let k = choose|k: int| 0 <= k < pairs.len() && pairs[k] == (x, i);
            if k < pairs.len() - 1 {
                assert(pairs[pairs.len() - 1].1 != pairs[k].1);
                assert(init[k] == pairs[k]);
                assert(init.contains((x, i)));
            } else {
                assert(pairs.last() == (x, i));
            }
        }
        if forall|k: int| 0 <= k < pairs.len() ==> pairs[k].1 != i {
            assert forall|k: int| 0 <= k < init.len() implies init[k].1 != i by {
                assert(init[k] == pairs[k]);
            }
            assert(pairs[pairs.len() - 1].1 != i);
        }
    }
}

/// Listing the same (bytes, id) pairs in another order gives the same token
/// table, when no two pairs share an id.
pub proof fn lemma_table_of_reorder(a: Seq<(Seq<u8>, Rank)>, b: Seq<(Seq<u8>, Rank)>, n: nat)
    requires
        a.to_multiset() == b.to_multiset(),
        ids_distinct(a),
        ids_distinct(b),
        ids_below(a, n),
        ids_below(b, n),
    ensures
        table_of(a, n) == table_of(b, n),
{
    broadcast use vstd::seq_lib::group_to_multiset_ensures;

    lemma_table_of_len(a, n);
    lemma_table_of_len(b, n);
    assert forall|x: int| 0 <= x < n implies table_of(a, n)[x] == table_of(b, n)[x] by {
        if x <= u32::MAX {
            let i = x as Rank;
            lemma_table_of_at(a, n, i);
            lemma_table_of_at(b, n, i);
            if exists|k: int| 0 <= k < a.len() && a[k].1 == i {
                let k = choose|k: int| 0 <= k < a.len() && a[k].1 == i;
                let e = a[k];
                assert(a.contains(e));
                assert(a.to_multiset().count(e) > 0);
                assert(b.to_multiset().count(e) > 0);
                assert(b.contains(e));
                assert(e == (e.0, i));
            } else if exists|k: int| 0 <= k < b.len() && b[k].1 == i {
                let k = choose|k: int| 0 <= k < b.len() && b[k].1 == i;
                let e = b[k];
                assert(b.contains(e));
                assert(b.to_multiset().count(e) > 0);
                assert(a.to_multiset().count(e) > 0);
                assert(a.contains(e));
            }
        } else {
            lemma_table_of_beyond(a, n, x);
            lemma_table_of_beyond(b, n, x);
        }
    }
    assert(table_of(a, n) =~= table_of(b, n));
}

/// No id reaches past `u32::MAX`, so those slots stay empty.
proof fn lemma_table_of_beyond(pairs: Seq<(Seq<u8>, Rank)>, n: nat, x: int)
    requires
        ids_below(pairs, n),
        u32::MAX < x < n,
    ensures
        table_of(pairs, n)[x] == Seq::<u8>::empty(),
    decreases pairs.len(),
{
    if pairs.len() > 0 {
        lemma_ids_below_init(pairs, n);
        lemma_table_of_beyond(pairs.drop_last(), n, x);
        lemma_table_of_len(pairs.drop_last(), n);
    }
}

pub struct Vocab {
    tokens: Vec<Vec<u8>>,
    n: u32,
    index: LongTable,
    max_len: usize,
    npm: Vec<u32>,
    split: Vec<(u32, u32)>,
    pl: HashMap<u64, u32>,
}

impl Vocab {
    /// The token bytes, by id.
    pub closed spec fn tb(&self) -> Seq<Seq<u8>> {
        Seq::new(self.tokens@.len(), |i: int| self.tokens@[i]@)
    }

    /// How each token splits into the two it was merged from.
    pub closed spec fn splits(&self) -> Seq<(u32, u32)> {
        self.split@
    }

    /// The merged token of each pair.
    pub closed spec fn pair_table(&self) -> Map<u64, u32> {
        self.pl@
    }

    #[verifier::type_invariant]
    closed spec fn inv(self) -> bool {
        let tb = self.tb();
        &&& tb.len() == self.n
        &&& self.n < RANK_MAX
        &&& self.index.wf()
        &&& forall|k: Seq<u8>| #[trigger] self.index.lookup(k) == token_id(tb, k)
        &&& forall|id: int| 0 <= id < tb.len() ==> (#[trigger] tb[id]).len() <= self.max_len
        &&& self.npm@.len() == tb.len()
        &&& forall|id: int|
            0 <= id < tb.len() ==> #[trigger] self.npm@[id] == prefix_match(
                tb,
                tb[id],
                tb[id].len() - 1,
            )
        &&& self.split@.len() == tb.len()
        &&& splits_ok(tb, self.split@)
        &&& pairs_ok(self.split@, self.pl@)
    }

    /// Every single byte is a token.
    pub open spec fn has_all_bytes(&self) -> bool {
        forall|b: u8| #[trigger] token_id(self.tb(), seq![b]) is Some
    }

    #[inline]
    pub fn n_tokens(&self) -> (r: usize)
        ensures
            r == self.tb().len(),
    {
        proof {
            use_type_invariant(self);
        }
        self.n as usize
    }

    /// Load a vocabulary whose ids are `0..pairs.len()`.
    pub fn from_pairs(pairs: Vec<(Vec<u8>, Rank)>) -> (r: Self)
        requires
            pairs@.len() <= MAX_ENTRIES,
            pairs@.len() < RANK_MAX,
            forall|i: int| 0 <= i < pairs@.len() ==> (#[trigger] pairs@[i]).1 < pairs@.len(),
        ensures
            r.tb() == table_of(pairs_view(pairs@), pairs@.len()),
            r.tb().len() == pairs@.len(),
            r.splits() == split_table(r.tb(), r.tb().len()).0,
            r.pair_table() == split_table(r.tb(), r.tb().len()).1,
            r.splits().len() == r.tb().len(),
            split_shape(r.splits()),
    {
        let n = pairs.len();
        // Tokens by id.
        let mut tokens: Vec<Vec<u8>> = Vec::new();
        let mut i: usize = 0;
        while i < n
            invariant
                i <= n,
                tokens@.len() == i,
                forall|x: int| 0 <= x < i ==> (#[trigger] tokens@[x])@ == Seq::<u8>::empty(),
            decreases n - i,
        {
            tokens.push(Vec::new());
            i += 1;
        }
        let ghost pv = pairs_view(pairs@);
        proof {
            assert(pv.take(0) =~= Seq::empty());
            assert(Seq::new(tokens@.len(), |x: int| tokens@[x]@) =~= table_of(pv.take(0), n as nat));
        }
        let mut j: usize = 0;
        while j < n
            invariant
                j <= n,
                n == pairs@.len(),
                n < RANK_MAX,
                pv == pairs_view(pairs@),
                forall|i: int| 0 <= i < pairs@.len() ==> (#[trigger] pairs@[i]).1 < pairs@.len(),
                tokens@.len() == n,
                Seq::new(tokens@.len(), |x: int| tokens@[x]@) == table_of(pv.take(j as int), n as nat),
            decreases n - j,
        {
            let rank = pairs[j].1;
            let copy = copy_bytes(pairs[j].0.as_slice());
            let ghost before = Seq::new(tokens@.len(), |x: int| tokens@[x]@);
            tokens.set(rank as usize, copy);
            proof {
                assert(pv.take(j + 1).drop_last() =~= pv.take(j as int));
                assert(pv.take(j + 1).last() == pv[j as int]);
                assert(Seq::new(tokens@.len(), |x: int| tokens@[x]@) =~= before.update(
                    rank as int,
                    pairs@[j as int].0@,
                ));
            }
            j += 1;
        }
        let ghost tb = Seq::new(tokens@.len(), |x: int| tokens@[x]@);
        proof {
            assert(pv.take(n as int) =~= pv);
        }
        // The nonempty tokens, for the byte-string index, and the longest token.
        let mut entries: Vec<(Vec<u8>, Rank)> = Vec::new();
        let mut max_len: usize = 0;
        let mut id: usize = 0;
        proof {
            assert(tb.take(0) =~= Seq::<Seq<u8>>::empty());
            assert(pairs_view(entries@) =~= Seq::empty());
        }
        while id < n
            invariant
                id <= n,
                n <= MAX_ENTRIES,
                n < RANK_MAX,
                tokens@.len() == n,
                tb == Seq::new(tokens@.len(), |x: int| tokens@[x]@),
                pairs_view(entries@) == token_entries(tb.take(id as int)),
                entries@.len() <= id,
                forall|x: int| 0 <= x < entries@.len() ==> (#[trigger] entries@[x]).0@.len() > 0,
                forall|x: int| 0 <= x < id ==> (#[trigger] tb[x]).len() <= max_len,
            decreases n - id,
        {
            let t = &tokens[id];
            proof {
                assert(tb.take(id + 1).drop_last() =~= tb.take(id as int));
                assert(tb.take(id + 1).last() == tb[id as int]);
            }
            if t.len() > 0 {
                let ghost before = entries@;
                entries.push((copy_bytes(t.as_slice()), id as u32));
                proof {
                    assert(pairs_view(entries@) =~= pairs_view(before).push((tb[id as int], id as u32)));
                }
            }
            if t.len() > max_len {
                max_len = t.len();
            }
            id += 1;
        }
        proof {
            assert(tb.take(n as int) =~= tb);
        }
        let index = LongTable::build(entries.as_slice());
        // next_prefix[id]: the longest proper-prefix token.
        let mut npm: Vec<u32> = Vec::new();
        let mut id: usize = 0;
        while id < n
            invariant
                id <= n,
                n < RANK_MAX,
                tokens@.len() == n,
                tb == Seq::new(tokens@.len(), |x: int| tokens@[x]@),
                index.wf(),
                forall|k: Seq<u8>| #[trigger] index.lookup(k) == token_id(tb, k),
                forall|x: int| 0 <= x < n ==> (#[trigger] tb[x]).len() <= max_len,
                npm@.len() == id,
                forall|x: int|
                    0 <= x < id ==> #[trigger] npm@[x] == prefix_match(tb, tb[x], tb[x].len() - 1),
            decreases n - id,
        {
            let t = &tokens[id];
            let upto = if t.len() > 0 {
                t.len() - 1
            } else {
                0
            };
            let best = match_prefix(&index, Ghost(tb), max_len, t.as_slice(), upto);
            proof {
                assert(t@ == tb[id as int]);
                assert(longest_len(tb, tb[id as int], -1) is None);
            }
            npm.push(best);
            id += 1;
        }
        // split + pair table.
        let mut split: Vec<(u32, u32)> = Vec::new();
        let mut pl: HashMap<u64, u32> = HashMap::new();
        let mut id: usize = 0;
        while id < n
            invariant
                id <= n,
                n < RANK_MAX,
                tokens@.len() == n,
                tb == Seq::new(tokens@.len(), |x: int| tokens@[x]@),
                index.wf(),
                forall|k: Seq<u8>| #[trigger] index.lookup(k) == token_id(tb, k),
                npm@.len() == n,
                forall|x: int|
                    0 <= x < n ==> #[trigger] npm@[x] == prefix_match(tb, tb[x], tb[x].len() - 1),
                split@.len() == id,
                splits_ok(tb, split@),
                pairs_ok(split@, pl@),
                (split@, pl@) == split_table(tb, id as nat),
            decreases n - id,
        {
            let t = &tokens[id];
            let mut token1 = npm[id];
            let mut choice: Option<(u32, u32)> = None;
            let ghost full = split_choice(tb, split@, pl@, id as int, t@, t@.len() - 1);
            let ghost mut lim: int = t@.len() - 1;
            proof {
                lemma_longest_len(tb, tb[id as int], tb[id as int].len() - 1);
            }
            while token1 != RANK_MAX && choice.is_none()
                invariant
                    id < n,
                    n < RANK_MAX,
                    tokens@.len() == n,
                    tb == Seq::new(tokens@.len(), |x: int| tokens@[x]@),
                    t@ == tb[id as int],
                    index.wf(),
                    forall|k: Seq<u8>| #[trigger] index.lookup(k) == token_id(tb, k),
                    npm@.len() == n,
                    forall|x: int|
                        0 <= x < n ==> #[trigger] npm@[x] == prefix_match(
                            tb,
                            tb[x],
                            tb[x].len() - 1,
                        ),
                    split@.len() == id,
                    splits_ok(tb, split@),
                    token1 != RANK_MAX ==> {
                        &&& token1 < n
                        &&& 0 < tb[token1 as int].len() < t@.len()
                        &&& tb[token1 as int] == t@.take(tb[token1 as int].len() as int)
                    },
                    choice matches Some((a, b)) ==> a < id && b < id && tb[a as int] + tb[b as int]
                        == t@,
                    lim <= t@.len() - 1,
                    choice is None ==> token1 == prefix_match(tb, t@, lim),
                    full == split_choice(tb, split@, pl@, id as int, t@, t@.len() - 1),
                    full == (match choice {
                        Some(c) => Some(c),
                        None => split_choice(tb, split@, pl@, id as int, t@, lim),
                    }),
                decreases (if token1 == RANK_MAX {
                    0
                } else {
                    tb[token1 as int].len() as int
                }) + (if choice is None {
                    1int
                } else {
                    0
                }),
            {
                let l1 = tokens[token1 as usize].len();
                let suffix = &t[l1..t.len()];
                let token2 = match index.get(suffix) {
                    Some(x) => x,
                    None => RANK_MAX,
                };
                proof {
                    lemma_token_id(tb, suffix@);
                    lemma_splits_shape(tb, split@);
                    lemma_longest_len(tb, t@, lim);
                    lemma_split_choice_skip(tb, split@, pl@, id as int, t@, lim);
                    let m = longest_len(tb, t@, lim)->Some_0;
                    assert(m == l1);
                    assert(suffix@ =~= t@.skip(m));
                    lemma_longest_len_le(tb, t@, lim);
                    assert(token1 == token_id(tb, t@.take(m))->Some_0);
                    assert(token_id(tb, t@.take(m)) is Some);
                    if token2 != RANK_MAX {
                        assert(token_id(tb, t@.skip(m)) == Some(token2));
                    } else {
                        assert(token_id(tb, t@.skip(m)) is None);
                    }
                }
                if token2 != RANK_MAX && (token1 as usize) < id && (token2 as usize) < id
                    && is_valid_token_pair(&split, &pl, token1, token2) {
                    proof {
                        assert(tb[token1 as int] + tb[token2 as int] =~= t@);
                        assert(split_choice(tb, split@, pl@, id as int, t@, l1 as int) == Some(
                            (token1, token2),
                        ));
                    }
                    choice = Some((token1, token2));
                } else {
                    let next = npm[token1 as usize];
                    proof {
                        let tk = tb[token1 as int];
                        lemma_longest_len(tb, tk, tk.len() - 1);
                        if next != RANK_MAX {
                            let m = longest_len(tb, tk, tk.len() - 1)->Some_0;
                            assert(tb[next as int] == tk.take(m));
                            assert(tb[next as int] =~= t@.take(m));
                        }
                        lemma_longest_len_take(tb, t@, l1 as int, l1 - 1);
                        assert(split_choice(tb, split@, pl@, id as int, t@, l1 as int) == split_choice(
                            tb,
                            split@,
                            pl@,
                            id as int,
                            t@,
                            l1 - 1,
                        ));
                        lim = l1 - 1;
                    }
                    token1 = next;
                }
            }
            proof {
                if choice is None {
                    lemma_longest_len(tb, t@, lim);
                    lemma_split_choice_skip(tb, split@, pl@, id as int, t@, lim);
                }
                assert(t@ == tb[id as int]);
            }
            match choice {
                Some((a, b)) => {
                    let key: u64 = (a as u64) * 0x1_0000_0000 + (b as u64);
                    proof {
                        assert(key == pair_key(a, b));
                    }
                    let ghost old_split = split@;
                    let ghost old_pl = pl@;
                    pl.insert(key, id as u32);
                    split.push((a, b));
                    proof {
                        assert forall|x: int| 0 <= x < split@.len() implies {
                            let s = #[trigger] split@[x];
                            ||| s == (x as u32, x as u32)
                            ||| s.0 < x && s.1 < x && tb[s.0 as int] + tb[s.1 as int] == tb[x]
                        } by {
                            if x < id {
                                assert(split@[x] == old_split[x]);
                            }
                        }
                        assert forall|k: u64| #[trigger] pl@.contains_key(k) implies {
                            let v = pl@[k];
                            &&& v < split@.len()
                            &&& split@[v as int] != (v, v)
                            &&& k == pair_key(split@[v as int].0, split@[v as int].1)
                        } by {
                            if k != key {
                                assert(old_pl.contains_key(k));
                                assert(split@[old_pl[k] as int] == old_split[old_pl[k] as int]);
                            }
                        }
                    }
                },
                None => {
                    let ghost old_split = split@;
                    split.push((id as u32, id as u32));
                    proof {
                        assert forall|x: int| 0 <= x < split@.len() implies {
                            let s = #[trigger] split@[x];
                            ||| s == (x as u32, x as u32)
                            ||| s.0 < x && s.1 < x && tb[s.0 as int] + tb[s.1 as int] == tb[x]
                        } by {
                            if x < id {
                                assert(split@[x] == old_split[x]);
                            }
                        }
                        assert forall|k: u64| #[trigger] pl@.contains_key(k) implies {
                            let v = pl@[k];
                            &&& v < split@.len()
                            &&& split@[v as int] != (v, v)
                            &&& k == pair_key(split@[v as int].0, split@[v as int].1)
                        } by {
                            assert(split@[pl@[k] as int] == old_split[pl@[k] as int]);
                        }
                    }
                },
            }
            id += 1;
        }
        let r = Vocab { tokens, n: n as u32, index, max_len, npm, split, pl };
        proof {
            assert(r.tb() == tb);
            use_type_invariant(&r);
            lemma_splits_shape(r.tb(), r.splits());
        }
        r
    }
}


// ---------------------------------------------------------------------------
// Encoding
// ---------------------------------------------------------------------------

/// How many positions are still open.
pub open spec fn count_true(s: Seq<bool>) -> nat
    decreases s.len(),
{
    if s.len() == 0 {
        0
    } else {
        count_true(s.drop_last()) + if s.last() {
            1nat
        } else {
            0nat
        }
    }
}

pub proof fn lemma_count_true_clear(s: Seq<bool>, i: int)
    requires
        0 <= i < s.len(),
        s[i],
    ensures
        count_true(s.update(i, false)) < count_true(s),
    decreases s.len(),
{
    let t = s.update(i, false);
    if i == s.len() - 1 {
        assert(t.drop_last() =~= s.drop_last());
    } else {
        assert(t.drop_last() =~= s.drop_last().update(i, false));
        lemma_count_true_clear(s.drop_last(), i);
    }
}

proof fn lemma_spell_push(tb: Seq<Seq<u8>>, toks: Seq<Rank>, t: Rank)
    ensures
        spell(tb, toks.push(t)) == spell(tb, toks) + tb[t as int],
{
    assert(toks.push(t).drop_last() =~= toks);
}

/// Spelling a longer prefix of a token list gives more bytes, when every
/// token is nonempty.
proof fn lemma_spell_prefix(tb: Seq<Seq<u8>>, toks: Seq<Rank>, i: int, j: int)
    requires
        0 <= i < j <= toks.len(),
        forall|k: int| 0 <= k < toks.len() ==> tb[(#[trigger] toks[k]) as int].len() > 0,
    ensures
        spell(tb, toks.take(i)).len() < spell(tb, toks.take(j)).len(),
    decreases j - i,
{
    assert(toks.take(j).drop_last() =~= toks.take(j - 1));
    assert(toks.take(j).last() == toks[j - 1]);
    if i < j - 1 {
        lemma_spell_prefix(tb, toks, i, j - 1);
    }
}

/// With every single byte a token, some token prefixes any nonempty text.
proof fn lemma_first_byte(tb: Seq<Seq<u8>>, text: Seq<u8>, l: int)
    requires
        1 <= l <= text.len(),
        token_id(tb, seq![text[0]]) is Some,
    ensures
        longest_len(tb, text, l) is Some,
    decreases l,
{
    if l == 1 {
        assert(text.take(1) =~= seq![text[0]]);
    } else if token_id(tb, text.take(l)) is None {
        lemma_first_byte(tb, text, l - 1);
    }
}

/// The greedy walk over `text` from `pos` after the token `last`: take the
/// longest token that prefixes the rest, as long as it makes a valid pair with
/// the token before; `None` when some pair is not valid.
pub open spec fn greedy_run(
    tb: Seq<Seq<u8>>,
    split: Seq<(u32, u32)>,
    pl: Map<u64, u32>,
    text: Seq<u8>,
    pos: int,
    last: u32,
) -> Option<Seq<Rank>>
    decreases text.len() - pos,
{
    if pos < 0 || pos >= text.len() {
        Some(Seq::empty())
    } else {
        let t = prefix_match(tb, text.skip(pos), text.len() - pos);
        if !(t < tb.len() && tb[t as int].len() > 0 && pos + tb[t as int].len() <= text.len()) {
            None
        } else if last != RANK_MAX && !valid_pair(split, pl, last, t, RANK_MAX) {
            None
        } else {
            match greedy_run(tb, split, pl, text, pos + tb[t as int].len(), t) {
                Some(r) => Some(seq![t] + r),
                None => None,
            }
        }
    }
}

/// The token the search settles on at `pos` after `last`, trying `token` and
/// then ever shorter prefix tokens: the first whose end is still open and that
/// makes a valid pair with `last`; `RANK_MAX` when none does.
pub open spec fn bt_pick(
    tb: Seq<Seq<u8>>,
    split: Seq<(u32, u32)>,
    pl: Map<u64, u32>,
    open_at: Seq<bool>,
    pos: int,
    last: u32,
    token: u32,
) -> u32
    decreases (if token < tb.len() {
        tb[token as int].len() as int
    } else {
        0
    }),
{
    if tb.len() >= RANK_MAX || token >= tb.len() || tb[token as int].len() == 0 {
        RANK_MAX
    } else {
        let end = pos + tb[token as int].len();
        if 0 <= end < open_at.len() && open_at[end] && (last == RANK_MAX || valid_pair(
            split,
            pl,
            last,
            token,
            RANK_MAX,
        )) {
            token
        } else {
            let tk = tb[token as int];
            let shorter = prefix_match(tb, tk, tk.len() - 1);
            proof {
                lemma_longest_len(tb, tk, tk.len() - 1);
            }
            bt_pick(tb, split, pl, open_at, pos, last, shorter)
        }
    }
}

/// The backtracking search over `text`, from the tokens `toks` found so far
/// (ending at `pos`), the positions still open, and the token to try next:
/// extend with the token `bt_pick` settles on and go on from its end with the
/// longest token there; or, where none fits, close `pos`, take back the last
/// token and try shorter ones in its place. The tokens it ends with.
pub open spec fn bt_run(
    tb: Seq<Seq<u8>>,
    split: Seq<(u32, u32)>,
    pl: Map<u64, u32>,
    text: Seq<u8>,
    toks: Seq<Rank>,
    open_at: Seq<bool>,
    pos: int,
    next: u32,
) -> Seq<Rank>
    decreases count_true(open_at), text.len() - pos,
{
    if next == RANK_MAX || pos < 0 || pos > text.len() {
        toks
    } else {
        let last = if toks.len() > 0 {
            toks.last()
        } else {
            RANK_MAX
        };
        let t = bt_pick(tb, split, pl, open_at, pos, last, next);
        if t != RANK_MAX {
            if t < tb.len() && tb[t as int].len() > 0 && pos + tb[t as int].len() <= text.len() {
                let end = pos + tb[t as int].len();
                let nt = if end < text.len() {
                    prefix_match(tb, text.skip(end), text.len() - end)
                } else {
                    RANK_MAX
                };
                bt_run(tb, split, pl, text, toks.push(t), open_at, end, nt)
            } else {
                toks
            }
        } else if pos < open_at.len() && open_at[pos] {
            let closed = open_at.update(pos, false);
            proof {
                lemma_count_true_clear(open_at, pos);
            }
            if toks.len() > 0 && last < tb.len() {
                bt_run(tb, split, pl, text, toks.drop_last(), closed, pos - tb[last as int].len(), last)
            } else {
                toks
            }
        } else {
            toks
        }
    }
}

impl Vocab {
    /// The tokens of a piece: valid ids, every adjacent pair valid, spelling
    /// the whole piece (or nothing, should the search give up).
    pub open spec fn encodes(&self, text: Seq<u8>, toks: Seq<Rank>) -> bool {
        &&& forall|i: int| 0 <= i < toks.len() ==> #[trigger] toks[i] < self.tb().len()
        &&& (spell(self.tb(), toks) == text || toks.len() == 0)
        &&& pairs_valid(self.splits(), self.pair_table(), toks)
        &&& text.len() == 0 ==> toks.len() == 0
    }

    /// The tokens that encoding the piece `text` gives: the greedy walk where
    /// it gets through, else what the backtracking search ends with.
    pub open spec fn piece_tokens(&self, text: Seq<u8>) -> Seq<Rank> {
        if text.len() == 0 {
            Seq::empty()
        } else {
            match greedy_run(self.tb(), self.splits(), self.pair_table(), text, 0, RANK_MAX) {
                Some(r) => r,
                None => bt_run(
                    self.tb(),
                    self.splits(),
                    self.pair_table(),
                    text,
                    Seq::empty(),
                    Seq::new((text.len() + 1) as nat, |i: int| true),
                    0,
                    prefix_match(self.tb(), text, text.len() as int),
                ),
            }
        }
    }

    /// Two vocabularies loaded (as `from_pairs` loads them) from the same
    /// pairs listed in different orders, no two sharing an id, encode every
    /// piece alike.
    pub proof fn lemma_reordered_pairs(
        v1: &Vocab,
        v2: &Vocab,
        a: Seq<(Seq<u8>, Rank)>,
        b: Seq<(Seq<u8>, Rank)>,
        text: Seq<u8>,
    )
        requires
            a.to_multiset() == b.to_multiset(),
            ids_distinct(a),
            ids_distinct(b),
            ids_below(a, a.len()),
            ids_below(b, b.len()),
            v1.tb() == table_of(a, a.len()),
            v1.splits() == split_table(v1.tb(), v1.tb().len()).0,
            v1.pair_table() == split_table(v1.tb(), v1.tb().len()).1,
            v2.tb() == table_of(b, b.len()),
            v2.splits() == split_table(v2.tb(), v2.tb().len()).0,
            v2.pair_table() == split_table(v2.tb(), v2.tb().len()).1,
        ensures
            v1.tb() == v2.tb(),
            v1.piece_tokens(text) == v2.piece_tokens(text),
    {
        broadcast use vstd::seq_lib::group_to_multiset_ensures;

        assert(a.len() == a.to_multiset().len());
        assert(b.len() == b.to_multiset().len());
        lemma_table_of_reorder(a, b, a.len());
    }

    /// The cuts `c[0] = 0 < c[1] < .. < c[n] = text.len()` are those of the
    /// longest-token-prefix walk: each part is a token, and no longer prefix
    /// of the rest of the text from its start is one.
    pub open spec fn longest_cuts(&self, text: Seq<u8>, c: Seq<int>) -> bool {
        &&& c.len() >= 2
        &&& c[0] == 0
        &&& c[c.len() - 1] == text.len()
        &&& forall|i: int| 0 <= i < c.len() - 1 ==> c[i] < #[trigger] c[i + 1]
        &&& forall|i: int|
            0 <= i < c.len() - 1 ==> token_id(self.tb(), #[trigger] text.subrange(c[i], c[i + 1]))
                is Some
        &&& forall|i: int, l: int|
            0 <= i < c.len() - 1 && c[i + 1] < l <= text.len() ==> token_id(
                self.tb(),
                #[trigger] text.subrange(c[i], l),
            ) is None
    }

    /// The token of part `i` of the cuts `c`.
    pub open spec fn cut_token(&self, text: Seq<u8>, c: Seq<int>, i: int) -> Rank {
        token_id(self.tb(), text.subrange(c[i], c[i + 1]))->Some_0
    }

    proof fn lemma_greedy_from(&self, text: Seq<u8>, c: Seq<int>, i: int)
        requires
            self.tb().len() < RANK_MAX,
            self.splits().len() == self.tb().len(),
            split_shape(self.splits()),
            self.longest_cuts(text, c),
            forall|j: int|
                0 <= j < c.len() - 2 ==> {
                    let t1 = #[trigger] self.cut_token(text, c, j);
                    let t2 = self.cut_token(text, c, j + 1);
                    &&& !self.pair_table().contains_key(pair_key(t1, t2))
                    &&& only_late_merges(self.splits(), self.pair_table(), t1, t2)
                },
            0 <= i < c.len(),
        ensures
            greedy_run(
                self.tb(),
                self.splits(),
                self.pair_table(),
                text,
                c[i],
                if i == 0 {
                    RANK_MAX
                } else {
                    self.cut_token(text, c, i - 1)
                },
            ) == Some(
                Seq::new((c.len() - 1 - i) as nat, |k: int| self.cut_token(text, c, i + k)),
            ),
        decreases c.len() - i,
    {
        let tb = self.tb();
        let n = text.len() as int;
        let last = if i == 0 {
            RANK_MAX
        } else {
            self.cut_token(text, c, i - 1)
        };
        if i == c.len() - 1 {
            assert(Seq::new((c.len() - 1 - i) as nat, |k: int| self.cut_token(text, c, i + k))
                =~= Seq::<Rank>::empty());
        } else {
            assert(c[i] < c[i + 1]);
            lemma_cuts_increasing(c, 0, i);
            lemma_cuts_increasing(c, i + 1, c.len() - 1);
            let pos = c[i];
            let rest = text.skip(pos);
            let t = self.cut_token(text, c, i);
            assert(token_id(tb, text.subrange(c[i], c[i + 1])) is Some);
            lemma_token_id(tb, text.subrange(c[i], c[i + 1]));
            assert(rest.take(c[i + 1] - pos) =~= text.subrange(c[i], c[i + 1]));
            assert forall|j: int| c[i + 1] - pos < j <= n - pos implies token_id(
                tb,
                #[trigger] rest.take(j),
            ) is None by {
                assert(rest.take(j) =~= text.subrange(c[i], pos + j));
                assert(token_id(tb, text.subrange(c[i], pos + j)) is None);
            }
            lemma_longest_len_at(tb, rest, n - pos, c[i + 1] - pos);
            assert(prefix_match(tb, text.skip(pos), n - pos) == t);
            assert(tb[t as int].len() == c[i + 1] - pos);
            if i > 0 {
                let t0 = self.cut_token(text, c, i - 1);
                assert(c[i - 1] < c[i]);
                assert(token_id(tb, text.subrange(c[i - 1], c[i])) is Some);
                lemma_token_id(tb, text.subrange(c[i - 1], c[i]));
                assert(!self.pair_table().contains_key(pair_key(t0, t)));
                lemma_valid_pair_late_merges(self.splits(), self.pair_table(), t0, t);
            }
            self.lemma_greedy_from(text, c, i + 1);
            let tail = Seq::new((c.len() - 1 - (i + 1)) as nat, |k: int| self.cut_token(text, c, i + 1 + k));
            assert(greedy_run(tb, self.splits(), self.pair_table(), text, pos, last) == Some(
                seq![t] + tail,
            ));
            assert(seq![t] + tail =~= Seq::new(
                (c.len() - 1 - i) as nat,
                |k: int| self.cut_token(text, c, i + k),
            ));
        }
    }

    /// A piece that the longest-token-prefix walk cuts into tokens, where no
    /// two neighbouring tokens merge with each other and every merge across a
    /// boundary ranks after both tokens beside it, encodes to exactly those
    /// tokens.
    pub proof fn lemma_greedy_cuts_encode(&self, text: Seq<u8>, c: Seq<int>)
        requires
            self.tb().len() < RANK_MAX,
            self.splits().len() == self.tb().len(),
            split_shape(self.splits()),
            self.longest_cuts(text, c),
            forall|j: int|
                0 <= j < c.len() - 2 ==> {
                    let t1 = #[trigger] self.cut_token(text, c, j);
                    let t2 = self.cut_token(text, c, j + 1);
                    &&& !self.pair_table().contains_key(pair_key(t1, t2))
                    &&& only_late_merges(self.splits(), self.pair_table(), t1, t2)
                },
        ensures
            self.piece_tokens(text) == Seq::new(
                (c.len() - 1) as nat,
                |k: int| self.cut_token(text, c, k),
            ),
    {
        lemma_cuts_increasing(c, 0, c.len() - 1);
        self.lemma_greedy_from(text, c, 0);
        assert(Seq::new((c.len() - 1 - 0) as nat, |k: int| self.cut_token(text, c, 0 + k)) =~= Seq::new(
            (c.len() - 1) as nat,
            |k: int| self.cut_token(text, c, k),
        ));
    }

    /// A piece that is itself a token encodes to that token alone, as the
    /// merge model (`bpe_piece`) gives it over the vocabulary's own ranks.
    pub proof fn lemma_token_piece_agrees<R: RankLookup>(&self, ranks: &R, text: Seq<u8>)
        requires
            self.tb().len() < RANK_MAX,
            forall|k: Seq<u8>| #[trigger] ranks.rank_of(k) == token_id(self.tb(), k),
            token_id(self.tb(), text) is Some,
        ensures
            self.piece_tokens(text) == bpe_piece(ranks, text),
            self.piece_tokens(text) == seq![token_id(self.tb(), text)->Some_0],
    {
        let tb = self.tb();
        let t = token_id(tb, text)->Some_0;
        lemma_token_id(tb, text);
        assert(text.skip(0) =~= text);
        assert(text.take(text.len() as int) =~= text);
        assert(longest_len(tb, text, text.len() as int) == Some(text.len() as int));
        assert(prefix_match(tb, text.skip(0), text.len() - 0) == t);
        assert(greedy_run(tb, self.splits(), self.pair_table(), text, text.len() as int, t) == Some(
            Seq::<Rank>::empty(),
        ));
        assert(seq![t] + Seq::<Rank>::empty() =~= seq![t]);
    }

    /// Longest token that is a prefix of `text`, or RANK_MAX.
    #[inline]
    fn next_match(&self, text: &[u8]) -> (r: u32)
        ensures
            r == prefix_match(self.tb(), text@, text@.len() as int),
    {
        proof {
            use_type_invariant(self);
        }
        match_prefix(&self.index, Ghost(self.tb()), self.max_len, text, text.len())
    }

    /// The longest proper-prefix token of token `id`, or RANK_MAX.
    #[inline]
    fn next_prefix(&self, id: u32) -> (r: u32)
        requires
            id < self.tb().len(),
        ensures
            r == prefix_match(self.tb(), self.tb()[id as int], self.tb()[id as int].len() - 1),
    {
        proof {
            use_type_invariant(self);
        }
        self.npm[id as usize]
    }

    /// Encode one pretokenized piece into token ids, appended to `out`.
    #[inline]
    pub fn encode(&self, text: &[u8], out: &mut Vec<Rank>)
        requires
            self.has_all_bytes(),
            text@.len() < usize::MAX,
        ensures
            final(out)@.len() >= old(out)@.len(),
            final(out)@.take(old(out)@.len() as int) == old(out)@,
            self.encodes(text@, final(out)@.skip(old(out)@.len() as int)),
            final(out)@ == old(out)@ + self.piece_tokens(text@),
    {
        if text.len() == 0 {
            proof {
                assert(out@.take(out@.len() as int) =~= out@);
                assert(out@.skip(out@.len() as int) =~= Seq::<Rank>::empty());
                assert(out@ =~= old(out)@ + self.piece_tokens(text@));
            }
            return;
        }
        let first = self.next_match(text);
        self.encode_with_first(text, first, out);
    }

    fn encode_with_first(&self, text: &[u8], first: u32, out: &mut Vec<Rank>)
        requires
            self.has_all_bytes(),
            0 < text@.len() < usize::MAX,
            first == prefix_match(self.tb(), text@, text@.len() as int),
        ensures
            final(out)@.len() >= old(out)@.len(),
            final(out)@.take(old(out)@.len() as int) == old(out)@,
            self.encodes(text@, final(out)@.skip(old(out)@.len() as int)),
            final(out)@ == old(out)@ + self.piece_tokens(text@),
    {
        let out_start = out.len();
        // Greedy fast path: backtracking only triggers on an invalid pair.
        if self.greedy(text, first, out) {
            return;
        }
        out.truncate(out_start);
        proof {
            assert(out@ =~= old(out)@);
        }
        // Full backtracking (rare).
        let toks = self.backtrack(text, first);
        let mut i: usize = 0;
        while i < toks.len()
            invariant
                i <= toks@.len(),
                out@ == old(out)@ + toks@.take(i as int),
            decreases toks@.len() - i,
        {
            out.push(toks[i]);
            i += 1;
            proof {
                assert(out@ =~= old(out)@ + toks@.take(i as int));
            }
        }
        proof {
            assert(toks@.take(toks@.len() as int) =~= toks@);
            assert(out@.take(old(out)@.len() as int) =~= old(out)@);
            assert(out@.skip(old(out)@.len() as int) =~= toks@);
            assert(out@ == old(out)@ + self.piece_tokens(text@));
        }
    }

    /// Take the longest match at each step while every pair stays valid;
    /// report whether that reached the end.
    fn greedy(&self, text: &[u8], first: u32, out: &mut Vec<Rank>) -> (ok: bool)
        requires
            self.has_all_bytes(),
            0 < text@.len() < usize::MAX,
            first == prefix_match(self.tb(), text@, text@.len() as int),
        ensures
            final(out)@.len() >= old(out)@.len(),
            final(out)@.take(old(out)@.len() as int) == old(out)@,
            ok ==> self.encodes(text@, final(out)@.skip(old(out)@.len() as int)),
            ok == greedy_run(self.tb(), self.splits(), self.pair_table(), text@, 0, RANK_MAX) is Some,
            ok ==> final(out)@ == old(out)@ + greedy_run(
                self.tb(),
                self.splits(),
                self.pair_table(),
                text@,
                0,
                RANK_MAX,
            )->Some_0,
    {
        proof {
            use_type_invariant(self);
        }
        let ghost tb = self.tb();
        let ghost split = self.split@;
        let ghost pl = self.pl@;
        proof {
            lemma_splits_shape(tb, split);
        }
        let len = text.len();
        let mut pos: usize = 0;
        let mut last: u32 = RANK_MAX;
        let mut nt: u32 = first;
        let mut ok = true;
        let ghost mut toks: Seq<Rank> = Seq::empty();
        proof {
            assert(text@.skip(0) =~= text@);
            assert(text@.take(0) =~= Seq::<u8>::empty());
            assert(text@[0] == text@.skip(0)[0]);
            assert(token_id(tb, seq![text@[0]]) is Some);
            lemma_first_byte(tb, text@, len as int);
            if let Some(r) = greedy_run(tb, split, pl, text@, 0, RANK_MAX) {
                assert(toks + r =~= r);
            }
        }
        while pos < len && ok
            invariant
                tb == self.tb(),
                split == self.split@,
                pl == self.pl@,
                tb.len() < RANK_MAX,
                split.len() == tb.len(),
                split_shape(split),
                self.has_all_bytes(),
                self.tokens@.len() == tb.len(),
                pos <= len,
                len == text@.len(),
                out@ == old(out)@ + toks,
                spell(tb, toks) == text@.take(pos as int),
                forall|i: int| 0 <= i < toks.len() ==> #[trigger] toks[i] < tb.len(),
                pairs_valid(split, pl, toks),
                last == (if toks.len() == 0 {
                    RANK_MAX
                } else {
                    toks.last()
                }),
                pos < len ==> nt == prefix_match(tb, text@.skip(pos as int), len - pos)
                    && longest_len(tb, text@.skip(pos as int), len - pos) is Some,
                !ok ==> pos < len,
                ok ==> greedy_run(tb, split, pl, text@, 0, RANK_MAX) == (match greedy_run(
                    tb,
                    split,
                    pl,
                    text@,
                    pos as int,
                    last,
                ) {
                    Some(r) => Some(toks + r),
                    None => None,
                }),
                !ok ==> greedy_run(tb, split, pl, text@, 0, RANK_MAX) is None,
            decreases (len - pos) + (if ok {
                1int
            } else {
                0
            }),
        {
            let token = nt;
            let ghost rest = text@.skip(pos as int);
            proof {
                lemma_longest_len(tb, rest, rest.len() as int);
            }
            proof {
                let m = longest_len(tb, rest, rest.len() as int)->Some_0;
                assert(rest.take(m).len() == m);
                assert(token < tb.len() && tb[token as int].len() > 0 && pos + tb[token as int].len()
                    <= text@.len());
            }
            if last != RANK_MAX && !is_valid_token_pair(&self.split, &self.pl, last, token) {
                ok = false;
            } else {
                proof {
                    if let Some(r) = greedy_run(tb, split, pl, text@, pos + tb[token as int].len(), token) {
                        assert(toks + (seq![token] + r) =~= toks.push(token) + r);
                    }
                }
                out.push(token);
                proof {
                    let m = longest_len(tb, rest, rest.len() as int)->Some_0;
                    lemma_spell_push(tb, toks, token);
                    assert(text@.take(pos as int) + rest.take(m) =~= text@.take(pos + m));
                    let old_toks = toks;
                    toks = toks.push(token);
                    assert forall|i: int| 0 <= i < toks.len() - 1 implies valid_pair(
                        split,
                        pl,
                        #[trigger] toks[i],
                        toks[i + 1],
                        RANK_MAX,
                    ) by {
                        if i < old_toks.len() - 1 {
                            assert(toks[i] == old_toks[i] && toks[i + 1] == old_toks[i + 1]);
                        }
                    }
                }
                last = token;
                pos = pos + self.tokens[token as usize].len();
                nt = if pos < len {
                    let r = self.next_match(&text[pos..len]);
                    proof {
                        assert(text@.subrange(pos as int, len as int) =~= text@.skip(pos as int));
                        let t2 = text@.skip(pos as int);
                        assert(t2[0] == text@[pos as int]);
                        assert(token_id(tb, seq![t2[0]]) is Some);
                        lemma_first_byte(tb, t2, t2.len() as int);
                    }
                    r
                } else {
                    RANK_MAX
                };
            }
        }
        proof {
            if ok {
                assert(text@.take(len as int) =~= text@);
                assert(toks + Seq::<Rank>::empty() =~= toks);
            }
            assert(out@.take(old(out)@.len() as int) =~= old(out)@);
            assert(out@.skip(old(out)@.len() as int) =~= toks);
        }
        ok
    }

    /// Backtracking search: extend with the longest match that keeps every
    /// pair valid and lands on a position not yet known to be a dead end,
    /// else a shorter prefix token, else give up on this position and back
    /// off one token.
    fn backtrack(&self, text: &[u8], first: u32) -> (toks: Vec<u32>)
        requires
            self.has_all_bytes(),
            0 < text@.len() < usize::MAX,
            first == prefix_match(self.tb(), text@, text@.len() as int),
        ensures
            self.encodes(text@, toks@),
            toks@ == bt_run(
                self.tb(),
                self.splits(),
                self.pair_table(),
                text@,
                Seq::empty(),
                Seq::new((text@.len() + 1) as nat, |i: int| true),
                0,
                first,
            ),
    {
        proof {
            use_type_invariant(self);
        }
        let ghost tb = self.tb();
        let ghost split = self.split@;
        let ghost pl = self.pl@;
        proof {
            lemma_splits_shape(tb, split);
        }
        let len = text.len();
        let mut toks: Vec<u32> = Vec::new();
        let mut bf: Vec<bool> = vec![true; len + 1];
        let mut pos: usize = 0;
        let mut next_token: u32 = first;
        proof {
            assert(text@[0] == text@[0]);
            assert(token_id(tb, seq![text@[0]]) is Some);
            lemma_first_byte(tb, text@, len as int);
            lemma_longest_len(tb, text@, len as int);
            let m = longest_len(tb, text@, len as int)->Some_0;
            assert(text@.take(m) =~= text@.subrange(0, m));
            assert(text@.take(0) =~= Seq::<u8>::empty());
            assert(bf@[0]);
            assert(bf@ =~= Seq::new((text@.len() + 1) as nat, |i: int| true));
        }
        let ghost init = bt_run(tb, split, pl, text@, toks@, bf@, 0, first);
        while next_token != RANK_MAX
            invariant
                tb == self.tb(),
                split == self.split@,
                pl == self.pl@,
                tb.len() < RANK_MAX,
                split.len() == tb.len(),
                split_shape(split),
                self.has_all_bytes(),
                self.tokens@.len() == tb.len(),
                forall|id: int| 0 <= id < tb.len() ==> #[trigger] self.npm@[id] == prefix_match(
                    tb,
                    tb[id],
                    tb[id].len() - 1,
                ),
                pos <= len,
                len == text@.len(),
                len < usize::MAX,
                spell(tb, toks@) == text@.take(pos as int),
                forall|i: int| 0 <= i < toks@.len() ==> #[trigger] toks@[i] < tb.len(),
                forall|i: int| 0 <= i < toks@.len() ==> tb[(#[trigger] toks@[i]) as int].len() > 0,
                pairs_valid(split, pl, toks@),
                bf@.len() == len + 1,
                forall|i: int|
                    0 <= i < toks@.len() ==> bf@[spell(tb, #[trigger] toks@.take(i)).len() as int],
                next_token != RANK_MAX ==> {
                    &&& bf@[pos as int]
                    &&& next_token < tb.len()
                    &&& tb[next_token as int].len() > 0
                    &&& pos + tb[next_token as int].len() <= len
                    &&& tb[next_token as int] == text@.subrange(
                        pos as int,
                        pos + tb[next_token as int].len(),
                    )
                },
                next_token == RANK_MAX ==> (pos == len || toks@.len() == 0),
                init == bt_run(tb, split, pl, text@, toks@, bf@, pos as int, next_token),
            decreases count_true(bf@), len - pos,
        {
            let last = if toks.len() > 0 {
                toks[toks.len() - 1]
            } else {
                RANK_MAX
            };
            proof {
                if toks@.len() > 0 {
                    assert(last == toks@.last());
                }
            }
            let mut token = next_token;
            let mut usable = false;
            let ghost pick = bt_pick(tb, split, pl, bf@, pos as int, last, next_token);
            while !usable && token != RANK_MAX
                invariant
                    tb == self.tb(),
                    split == self.split@,
                    pl == self.pl@,
                    tb.len() < RANK_MAX,
                    split.len() == tb.len(),
                    split_shape(split),
                    self.tokens@.len() == tb.len(),
                    forall|id: int|
                        0 <= id < tb.len() ==> #[trigger] self.npm@[id] == prefix_match(
                            tb,
                            tb[id],
                            tb[id].len() - 1,
                        ),
                    bf@.len() == len + 1,
                    len == text@.len(),
                    pos <= len,
                    last == RANK_MAX || last < tb.len(),
                    token != RANK_MAX ==> {
                        &&& token < tb.len()
                        &&& tb[token as int].len() > 0
                        &&& pos + tb[token as int].len() <= len
                        &&& tb[token as int] == text@.subrange(pos as int, pos + tb[token as int].len())
                    },
                    usable ==> token != RANK_MAX && bf@[pos + tb[token as int].len()] && (last
                        == RANK_MAX || valid_pair(split, pl, last, token, RANK_MAX)),
                    pick == (if usable {
                        token
                    } else {
                        bt_pick(tb, split, pl, bf@, pos as int, last, token)
                    }),
                decreases (if token == RANK_MAX {
                    0
                } else {
                    tb[token as int].len() as int
                }) + (if usable {
                    0int
                } else {
                    1
                }),
            {
                let end = pos + self.tokens[token as usize].len();
                if bf[end] && (last == RANK_MAX || is_valid_token_pair(
                    &self.split,
                    &self.pl,
                    last,
                    token,
                )) {
                    usable = true;
                } else {
                    let shorter = self.next_prefix(token);
                    proof {
                        assert(bt_pick(tb, split, pl, bf@, pos as int, last, token) == bt_pick(
                            tb,
                            split,
                            pl,
                            bf@,
                            pos as int,
                            last,
                            shorter,
                        ));
                        let tk = tb[token as int];
                        lemma_longest_len(tb, tk, tk.len() - 1);
                        if shorter != RANK_MAX {
                            let m = longest_len(tb, tk, tk.len() - 1)->Some_0;
                            assert(tb[shorter as int] =~= text@.subrange(pos as int, pos + m));
                        }
                    }
                    token = shorter;
                }
            }
            proof {
                if !usable {
                    assert(pick == RANK_MAX);
                }
            }
            if usable {
                let end = pos + self.tokens[token as usize].len();
                let ghost old_toks = toks@;
                let ghost old_next = next_token;
                proof {
                    assert(pick == token);
                }
                toks.push(token);
                proof {
                    lemma_spell_push(tb, old_toks, token);
                    assert(text@.take(pos as int) + tb[token as int] =~= text@.take(end as int));
                    assert forall|i: int| 0 <= i < toks@.len() - 1 implies valid_pair(
                        split,
                        pl,
                        #[trigger] toks@[i],
                        toks@[i + 1],
                        RANK_MAX,
                    ) by {
                        if i < old_toks.len() - 1 {
                            assert(toks@[i] == old_toks[i] && toks@[i + 1] == old_toks[i + 1]);
                        }
                    }
                    assert forall|i: int| 0 <= i < toks@.len() implies bf@[spell(
                        tb,
                        #[trigger] toks@.take(i),
                    ).len() as int] by {
                        if i < old_toks.len() {
                            assert(toks@.take(i) =~= old_toks.take(i));
                        } else {
                            assert(toks@.take(i) =~= old_toks);
                        }
                    }
                }
                pos = end;
                next_token = if pos < len {
                    let r = self.next_match(&text[pos..len]);
                    proof {
                        let t2 = text@.subrange(pos as int, len as int);
                        assert(t2[0] == text@[pos as int]);
                        assert(token_id(tb, seq![t2[0]]) is Some);
                        lemma_first_byte(tb, t2, t2.len() as int);
                        lemma_longest_len(tb, t2, t2.len() as int);
                        let m = longest_len(tb, t2, t2.len() as int)->Some_0;
                        assert(t2.take(m) =~= text@.subrange(pos as int, pos + m));
                        assert(t2 =~= text@.skip(pos as int));
                    }
                    r
                } else {
                    RANK_MAX
                };
                proof {
                    assert(bt_run(tb, split, pl, text@, old_toks, bf@, (pos - tb[token as int].len()) as int, old_next)
                        == bt_run(tb, split, pl, text@, toks@, bf@, pos as int, next_token));
                }
            } else {
                let ghost old_bf = bf@;
                let ghost old_toks = toks@;
                let ghost old_pos = pos;
                bf.set(pos, false);
                proof {
                    lemma_count_true_clear(old_bf, pos as int);
                }
                if toks.len() > 0 {
                    proof {
                        assert(old_toks[old_toks.len() - 1] == last);
                        assert(spell(tb, old_toks) == spell(tb, old_toks.drop_last()) + tb[last as int]);
                        assert(self.tokens@[last as int]@ == tb[last as int]);
                        assert(spell(tb, old_toks) == text@.take(old_pos as int));
                        assert(text@.take(old_pos as int).len() == old_pos);
                    }
                    toks.pop();
                    proof {
                        assert(old_toks.drop_last() =~= toks@);
                    }
                    pos = pos - self.tokens[last as usize].len();
                    proof {
                        let k = old_toks.len() as int;
                        let whole = text@.take(old_pos as int);
                        assert(whole == spell(tb, toks@) + tb[last as int]);
                        assert(spell(tb, toks@).len() == pos);
                        assert(spell(tb, toks@) =~= whole.subrange(0, pos as int));
                        assert(whole.subrange(0, pos as int) =~= text@.take(pos as int));
                        assert(tb[last as int] =~= whole.subrange(pos as int, old_pos as int));
                        assert(whole.subrange(pos as int, old_pos as int) =~= text@.subrange(
                            pos as int,
                            old_pos as int,
                        ));
                        assert(old_toks.take(k - 1) =~= toks@);
                        assert(old_toks.take(k) =~= old_toks);
                        assert forall|i: int| 0 <= i < toks@.len() implies bf@[spell(
                            tb,
                            #[trigger] toks@.take(i),
                        ).len() as int] by {
                            assert(toks@.take(i) =~= old_toks.take(i));
                            lemma_spell_prefix(tb, old_toks, i, k);
                        }
                        lemma_spell_prefix(tb, old_toks, k - 1, k);
                        assert(bf@[pos as int]) by {
                            assert(old_bf[spell(tb, old_toks.take(k - 1)).len() as int]);
                        }
                    }
                }
                next_token = last;
            }
        }
        proof {
            assert(text@.take(len as int) =~= text@);
        }
        toks
    }
}

} // verus!
