//! Exact tiktoken backtracking BPE. The result is identical to tiktoken's
//! `_byte_pair_merge`: merge the globally-minimum-rank adjacent pair, ties
//! broken leftmost (strict `<`). Single-byte and whole-piece are shortcuts.
use crate::rank::{rank_or_max, Rank, RankLookup, RANK_MAX};
use vstd::prelude::*;

verus! {

/// A working part: (byte offset, rank of the pair with the next part, token id
/// of the token starting here). Tracking the id lets emission be lookup-free.
pub type Part = (usize, Rank, Rank);

// ---------------------------------------------------------------------------
// The merge procedure, stated over part boundaries
// ---------------------------------------------------------------------------

/// The boundaries of a piece of `n` bytes split into single bytes: `0, 1, .., n`.
pub open spec fn byte_bounds(n: nat) -> Seq<int> {
    Seq::new(n + 1, |i: int| i)
}

/// Boundaries start at 0, strictly increase, and end at the piece length.
pub open spec fn bounds_wf(b: Seq<int>, n: int) -> bool {
    &&& b.len() >= 1
    &&& b[0] == 0
    &&& b[b.len() - 1] == n
    &&& forall|i: int, j: int| 0 <= i < j < b.len() ==> b[i] < b[j]
}

/// Rank of the token made by merging parts `i` and `i + 1` (`RANK_MAX` if the
/// merged bytes are not a token, or there is no part `i + 1`).
pub open spec fn pair_rank<R: RankLookup>(ranks: &R, piece: Seq<u8>, b: Seq<int>, i: int) -> Rank {
    if 0 <= i && i + 2 < b.len() {
        rank_or_max(ranks.rank_of(piece.subrange(b[i], b[i + 2])))
    } else {
        RANK_MAX
    }
}

/// Pair `i` has the globally minimal rank, and no pair left of it ties.
pub open spec fn is_min_pair<R: RankLookup>(ranks: &R, piece: Seq<u8>, b: Seq<int>, i: int) -> bool {
    &&& 0 <= i && i + 2 < b.len()
    &&& pair_rank(ranks, piece, b, i) < RANK_MAX
    &&& forall|j: int| 0 <= j < i ==> pair_rank(ranks, piece, b, j) > pair_rank(ranks, piece, b, i)
    &&& forall|j: int|
        i < j && j + 2 < b.len() ==> pair_rank(ranks, piece, b, j) >= pair_rank(
            ranks,
            piece,
            b,
            i,
        )
}

/// Some adjacent pair of parts merges into a token.
pub open spec fn has_merge<R: RankLookup>(ranks: &R, piece: Seq<u8>, b: Seq<int>) -> bool {
    exists|i: int| 0 <= i && i + 2 < b.len() && pair_rank(ranks, piece, b, i) < RANK_MAX
}

/// Repeatedly merge the minimum-rank (leftmost on ties) adjacent pair until no
/// adjacent pair is a token; returns the final part boundaries.
pub open spec fn merge_bounds<R: RankLookup>(ranks: &R, piece: Seq<u8>, b: Seq<int>) -> Seq<int>
    decreases b.len(),
{
    let i = choose|i: int| is_min_pair(ranks, piece, b, i);
    if has_merge(ranks, piece, b) && is_min_pair(ranks, piece, b, i) {
        merge_bounds(ranks, piece, b.remove(i + 1))
    } else {
        b
    }
}

/// The token ids of the parts delimited by `b`.
pub open spec fn span_ids<R: RankLookup>(ranks: &R, piece: Seq<u8>, b: Seq<int>) -> Seq<Rank> {
    Seq::new(
        (b.len() - 1) as nat,
        |k: int| rank_or_max(ranks.rank_of(piece.subrange(b[k], b[k + 1]))),
    )
}

/// tiktoken's encoding of one piece: the piece's own rank when the whole piece
/// is a token, else the ids of the parts left by the merge procedure.
pub open spec fn bpe_piece<R: RankLookup>(ranks: &R, piece: Seq<u8>) -> Seq<Rank> {
    if ranks.rank_of(piece) is Some {
        seq![ranks.rank_of(piece)->Some_0]
    } else {
        span_ids(ranks, piece, merge_bounds(ranks, piece, byte_bounds(piece.len())))
    }
}

/// Every byte of `piece` is a token on its own.
pub open spec fn bytes_are_tokens<R: RankLookup>(ranks: &R, piece: Seq<u8>) -> bool {
    forall|i: int| 0 <= i < piece.len() ==> (#[trigger] ranks.rank_of(seq![piece[i]])) is Some
}

// ---------------------------------------------------------------------------
// Laws of the merge procedure
// ---------------------------------------------------------------------------

/// A minimal pair exists whenever some pair merges, and it is unique.
pub proof fn lemma_min_pair<R: RankLookup>(ranks: &R, piece: Seq<u8>, b: Seq<int>)
    ensures
        has_merge(ranks, piece, b) ==> exists|i: int| is_min_pair(ranks, piece, b, i),
        forall|i: int, j: int|
            is_min_pair(ranks, piece, b, i) && is_min_pair(ranks, piece, b, j) ==> i == j,
{
    if has_merge(ranks, piece, b) {
        let w = choose|i: int| 0 <= i && i + 2 < b.len() && pair_rank(ranks, piece, b, i) < RANK_MAX;
        lemma_min_pair_from(ranks, piece, b, w);
    }
    assert forall|i: int, j: int|
        is_min_pair(ranks, piece, b, i) && is_min_pair(ranks, piece, b, j) implies i == j by {
        if i < j {
            assert(pair_rank(ranks, piece, b, i) > pair_rank(ranks, piece, b, j));
        } else if j < i {
            assert(pair_rank(ranks, piece, b, j) > pair_rank(ranks, piece, b, i));
        }
    }
}

proof fn lemma_min_pair_from<R: RankLookup>(ranks: &R, piece: Seq<u8>, b: Seq<int>, w: int)
    requires
        0 <= w && w + 2 < b.len(),
        pair_rank(ranks, piece, b, w) < RANK_MAX,
    ensures
        exists|i: int| is_min_pair(ranks, piece, b, i),
    decreases pair_rank(ranks, piece, b, w), w,
{
    // Either w is minimal, or there is a strictly better candidate: a smaller
    // rank, or the same rank further left.
    if is_min_pair(ranks, piece, b, w) {
    } else {
        let r = pair_rank(ranks, piece, b, w);
        if exists|j: int| 0 <= j < w && pair_rank(ranks, piece, b, j) <= r {
            let j = choose|j: int| 0 <= j < w && pair_rank(ranks, piece, b, j) <= r;
            lemma_min_pair_from(ranks, piece, b, j);
        } else {
            let j = choose|j: int|
                w < j && j + 2 < b.len() && pair_rank(ranks, piece, b, j) < r;
            lemma_min_pair_from(ranks, piece, b, j);
        }
    }
}

/// One step of the merge procedure: merging the minimal pair `i` leaves the
/// remaining merges unchanged.
pub proof fn lemma_merge_step<R: RankLookup>(ranks: &R, piece: Seq<u8>, b: Seq<int>, i: int)
    requires
        is_min_pair(ranks, piece, b, i),
    ensures
        merge_bounds(ranks, piece, b) == merge_bounds(ranks, piece, b.remove(i + 1)),
{
    lemma_min_pair(ranks, piece, b);
    assert(has_merge(ranks, piece, b));
    let c = choose|k: int| is_min_pair(ranks, piece, b, k);
    assert(c == i);
}

/// When no pair merges, the merge procedure stops.
pub proof fn lemma_merge_done<R: RankLookup>(ranks: &R, piece: Seq<u8>, b: Seq<int>)
    requires
        !has_merge(ranks, piece, b),
    ensures
        merge_bounds(ranks, piece, b) == b,
{
}

/// The merge procedure keeps boundaries well formed, and what it leaves has no
/// adjacent pair that is a token.
pub proof fn lemma_merge_bounds_wf<R: RankLookup>(ranks: &R, piece: Seq<u8>, b: Seq<int>)
    requires
        bounds_wf(b, piece.len() as int),
    ensures
        bounds_wf(merge_bounds(ranks, piece, b), piece.len() as int),
        !has_merge(ranks, piece, merge_bounds(ranks, piece, b)),
        merge_bounds(ranks, piece, b).len() <= b.len(),
    decreases b.len(),
{
    lemma_min_pair(ranks, piece, b);
    let i = choose|i: int| is_min_pair(ranks, piece, b, i);
    if has_merge(ranks, piece, b) && is_min_pair(ranks, piece, b, i) {
        let b2 = b.remove(i + 1);
        assert(bounds_wf(b2, piece.len() as int)) by {
            assert forall|x: int, y: int| 0 <= x < y < b2.len() implies b2[x] < b2[y] by {
                let x1 = if x < i + 1 {
                    x
                } else {
                    x + 1
                };
                let y1 = if y < i + 1 {
                    y
                } else {
                    y + 1
                };
                assert(b2[x] == b[x1] && b2[y] == b[y1]);
            }
        }
        lemma_merge_bounds_wf(ranks, piece, b2);
    }
}

/// Every part delimited by `b` is a token.
pub open spec fn spans_tokens<R: RankLookup>(ranks: &R, piece: Seq<u8>, b: Seq<int>) -> bool {
    forall|k: int|
        0 <= k < b.len() - 1 ==> (#[trigger] ranks.rank_of(piece.subrange(b[k], b[k + 1]))) is Some
}

/// Single bytes are tokens, so the parts of the byte split are.
pub proof fn lemma_byte_spans_tokens<R: RankLookup>(ranks: &R, piece: Seq<u8>)
    requires
        bytes_are_tokens(ranks, piece),
    ensures
        spans_tokens(ranks, piece, byte_bounds(piece.len())),
{
    let b = byte_bounds(piece.len());
    assert forall|k: int| 0 <= k < b.len() - 1 implies (#[trigger] ranks.rank_of(
        piece.subrange(b[k], b[k + 1]),
    )) is Some by {
        assert(piece.subrange(b[k], b[k + 1]) =~= seq![piece[k]]);
        assert(ranks.rank_of(seq![piece[k]]) is Some);
    }
}

/// Merging only ever joins parts into a token, so every part stays a token.
pub proof fn lemma_merge_spans_tokens<R: RankLookup>(ranks: &R, piece: Seq<u8>, b: Seq<int>)
    requires
        bounds_wf(b, piece.len() as int),
        spans_tokens(ranks, piece, b),
    ensures
        spans_tokens(ranks, piece, merge_bounds(ranks, piece, b)),
    decreases b.len(),
{
    lemma_min_pair(ranks, piece, b);
    let i = choose|i: int| is_min_pair(ranks, piece, b, i);
    if has_merge(ranks, piece, b) && is_min_pair(ranks, piece, b, i) {
        let b2 = b.remove(i + 1);
        assert(bounds_wf(b2, piece.len() as int)) by {
            assert forall|x: int, y: int| 0 <= x < y < b2.len() implies b2[x] < b2[y] by {
                let x1 = if x < i + 1 {
                    x
                } else {
                    x + 1
                };
                let y1 = if y < i + 1 {
                    y
                } else {
                    y + 1
                };
                assert(b2[x] == b[x1] && b2[y] == b[y1]);
            }
        }
        assert forall|k: int| 0 <= k < b2.len() - 1 implies (#[trigger] ranks.rank_of(
            piece.subrange(b2[k], b2[k + 1]),
        )) is Some by {
            if k < i {
                assert(b2[k] == b[k] && b2[k + 1] == b[k + 1]);
                assert(ranks.rank_of(piece.subrange(b[k], b[k + 1])) is Some);
            } else if k == i {
                assert(b2[k] == b[i] && b2[k + 1] == b[i + 2]);
                assert(pair_rank(ranks, piece, b, i) < RANK_MAX);
                assert(ranks.rank_of(piece.subrange(b[i], b[i + 2])) is Some);
            } else {
                assert(b2[k] == b[k + 1] && b2[k + 1] == b[k + 2]);
                let j = k + 1;
                assert(0 <= j < b.len() - 1);
                assert(ranks.rank_of(piece.subrange(b[j], b[j + 1])) is Some);
                assert(b[j + 1] == b[k + 2]);
            }
        }
        lemma_merge_spans_tokens(ranks, piece, b2);
    }
}

/// Of two equal overlapping pairs the left one merges first: three equal
/// bytes, whose two-byte run is a token and whose three-byte run is not,
/// encode as the two-byte token, then the byte.
pub proof fn lemma_leftmost_tie<R: RankLookup>(ranks: &R, a: u8)
    requires
        ranks.rank_of(seq![a]) is Some,
        ranks.rank_of(seq![a, a]) is Some,
        ranks.rank_of(seq![a, a])->Some_0 < RANK_MAX,
        ranks.rank_of(seq![a, a, a]) is None,
    ensures
        bpe_piece(ranks, seq![a, a, a]) == seq![
            ranks.rank_of(seq![a, a])->Some_0,
            ranks.rank_of(seq![a])->Some_0,
        ],
{
    let piece = seq![a, a, a];
    let r = ranks.rank_of(seq![a, a])->Some_0;
    let b = byte_bounds(3);
    assert(b =~= seq![0int, 1, 2, 3]);
    assert(piece.subrange(0, 2) =~= seq![a, a]);
    assert(piece.subrange(1, 3) =~= seq![a, a]);
    assert(pair_rank(ranks, piece, b, 0) == r);
    assert(pair_rank(ranks, piece, b, 1) == r);
    assert(is_min_pair(ranks, piece, b, 0));
    lemma_merge_step(ranks, piece, b, 0);
    let b2 = b.remove(1);
    assert(b2 =~= seq![0int, 2, 3]);
    assert(piece.subrange(0, 3) =~= piece);
    assert(pair_rank(ranks, piece, b2, 0) == RANK_MAX);
    assert(!has_merge(ranks, piece, b2)) by {
        assert forall|i: int| 0 <= i && i + 2 < b2.len() implies pair_rank(ranks, piece, b2, i)
            == RANK_MAX by {
            assert(i == 0);
        }
    }
    lemma_merge_done(ranks, piece, b2);
    assert(piece.len() == 3);
    assert(merge_bounds(ranks, piece, byte_bounds(piece.len())) == b2);
    assert(piece.subrange(2, 3) =~= seq![a]);
    assert(span_ids(ranks, piece, b2) =~= seq![r, ranks.rank_of(seq![a])->Some_0]);
}

// ---------------------------------------------------------------------------
// Executable merge
// ---------------------------------------------------------------------------

#[inline]
fn pair_rank_at<R: RankLookup>(piece: &[u8], parts: &Vec<Part>, i: usize, ranks: &R) -> (r: Rank)
    requires
        bounds_wf(part_bounds(parts@), piece@.len() as int),
    ensures
        i + 3 < parts@.len() ==> r == rank_or_max(
            ranks.rank_of(piece@.subrange(parts@[i as int].0 as int, parts@[i + 3].0 as int)),
        ),
        i + 3 >= parts@.len() ==> r == RANK_MAX,
{
    if i < parts.len() && parts.len() - i > 3 {
        proof {
            let b = part_bounds(parts@);
            assert(b[i as int] < b[i + 3]);
            assert(b[i + 3] <= b[b.len() - 1]);
        }
        let lo = parts[i].0 as usize;
        let hi = parts[i + 3].0 as usize;
        let key = &piece[lo..hi];
        match ranks.get(key) {
            Some(x) => x,
            None => RANK_MAX,
        }
    } else {
        RANK_MAX
    }
}

/// Boundaries read off the offsets of the parts.
pub open spec fn part_bounds(parts: Seq<Part>) -> Seq<int> {
    Seq::new(parts.len(), |k: int| parts[k].0 as int)
}

/// Encode one non-empty pretokenized `piece` into token ids, appended to `out`.
/// `parts` is a caller-owned scratch buffer reused across pieces (cleared here).
/// Precondition: every single byte of `piece` is present in `ranks` (true for
/// all tiktoken byte-level vocabs).
pub fn byte_pair_encode<R: RankLookup>(
    piece: &[u8],
    ranks: &R,
    parts: &mut Vec<Part>,
    out: &mut Vec<Rank>,
)
    requires
        piece@.len() >= 1,
        bytes_are_tokens(ranks, piece@),
    ensures
        final(out)@ == old(out)@ + bpe_piece(ranks, piece@),
{
    let ghost p = piece@;
    if piece.len() == 1 {
        proof {
            assert(p =~= seq![p[0]]);
            assert(ranks.rank_of(seq![p[0]]) is Some);
        }
        match ranks.get(piece) {
            Some(t) => out.push(t),
            None => {},
        }
        return;
    }
    if let Some(t) = ranks.get(piece) {
        out.push(t);
        return;
    }
    // parts[k] = (offset, pair-rank with next, token id at k). The last entry is
    // the end sentinel (offset = piece.len()).

    parts.clear();
    let n = piece.len();
    let mut min_rank: (Rank, usize) = (RANK_MAX, usize::MAX);
    let mut i: usize = 0;
    while i < n
        invariant
            p == piece@,
            n == p.len(),
            2 <= n,
            i <= n,
            bytes_are_tokens(ranks, p),
            parts@.len() == i,
            forall|k: int| 0 <= k < i ==> (#[trigger] parts@[k]).0 == k,
            forall|k: int|
                0 <= k < i ==> (#[trigger] parts@[k]).1 == pair_rank(
                    ranks,
                    p,
                    byte_bounds(n as nat),
                    k,
                ),
            forall|k: int|
                0 <= k < i ==> (#[trigger] parts@[k]).2 == rank_or_max(
                    ranks.rank_of(p.subrange(k, k + 1)),
                ),
            min_rank.0 < RANK_MAX ==> min_rank.1 < i && parts@[min_rank.1 as int].1 == min_rank.0,
            forall|k: int| 0 <= k < i ==> (#[trigger] parts@[k]).1 >= min_rank.0,
            min_rank.0 < RANK_MAX ==> forall|k: int|
                0 <= k < min_rank.1 ==> (#[trigger] parts@[k]).1 > min_rank.0,
        decreases n - i,
    {
        proof {
            assert(p.subrange(i as int, i + 1) =~= seq![p[i as int]]);
        }
        let id = match ranks.get(&piece[i..i + 1]) {
            Some(x) => x,
            None => RANK_MAX,
        };
        let rank = if i + 1 < n {
            let r = ranks.get_pair(piece[i], piece[i + 1]);
            proof {
                assert(p.subrange(i as int, i + 2) =~= seq![p[i as int], p[i + 1]]);
            }
            r
        } else {
            RANK_MAX
        };
        if rank < min_rank.0 {
            min_rank = (rank, i);
        }
        parts.push((i, rank, id));
        proof {
            let bb = byte_bounds(n as nat);
            assert(bb[i as int] == i && bb[i + 1] == i + 1);
            if i + 1 < n {
                assert(bb[i + 2] == i + 2);
                assert(pair_rank(ranks, p, bb, i as int) == rank);
            } else {
                assert(pair_rank(ranks, p, bb, i as int) == RANK_MAX);
            }
        }
        i += 1;
    }
    parts.push((n, RANK_MAX, RANK_MAX));

    let ghost init = byte_bounds(n as nat);
    proof {
        assert(part_bounds(parts@) =~= init);
        assert(bounds_wf(init, n as int));
        assert(parts_exact(ranks, p, parts@)) by {
            reveal(parts_exact);
            assert forall|k: int| 0 <= k < parts@.len() - 1 implies (#[trigger] parts@[k]).2
                == rank_or_max(ranks.rank_of(p.subrange(parts@[k].0 as int, parts@[k + 1].0 as int))) by {
                assert(parts@[k].0 == k && parts@[k + 1].0 == k + 1);
            }
        }
        lemma_scan_min(ranks, p, parts@, min_rank.0, min_rank.1 as int);
    }

    while min_rank.0 != RANK_MAX
        invariant
            p == piece@,
            n == p.len(),
            2 <= n,
            parts_exact(ranks, p, parts@),
            merge_bounds(ranks, p, part_bounds(parts@)) == merge_bounds(ranks, p, init),
            min_rank.0 < RANK_MAX ==> is_min_pair(
                ranks,
                p,
                part_bounds(parts@),
                min_rank.1 as int,
            ) && min_rank.0 == pair_rank(ranks, p, part_bounds(parts@), min_rank.1 as int),
            min_rank.0 == RANK_MAX ==> !has_merge(ranks, p, part_bounds(parts@)),
        decreases parts@.len(),
    {
        let ghost b = part_bounds(parts@);
        let ghost old_parts = parts@;
        let i = min_rank.1;
        proof {
            lemma_merge_step(ranks, p, b, i as int);
        }
        proof {
            reveal(parts_exact);
        }
        merge_pair(piece, parts, i, min_rank.0, ranks);
        proof {
            lemma_parts_after_merge(ranks, p, old_parts, parts@, i as int);
        }
        min_rank = min_pair_rank(parts);
        proof {
            lemma_scan_min(ranks, p, parts@, min_rank.0, min_rank.1 as int);
        }
    }
    proof {
        lemma_merge_done(ranks, p, part_bounds(parts@));
        reveal(parts_exact);
    }

    // Emit tracked ids (no re-lookup); skip the end sentinel.
    let ghost out0 = out@;
    let m = parts.len() - 1;
    let mut k: usize = 0;
    while k < m
        invariant
            m == parts@.len() - 1,
            k <= m,
            forall|x: int|
                0 <= x < parts@.len() - 1 ==> (#[trigger] parts@[x]).2 == rank_or_max(
                    ranks.rank_of(p.subrange(parts@[x].0 as int, parts@[x + 1].0 as int)),
                ),
            out@ == out0 + span_ids(ranks, p, part_bounds(parts@)).subrange(0, k as int),
        decreases m - k,
    {
        out.push(parts[k].2);
        proof {
            assert(span_ids(ranks, p, part_bounds(parts@)).subrange(0, k + 1) =~= span_ids(
                ranks,
                p,
                part_bounds(parts@),
            ).subrange(0, k as int).push(parts@[k as int].2));
        }
        k += 1;
    }
    proof {
        assert(span_ids(ranks, p, part_bounds(parts@)).subrange(0, m as int) =~= span_ids(
            ranks,
            p,
            part_bounds(parts@),
        ));
        assert(merge_bounds(ranks, p, byte_bounds(p.len())) == part_bounds(parts@));
    }
}

/// The working parts describe well-formed boundaries, and their cached pair
/// ranks and token ids are exact.
#[verifier::opaque]
pub open spec fn parts_exact<R: RankLookup>(ranks: &R, piece: Seq<u8>, parts: Seq<Part>) -> bool {
    &&& parts.len() >= 2
    &&& bounds_wf(part_bounds(parts), piece.len() as int)
    &&& forall|k: int|
        0 <= k < parts.len() ==> (#[trigger] parts[k]).1 == pair_rank(
            ranks,
            piece,
            part_bounds(parts),
            k,
        )
    &&& forall|k: int|
        0 <= k < parts.len() - 1 ==> (#[trigger] parts[k]).2 == rank_or_max(
            ranks.rank_of(piece.subrange(parts[k].0 as int, parts[k + 1].0 as int)),
        )
}

/// Merge part `i` with part `i + 1`: the merged token's id is `id`, and the
/// pair ranks of the merged part and its left neighbour are recomputed.
fn merge_pair<R: RankLookup>(piece: &[u8], parts: &mut Vec<Part>, i: usize, id: Rank, ranks: &R)
    requires
        bounds_wf(part_bounds(old(parts)@), piece@.len() as int),
        i + 2 < old(parts)@.len(),
    ensures
        final(parts)@.len() == old(parts)@.len() - 1,
        forall|k: int| 0 <= k < i - 1 ==> final(parts)@[k] == old(parts)@[k],
        i > 0 ==> final(parts)@[i - 1].0 == old(parts)@[i - 1].0 && final(parts)@[i - 1].2 == old(
            parts,
        )@[i - 1].2 && final(parts)@[i - 1].1 == (if i + 2 < old(parts)@.len() {
            rank_or_max(
                ranks.rank_of(
                    piece@.subrange(old(parts)@[i - 1].0 as int, old(parts)@[i + 2].0 as int),
                ),
            )
        } else {
            RANK_MAX
        }),
        final(parts)@[i as int].0 == old(parts)@[i as int].0,
        final(parts)@[i as int].2 == id,
        final(parts)@[i as int].1 == (if i + 3 < old(parts)@.len() {
            rank_or_max(
                ranks.rank_of(
                    piece@.subrange(old(parts)@[i as int].0 as int, old(parts)@[i + 3].0 as int),
                ),
            )
        } else {
            RANK_MAX
        }),
        forall|k: int| i < k < final(parts)@.len() ==> final(parts)@[k] == old(parts)@[k + 1],
{
    let ghost b = part_bounds(parts@);
    let _len = parts.len();
    let (o_i, r_i, _) = parts[i];
    parts.set(i, (o_i, r_i, id));
    proof {
        assert(part_bounds(parts@) =~= b);
    }
    if i > 0 {
        let r = pair_rank_at(piece, parts, i - 1, ranks);
        let (o, _, t) = parts[i - 1];
        parts.set(i - 1, (o, r, t));
        proof {
            assert(part_bounds(parts@) =~= b);
        }
    }
    let r = pair_rank_at(piece, parts, i, ranks);
    let (o, _, t) = parts[i];
    parts.set(i, (o, r, t));
    parts.remove(i + 1);
}

/// Leftmost minimum of the cached pair ranks (the end sentinel excluded).
fn min_pair_rank(parts: &Vec<Part>) -> (r: (Rank, usize))
    requires
        parts@.len() >= 1,
    ensures
        r.0 < RANK_MAX ==> r.1 < parts@.len() - 1 && parts@[r.1 as int].1 == r.0,
        forall|k: int| 0 <= k < parts@.len() - 1 ==> (#[trigger] parts@[k]).1 >= r.0,
        r.0 < RANK_MAX ==> forall|k: int| 0 <= k < r.1 ==> (#[trigger] parts@[k]).1 > r.0,
{
    let mut min_rank: (Rank, usize) = (RANK_MAX, usize::MAX);
    let m = parts.len() - 1;
    let mut j: usize = 0;
    while j < m
        invariant
            m == parts@.len() - 1,
            j <= m,
            min_rank.0 < RANK_MAX ==> min_rank.1 < j && parts@[min_rank.1 as int].1 == min_rank.0,
            forall|k: int| 0 <= k < j ==> (#[trigger] parts@[k]).1 >= min_rank.0,
            min_rank.0 < RANK_MAX ==> forall|k: int|
                0 <= k < min_rank.1 ==> (#[trigger] parts@[k]).1 > min_rank.0,
        decreases m - j,
    {
        let rank = parts[j].1;
        if rank < min_rank.0 {
            min_rank = (rank, j);
        }
        j += 1;
    }
    min_rank
}

/// A leftmost-minimum scan of exact cached ranks finds the minimal pair, or
/// shows that no pair merges.
proof fn lemma_scan_min<R: RankLookup>(ranks: &R, piece: Seq<u8>, parts: Seq<Part>, r: Rank, i: int)
    requires
        parts_exact(ranks, piece, parts),
        r < RANK_MAX ==> 0 <= i < parts.len() - 1 && parts[i].1 == r,
        forall|k: int| 0 <= k < parts.len() - 1 ==> (#[trigger] parts[k]).1 >= r,
        r < RANK_MAX ==> forall|k: int| 0 <= k < i ==> (#[trigger] parts[k]).1 > r,
    ensures
        r < RANK_MAX ==> is_min_pair(ranks, piece, part_bounds(parts), i) && r == pair_rank(
            ranks,
            piece,
            part_bounds(parts),
            i,
        ),
        r == RANK_MAX ==> !has_merge(ranks, piece, part_bounds(parts)),
{
    reveal(parts_exact);
    let b = part_bounds(parts);
    if r < RANK_MAX {
        assert forall|j: int| 0 <= j < i implies pair_rank(ranks, piece, b, j) > pair_rank(
            ranks,
            piece,
            b,
            i,
        ) by {
            assert(parts[j].1 > r);
        }
        assert forall|j: int| i < j && j + 2 < b.len() implies pair_rank(ranks, piece, b, j)
            >= pair_rank(ranks, piece, b, i) by {
            assert(parts[j].1 >= r);
        }
    } else {
        if has_merge(ranks, piece, b) {
            let w = choose|w: int| 0 <= w && w + 2 < b.len() && pair_rank(ranks, piece, b, w) < RANK_MAX;
            assert(parts[w].1 >= r);
        }
    }
}

/// Merging the minimal pair `i` (id of part `i` set to the pair's rank, the
/// neighbouring pair ranks recomputed, part `i + 1` removed) keeps the parts exact.
proof fn lemma_parts_after_merge<R: RankLookup>(
    ranks: &R,
    piece: Seq<u8>,
    old_parts: Seq<Part>,
    parts: Seq<Part>,
    i: int,
)
    requires
        parts_exact(ranks, piece, old_parts),
        is_min_pair(ranks, piece, part_bounds(old_parts), i),
        parts.len() == old_parts.len() - 1,
        forall|k: int| 0 <= k < i - 1 ==> parts[k] == old_parts[k],
        i > 0 ==> parts[i - 1].0 == old_parts[i - 1].0 && parts[i - 1].2 == old_parts[i - 1].2
            && parts[i - 1].1 == (if i + 2 < old_parts.len() {
            rank_or_max(ranks.rank_of(piece.subrange(old_parts[i - 1].0 as int, old_parts[i + 2].0 as int)))
        } else {
            RANK_MAX
        }),
        parts[i].0 == old_parts[i].0,
        parts[i].2 == pair_rank(ranks, piece, part_bounds(old_parts), i),
        parts[i].1 == (if i + 3 < old_parts.len() {
            rank_or_max(ranks.rank_of(piece.subrange(old_parts[i].0 as int, old_parts[i + 3].0 as int)))
        } else {
            RANK_MAX
        }),
        forall|k: int| i < k < parts.len() ==> parts[k] == old_parts[k + 1],
    ensures
        parts_exact(ranks, piece, parts),
        part_bounds(parts) == part_bounds(old_parts).remove(i + 1),
{
    reveal(parts_exact);
    let b = part_bounds(old_parts);
    let b2 = b.remove(i + 1);
    assert(part_bounds(parts) =~= b2) by {
        assert forall|k: int| 0 <= k < parts.len() implies part_bounds(parts)[k] == b2[k] by {
            if k < i - 1 {
            } else if k == i - 1 {
            } else if k == i {
            } else {
                assert(parts[k] == old_parts[k + 1]);
            }
        }
    }
    lemma_merge_bounds_wf_step(ranks, piece, b, i);
    assert forall|k: int| 0 <= k < parts.len() implies (#[trigger] parts[k]).1 == pair_rank(
        ranks,
        piece,
        b2,
        k,
    ) by {
        if k < i - 1 {
            assert(old_parts[k].1 == pair_rank(ranks, piece, b, k));
        } else if k == i - 1 {
        } else if k == i {
        } else {
            assert(old_parts[k + 1].1 == pair_rank(ranks, piece, b, k + 1));
        }
    }
    assert forall|k: int| 0 <= k < parts.len() - 1 implies (#[trigger] parts[k]).2 == rank_or_max(
        ranks.rank_of(piece.subrange(parts[k].0 as int, parts[k + 1].0 as int)),
    ) by {
        if k < i - 1 {
            assert(old_parts[k].2 == rank_or_max(
                ranks.rank_of(piece.subrange(old_parts[k].0 as int, old_parts[k + 1].0 as int)),
            ));
        } else if k == i - 1 {
            assert(old_parts[k].2 == rank_or_max(
                ranks.rank_of(piece.subrange(old_parts[k].0 as int, old_parts[k + 1].0 as int)),
            ));
        } else if k == i {
            assert(parts[k + 1] == old_parts[k + 2]);
        } else {
            assert(parts[k + 1] == old_parts[k + 2]);
            assert(old_parts[k + 1].2 == rank_or_max(
                ranks.rank_of(piece.subrange(old_parts[k + 1].0 as int, old_parts[k + 2].0 as int)),
            ));
        }
    }
}

/// The cached pair ranks and part ids stay exact across one merge step.
proof fn lemma_merge_bounds_wf_step<R: RankLookup>(ranks: &R, piece: Seq<u8>, b: Seq<int>, i: int)
    requires
        is_min_pair(ranks, piece, b, i),
        bounds_wf(b, piece.len() as int),
    ensures
        bounds_wf(b.remove(i + 1), piece.len() as int),
{
    let b2 = b.remove(i + 1);
    assert forall|x: int, y: int| 0 <= x < y < b2.len() implies b2[x] < b2[y] by {
        let x1 = if x < i + 1 {
            x
        } else {
            x + 1
        };
        let y1 = if y < i + 1 {
            y
        } else {
            y + 1
        };
        assert(b2[x] == b[x1] && b2[y] == b[y1]);
    }
}

} // verus!
