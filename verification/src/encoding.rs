//! The encode/decode engine over a loaded vocab: pretokenize, byte-pair encode
//! each piece, and split on special tokens.
use crate::bpe::{
    bounds_wf, bpe_piece, byte_bounds, byte_pair_encode, bytes_are_tokens, lemma_byte_spans_tokens,
    lemma_merge_bounds_wf, lemma_merge_spans_tokens, merge_bounds, span_ids, spans_tokens, Part,
};
use crate::pretok::{grammar_piece_end, lemma_grammar_piece_end, Grammar, Pretokenizer, Scanner};
use crate::rank::{Rank, RankLookup, RANK_MAX};
use crate::specials::{
    lemma_first_from_found, name_spec, next_special, occurs_at, IdFilter, SpecialTokens,
};
use vstd::prelude::*;
use vstd::string::StringSliceAdditionalSpecFns;
use vstd::utf8::{
    encode_utf8, encode_utf8_valid_utf8, is_char_boundary, is_char_boundary_start_end_of_seq,
    length_of_first_scalar, pop_first_scalar, valid_utf8, valid_utf8_split,
};

verus! {

/// Disallowed-special error on the special-aware `encode` path.
#[derive(Debug, Clone, PartialEq, Eq)]
pub struct DisallowedSpecial {
    pub token: Vec<u8>,
    pub offset: usize,
}

/// Decode error: an id with no byte string and no special name.
#[derive(Debug, Clone, PartialEq, Eq)]
pub struct InvalidToken(pub Rank);

/// Reverse map id -> bytes for decode.
pub trait Decoder {
    /// The bytes of token `id`, if it has any.
    spec fn decoded(&self, id: Rank) -> Option<Seq<u8>>;

    fn bytes_for(&self, id: Rank) -> (r: Option<&[u8]>)
        ensures
            r matches Some(b) ==> self.decoded(id) == Some(b@),
            r is None ==> self.decoded(id) is None,
    ;
}

/// Every single byte is a token (true of every byte-level BPE vocab).
pub open spec fn all_bytes_tokens<R: RankLookup>(ranks: &R) -> bool {
    forall|b: u8| #[trigger] ranks.rank_of(seq![b]) is Some
}

/// Each special token is valid UTF-8, so its matches in text fall on
/// character boundaries.
pub open spec fn specials_utf8(entries: Seq<(Seq<u8>, Rank)>) -> bool {
    forall|k: int| 0 <= k < entries.len() ==> valid_utf8(#[trigger] entries[k].0)
}

/// The ids of `input` from `start` on, with specials as literal text: the
/// grammar's pieces, each byte-pair encoded.
pub open spec fn ordinary_ids<R: RankLookup>(
    ranks: &R,
    g: Grammar,
    input: Seq<u8>,
    start: int,
) -> Seq<Rank>
    decreases input.len() - start,
{
    if start < 0 || start >= input.len() {
        Seq::empty()
    } else {
        let e = grammar_piece_end(g, input, start);
        if e <= start || e > input.len() {
            Seq::empty()
        } else {
            bpe_piece(ranks, input.subrange(start, e)) + ordinary_ids(ranks, g, input, e)
        }
    }
}

/// The ids of `input` from `pos` on, with the specials that `ok_id` passes
/// cut out and emitted as their ids, and the text between them encoded
/// ordinarily.
pub open spec fn special_ids<R: RankLookup>(
    ranks: &R,
    g: Grammar,
    entries: Seq<(Seq<u8>, Rank)>,
    ok_id: spec_fn(Rank) -> bool,
    input: Seq<u8>,
    pos: int,
) -> Seq<Rank>
    decreases input.len() - pos,
{
    if pos < 0 || pos >= input.len() {
        Seq::empty()
    } else {
        match next_special(entries, input, pos, ok_id) {
            Some((s, e, id)) => if pos <= s < e <= input.len() {
                ordinary_ids(ranks, g, input.subrange(pos, s), 0) + seq![id] + special_ids(
                    ranks,
                    g,
                    entries,
                    ok_id,
                    input,
                    e,
                )
            } else {
                Seq::empty()
            },
            None => ordinary_ids(ranks, g, input.subrange(pos, input.len() as int), 0),
        }
    }
}

/// The bytes of one id: its token bytes, else its special name.
pub open spec fn token_bytes<D: Decoder>(dec: &D, entries: Seq<(Seq<u8>, Rank)>, id: Rank) -> Option<
    Seq<u8>,
> {
    if dec.decoded(id) is Some {
        dec.decoded(id)
    } else {
        name_spec(entries, id)
    }
}

/// The bytes of a sequence of ids, if every id has bytes.
pub open spec fn decode_ids<D: Decoder>(
    dec: &D,
    entries: Seq<(Seq<u8>, Rank)>,
    ids: Seq<Rank>,
) -> Option<Seq<u8>>
    decreases ids.len(),
{
    if ids.len() == 0 {
        Some(Seq::empty())
    } else {
        match decode_ids(dec, entries, ids.drop_last()) {
            None => None,
            Some(p) => match token_bytes(dec, entries, ids.last()) {
                None => None,
                Some(b) => Some(p + b),
            },
        }
    }
}

/// The first id in `ids` that has no bytes, if any.
pub open spec fn first_invalid<D: Decoder>(
    dec: &D,
    entries: Seq<(Seq<u8>, Rank)>,
    ids: Seq<Rank>,
) -> Option<int> {
    if exists|i: int| 0 <= i < ids.len() && token_bytes(dec, entries, ids[i]) is None {
        Some(
            choose|i: int|
                0 <= i < ids.len() && token_bytes(dec, entries, ids[i]) is None && forall|j: int|
                    0 <= j < i ==> token_bytes(dec, entries, ids[j]) is Some,
        )
    } else {
        None
    }
}

pub struct Engine<'a, R: RankLookup, D: Decoder> {
    pub ranks: &'a R,
    pub decoder: &'a D,
    pub specials: &'a SpecialTokens,
    pub grammar: Grammar,
}

impl<'a, R: RankLookup, D: Decoder> Engine<'a, R, D> {
    pub fn new(ranks: &'a R, decoder: &'a D, specials: &'a SpecialTokens, grammar: Grammar) -> (r:
        Self)
        ensures
            r.ranks == ranks,
            r.decoder == decoder,
            r.specials == specials,
            r.grammar == grammar,
    {
        Engine { ranks, decoder, specials, grammar }
    }

    /// encode_ordinary: specials are literal bytes. Appends ids to `out`.
    pub fn encode_ordinary_into(&self, text: &str, out: &mut Vec<Rank>)
        requires
            all_bytes_tokens(self.ranks),
        ensures
            final(out)@ == old(out)@ + ordinary_ids(self.ranks, self.grammar, text.spec_bytes(), 0),
    {
        proof {
            encode_utf8_valid_utf8(text@);
        }
        self.encode_ordinary_bytes(text.as_bytes(), out);
    }

    fn encode_ordinary_bytes(&self, bytes: &[u8], out: &mut Vec<Rank>)
        requires
            all_bytes_tokens(self.ranks),
            valid_utf8(bytes@),
        ensures
            final(out)@ == old(out)@ + ordinary_ids(self.ranks, self.grammar, bytes@, 0),
    {
        let mut pre = Scanner::new(self.grammar);
        let mut parts: Vec<Part> = Vec::new();
        let n = bytes.len();
        proof {
            is_char_boundary_start_end_of_seq(bytes@);
        }
        loop
            invariant
                all_bytes_tokens(self.ranks),
                valid_utf8(bytes@),
                n == bytes@.len(),
                pre.grammar() == self.grammar,
                0 <= pre.cursor() <= bytes@.len(),
                is_char_boundary(bytes@, pre.cursor()),
                old(out)@ + ordinary_ids(self.ranks, self.grammar, bytes@, 0) == out@
                    + ordinary_ids(self.ranks, self.grammar, bytes@, pre.cursor()),
            ensures
                out@ == old(out)@ + ordinary_ids(self.ranks, self.grammar, bytes@, 0),
            decreases bytes@.len() - pre.cursor(),
        {
            let ghost c = pre.cursor();
            match pre.next_piece(bytes) {
                Some((a, z)) => {
                    proof {
                        lemma_grammar_piece_end(self.grammar, bytes@, c);
                        assert(bytes_are_tokens(self.ranks, bytes@.subrange(a as int, z as int)))
                            by {
                            assert forall|i: int| 0 <= i < z - a implies (#[trigger] self.ranks.rank_of(
                                seq![bytes@.subrange(a as int, z as int)[i]],
                            )) is Some by {
                                let b = bytes@.subrange(a as int, z as int)[i];
                                assert(self.ranks.rank_of(seq![b]) is Some);
                            }
                        }
                    }
                    let ghost before = out@;
                    byte_pair_encode(&bytes[a..z], self.ranks, &mut parts, out);
                },
                None => {
                    proof {
                        assert(ordinary_ids(self.ranks, self.grammar, bytes@, c) =~= Seq::empty());
                        assert(out@ =~= old(out)@ + ordinary_ids(self.ranks, self.grammar, bytes@, 0));
                    }
                    break ;
                },
            }
        }
    }

    /// The number of ids `encode_ordinary_into` gives for `text`.
    pub fn count(&self, text: &str) -> (r: usize)
        requires
            all_bytes_tokens(self.ranks),
        ensures
            r == ordinary_ids(self.ranks, self.grammar, text.spec_bytes(), 0).len(),
    {
        let mut tmp: Vec<Rank> = Vec::new();
        self.encode_ordinary_into(text, &mut tmp);
        tmp.len()
    }

    /// encode_with_special: all specials recognized -> their ids.
    pub fn encode_with_special_into(&self, text: &str, out: &mut Vec<Rank>)
        requires
            all_bytes_tokens(self.ranks),
            specials_utf8(self.specials@),
        ensures
            final(out)@ == old(out)@ + special_ids(
                self.ranks,
                self.grammar,
                self.specials@,
                IdFilter::All.as_pred(),
                text.spec_bytes(),
                0,
            ),
    {
        proof {
            encode_utf8_valid_utf8(text@);
        }
        let all = IdFilter::All;
        let r = self.encode_special_inner(text.as_bytes(), &all, out);
        proof {
            let none: spec_fn(Rank) -> bool = |id: Rank| !all.passes(id);
            if exists|k: int|
                crate::specials::chosen(self.specials@, text.spec_bytes(), 0, none, k, self.specials@.len() as int) {
                let k = choose|k: int|
                    crate::specials::chosen(self.specials@, text.spec_bytes(), 0, none, k, self.specials@.len() as int);
                assert(crate::specials::candidate(self.specials@, text.spec_bytes(), 0, none, k));
            }
        }
    }

    /// encode: errors on a special not in `allowed`.
    pub fn encode_into(&self, text: &str, allowed: &IdFilter, out: &mut Vec<Rank>) -> (r: Result<
        (),
        DisallowedSpecial,
    >)
        requires
            all_bytes_tokens(self.ranks),
            specials_utf8(self.specials@),
        ensures
            match next_special(
                self.specials@,
                text.spec_bytes(),
                0,
                |id: Rank| !allowed.passes(id),
            ) {
                Some((s, e, _)) => r matches Err(d) && d.offset == s && d.token@
                    == text.spec_bytes().subrange(s, e) && final(out)@ == old(out)@,
                None => r is Ok && final(out)@ == old(out)@ + special_ids(
                    self.ranks,
                    self.grammar,
                    self.specials@,
                    allowed.as_pred(),
                    text.spec_bytes(),
                    0,
                ),
            },
    {
        proof {
            encode_utf8_valid_utf8(text@);
        }
        self.encode_special_inner(text.as_bytes(), allowed, out)
    }

    /// Shared special-aware path. `allowed` gates which specials are emitted;
    /// a special present in text but NOT allowed is an error (tiktoken semantics).
    fn encode_special_inner(&self, bytes: &[u8], allowed: &IdFilter, out: &mut Vec<Rank>) -> (r:
        Result<(), DisallowedSpecial>)
        requires
            all_bytes_tokens(self.ranks),
            specials_utf8(self.specials@),
            valid_utf8(bytes@),
        ensures
            match next_special(self.specials@, bytes@, 0, |id: Rank| !allowed.passes(id)) {
                Some((s, e, _)) => r matches Err(d) && d.offset == s && d.token@ == bytes@.subrange(
                    s,
                    e,
                ) && final(out)@ == old(out)@,
                None => r is Ok && final(out)@ == old(out)@ + special_ids(
                    self.ranks,
                    self.grammar,
                    self.specials@,
                    allowed.as_pred(),
                    bytes@,
                    0,
                ),
            },
    {
        let ghost ent = self.specials@;
        let ghost okf = allowed.as_pred();
        let ghost inp = bytes@;
        if self.specials.is_empty() {
            self.encode_ordinary_bytes(bytes, out);
            proof {
                assert(next_special(ent, inp, 0, |id: Rank| !allowed.passes(id)) is None);
                assert(next_special(ent, inp, 0, okf) is None);
                if inp.len() > 0 {
                    assert(inp.subrange(0, inp.len() as int) =~= inp);
                } else {
                    assert(ordinary_ids(self.ranks, self.grammar, inp, 0) =~= Seq::empty());
                }
            }
            return Ok(());
        }
        // tiktoken semantics: if any DISALLOWED special appears literally, error
        // (find_next returns the earliest such occurrence).
        let deny = allowed.complement();
        proof {
            assert(deny.as_pred() =~= (|id: Rank| !allowed.passes(id)));
        }
        if let Some((s, e, _id)) = self.specials.find_next(bytes, 0, &deny) {
            let token = crate::rank::copy_bytes(&bytes[s..e]);
            return Err(DisallowedSpecial { token, offset: s });
        }
        // Now split on allowed specials and encode ordinary spans between.
        let mut pos: usize = 0;
        proof {
            assert(inp.subrange(0, inp.len() as int) =~= inp);
        }
        while pos < bytes.len()
            invariant
                all_bytes_tokens(self.ranks),
                specials_utf8(ent),
                ent == self.specials@,
                okf == allowed.as_pred(),
                inp == bytes@,
                valid_utf8(inp.subrange(pos as int, inp.len() as int)),
                pos <= inp.len(),
                old(out)@ + special_ids(self.ranks, self.grammar, ent, okf, inp, 0) == out@
                    + special_ids(self.ranks, self.grammar, ent, okf, inp, pos as int),
            decreases inp.len() - pos,
        {
            let ghost t = inp.subrange(pos as int, inp.len() as int);
            match self.specials.find_next(bytes, pos, allowed) {
                Some((s, e, id)) => {
                    proof {
                        lemma_next_special_occurs(ent, inp, pos as int, okf);
                        let k = choose|k: int|
                            crate::specials::chosen(ent, inp, pos as int, okf, k, ent.len() as int);
                        let needle = ent[k].0;
                        assert(occurs_at(inp, needle, s as int));
                        assert(occurs_at(t, needle, s - pos)) by {
                            assert(t.subrange(s - pos, s - pos + needle.len()) =~= inp.subrange(
                                s as int,
                                s + needle.len(),
                            ));
                        }
                        lemma_match_split(t, needle, s - pos);
                        assert(t.subrange(0, s - pos) =~= inp.subrange(pos as int, s as int));
                        assert(t.subrange(e - pos, t.len() as int) =~= inp.subrange(
                            e as int,
                            inp.len() as int,
                        ));
                    }
                    let ghost before = out@;
                    if s > pos {
                        self.encode_ordinary_bytes(&bytes[pos..s], out);
                    } else {
                        proof {
                            assert(ordinary_ids(self.ranks, self.grammar, inp.subrange(pos as int, s as int), 0)
                                =~= Seq::empty());
                        }
                    }
                    out.push(id);
                    proof {
                        assert(out@ =~= before + ordinary_ids(
                            self.ranks,
                            self.grammar,
                            inp.subrange(pos as int, s as int),
                            0,
                        ) + seq![id]);
                    }
                    pos = e;
                },
                None => {
                    let ghost before = out@;
                    self.encode_ordinary_bytes(&bytes[pos..bytes.len()], out);
                    proof {
                        assert(special_ids(self.ranks, self.grammar, ent, okf, inp, inp.len() as int)
                            =~= Seq::empty());
                    }
                    pos = bytes.len();
                },
            }
        }
        proof {
            assert(special_ids(self.ranks, self.grammar, ent, okf, inp, pos as int) =~= Seq::empty());
            assert(out@ =~= old(out)@ + special_ids(self.ranks, self.grammar, ent, okf, inp, 0));
        }
        Ok(())
    }

    /// decode ids -> bytes (lossless). Handles special ids too.
    pub fn decode_into(&self, ids: &[Rank], out: &mut Vec<u8>) -> (r: Result<(), InvalidToken>)
        ensures
            match first_invalid(self.decoder, self.specials@, ids@) {
                None => r is Ok && (decode_ids(self.decoder, self.specials@, ids@) matches Some(b)
                    && final(out)@ == old(out)@ + b),
                Some(i) => r == Err::<(), InvalidToken>(InvalidToken(ids@[i])) && (decode_ids(
                    self.decoder,
                    self.specials@,
                    ids@.take(i),
                ) matches Some(b) && final(out)@ == old(out)@ + b),
            },
    {
        let ghost dec = self.decoder;
        let ghost ent = self.specials@;
        let mut i: usize = 0;
        proof {
            assert(ids@.take(0) =~= Seq::<Rank>::empty());
        }
        while i < ids.len()
            invariant
                i <= ids@.len(),
                dec == self.decoder,
                ent == self.specials@,
                forall|j: int| 0 <= j < i ==> token_bytes(dec, ent, ids@[j]) is Some,
                decode_ids(dec, ent, ids@.take(i as int)) matches Some(b) && out@ == old(out)@ + b,
            decreases ids@.len() - i,
        {
            let id = ids[i];
            let ghost prefix = decode_ids(dec, ent, ids@.take(i as int))->Some_0;
            proof {
                assert(ids@.take(i + 1).drop_last() =~= ids@.take(i as int));
                assert(ids@.take(i + 1).last() == id);
            }
            match self.decoder.bytes_for(id) {
                Some(b) => {
                    append_bytes(out, b);
                },
                None => match self.specials.name_of(id) {
                    Some(name) => {
                        append_bytes(out, name);
                    },
                    None => {
                        proof {
                            assert(token_bytes(dec, ent, ids@[i as int]) is None);
                            let w = choose|x: int|
                                0 <= x < ids@.len() && token_bytes(dec, ent, ids@[x]) is None
                                    && forall|j: int|
                                    0 <= j < x ==> token_bytes(dec, ent, ids@[j]) is Some;
                            assert(w == i) by {
                                if w < i {
                                    assert(token_bytes(dec, ent, ids@[w]) is Some);
                                } else if w > i {
                                    assert(token_bytes(dec, ent, ids@[i as int]) is Some);
                                }
                            }
                        }
                        return Err(InvalidToken(id));
                    },
                },
            }
            proof {
                assert(out@ =~= old(out)@ + decode_ids(dec, ent, ids@.take(i + 1))->Some_0);
            }
            i += 1;
        }
        proof {
            assert(ids@.take(ids@.len() as int) =~= ids@);
            if exists|x: int| 0 <= x < ids@.len() && token_bytes(dec, ent, ids@[x]) is None {
                let x = choose|x: int| 0 <= x < ids@.len() && token_bytes(dec, ent, ids@[x]) is None;
                assert(token_bytes(dec, ent, ids@[x]) is Some);
            }
        }
        Ok(())
    }
}

fn append_bytes(out: &mut Vec<u8>, b: &[u8])
    ensures
        final(out)@ == old(out)@ + b@,
{
    let mut i: usize = 0;
    while i < b.len()
        invariant
            i <= b@.len(),
            out@ == old(out)@ + b@.take(i as int),
        decreases b@.len() - i,
    {
        out.push(b[i]);
        i += 1;
        proof {
            assert(out@ =~= old(out)@ + b@.take(i as int));
        }
    }
    proof {
        assert(b@.take(b@.len() as int) =~= b@);
    }
}

// ---------------------------------------------------------------------------
// Special matches fall on character boundaries
// ---------------------------------------------------------------------------

proof fn lemma_next_special_occurs(
    entries: Seq<(Seq<u8>, Rank)>,
    input: Seq<u8>,
    from: int,
    ok_id: spec_fn(Rank) -> bool,
)
    requires
        0 <= from <= input.len(),
        next_special(entries, input, from, ok_id) is Some,
    ensures
        exists|k: int| crate::specials::chosen(entries, input, from, ok_id, k, entries.len() as int),
        ({
            let k = choose|k: int| crate::specials::chosen(entries, input, from, ok_id, k, entries.len() as int);
            let s = next_special(entries, input, from, ok_id)->Some_0.0;
            occurs_at(input, entries[k].0, s)
        }),
{
    let k = choose|k: int| crate::specials::chosen(entries, input, from, ok_id, k, entries.len() as int);
    let hay = input.skip(from);
    let o = crate::specials::first_from(hay, entries[k].0, 0)->Some_0;
    lemma_first_from_found(hay, entries[k].0, 0, o);
    let n = entries[k].0.len();
    assert(input.subrange(from + o, from + o + n) =~= hay.subrange(o, o + n));
}

/// A valid string's leading byte is not a continuation byte.
proof fn lemma_prefix_boundary(needle: Seq<u8>, rest: Seq<u8>)
    requires
        valid_utf8(needle),
        valid_utf8(needle + rest),
    ensures
        is_char_boundary(needle + rest, needle.len() as int),
    decreases needle.len(),
{
    let w = needle + rest;
    if needle.len() > 0 {
        let l = length_of_first_scalar(needle);
        assert(w[0] == needle[0]);
        assert(length_of_first_scalar(w) == l);
        assert(pop_first_scalar(w) =~= pop_first_scalar(needle) + rest);
        lemma_prefix_boundary(pop_first_scalar(needle), rest);
    }
}

/// A valid needle found in a valid string splits it into valid pieces.
proof fn lemma_match_split(t: Seq<u8>, needle: Seq<u8>, s: int)
    requires
        valid_utf8(t),
        valid_utf8(needle),
        occurs_at(t, needle, s),
    ensures
        valid_utf8(t.subrange(0, s)),
        valid_utf8(t.subrange(s + needle.len(), t.len() as int)),
{
    vstd::utf8::is_char_boundary_iff_not_is_continuation_byte(t, s);
    assert(t[s] == needle[0]) by {
        assert(t.subrange(s, s + needle.len())[0] == t[s]);
    }
    assert(!vstd::utf8::is_continuation_byte(needle[0]));
    assert(is_char_boundary(t, s));
    valid_utf8_split(t, s);
    let u = t.subrange(s, t.len() as int);
    let rest = u.subrange(needle.len() as int, u.len() as int);
    assert(u =~= needle + rest);
    lemma_prefix_boundary(needle, rest);
    valid_utf8_split(u, needle.len() as int);
    assert(u.subrange(needle.len() as int, u.len() as int) =~= t.subrange(
        s + needle.len(),
        t.len() as int,
    ));
}


// ---------------------------------------------------------------------------
// Decoding an encoding gives the text back
// ---------------------------------------------------------------------------

/// The decoder gives every token the bytes it is ranked for.
pub open spec fn inverts<R: RankLookup, D: Decoder>(ranks: &R, dec: &D) -> bool {
    forall|b: Seq<u8>|
        #[trigger] ranks.rank_of(b) is Some ==> dec.decoded(ranks.rank_of(b)->Some_0) == Some(b)
}

/// Ids that decode have no invalid id among them.
pub proof fn lemma_decodes_all_valid<D: Decoder>(
    dec: &D,
    entries: Seq<(Seq<u8>, Rank)>,
    ids: Seq<Rank>,
)
    requires
        decode_ids(dec, entries, ids) is Some,
    ensures
        forall|i: int| 0 <= i < ids.len() ==> token_bytes(dec, entries, #[trigger] ids[i]) is Some,
        first_invalid(dec, entries, ids) is None,
    decreases ids.len(),
{
    if ids.len() > 0 {
        lemma_decodes_all_valid(dec, entries, ids.drop_last());
        assert forall|i: int| 0 <= i < ids.len() implies token_bytes(dec, entries, #[trigger] ids[i])
            is Some by {
            if i < ids.len() - 1 {
                assert(ids.drop_last()[i] == ids[i]);
            }
        }
    }
}

/// Decoding a concatenation decodes each half.
pub proof fn lemma_decode_concat<D: Decoder>(
    dec: &D,
    entries: Seq<(Seq<u8>, Rank)>,
    a: Seq<Rank>,
    b: Seq<Rank>,
)
    ensures
        decode_ids(dec, entries, a + b) == match (
            decode_ids(dec, entries, a),
            decode_ids(dec, entries, b),
        ) {
            (Some(x), Some(y)) => Some(x + y),
            _ => None,
        },
    decreases b.len(),
{
    if b.len() == 0 {
        assert(a + b =~= a);
        if let Some(x) = decode_ids(dec, entries, a) {
            assert(x + Seq::<u8>::empty() =~= x);
        }
    } else {
        assert((a + b).drop_last() =~= a + b.drop_last());
        assert((a + b).last() == b.last());
        lemma_decode_concat(dec, entries, a, b.drop_last());
        if let (Some(x), Some(y)) = (
            decode_ids(dec, entries, a),
            decode_ids(dec, entries, b.drop_last()),
        ) {
            if let Some(t) = token_bytes(dec, entries, b.last()) {
                assert(x + y + t =~= x + (y + t));
            }
        }
    }
}

proof fn lemma_spans_decode<R: RankLookup, D: Decoder>(
    ranks: &R,
    dec: &D,
    entries: Seq<(Seq<u8>, Rank)>,
    piece: Seq<u8>,
    b: Seq<int>,
    m: int,
)
    requires
        inverts(ranks, dec),
        bounds_wf(b, piece.len() as int),
        spans_tokens(ranks, piece, b),
        1 <= m <= b.len(),
    ensures
        decode_ids(dec, entries, span_ids(ranks, piece, b.take(m))) == Some(
            piece.subrange(0, b[m - 1]),
        ),
    decreases m,
{
    if m == 1 {
        assert(span_ids(ranks, piece, b.take(m)) =~= Seq::empty());
        assert(piece.subrange(0, b[0]) =~= Seq::empty());
    } else {
        lemma_spans_decode(ranks, dec, entries, piece, b, m - 1);
        let k = m - 2;
        let span = piece.subrange(b[k], b[k + 1]);
        assert(ranks.rank_of(span) is Some);
        let id = ranks.rank_of(span)->Some_0;
        assert(dec.decoded(id) == Some(span));
        let ids = span_ids(ranks, piece, b.take(m));
        assert(ids.drop_last() =~= span_ids(ranks, piece, b.take(m - 1)));
        assert(ids.last() == id);
        assert(b[k] < b[k + 1]);
        assert(piece.subrange(0, b[k]) + span =~= piece.subrange(0, b[m - 1]));
    }
}

/// The encoding of one piece decodes to the piece.
pub proof fn lemma_bpe_piece_decodes<R: RankLookup, D: Decoder>(
    ranks: &R,
    dec: &D,
    entries: Seq<(Seq<u8>, Rank)>,
    piece: Seq<u8>,
)
    requires
        inverts(ranks, dec),
        bytes_are_tokens(ranks, piece),
        piece.len() >= 1,
    ensures
        decode_ids(dec, entries, bpe_piece(ranks, piece)) == Some(piece),
{
    if ranks.rank_of(piece) is Some {
        let id = ranks.rank_of(piece)->Some_0;
        assert(bpe_piece(ranks, piece) == seq![id]);
        assert(dec.decoded(id) == Some(piece));
        assert(token_bytes(dec, entries, id) == Some(piece));
        assert(seq![id].drop_last() =~= Seq::<Rank>::empty());
        assert(seq![id].last() == id);
        assert(decode_ids(dec, entries, Seq::<Rank>::empty()) == Some(Seq::<u8>::empty()));
        assert(Seq::<u8>::empty() + piece =~= piece);
    } else {
        let b0 = byte_bounds(piece.len());
        assert(bounds_wf(b0, piece.len() as int));
        lemma_byte_spans_tokens(ranks, piece);
        lemma_merge_bounds_wf(ranks, piece, b0);
        lemma_merge_spans_tokens(ranks, piece, b0);
        let b = merge_bounds(ranks, piece, b0);
        assert(bpe_piece(ranks, piece) == span_ids(ranks, piece, b));
        lemma_spans_decode(ranks, dec, entries, piece, b, b.len() as int);
        assert(b.take(b.len() as int) =~= b);
        assert(piece.subrange(0, piece.len() as int) =~= piece);
    }
}

#[verifier::spinoff_prover]
#[verifier::rlimit(40)]
proof fn lemma_ordinary_decodes<R: RankLookup, D: Decoder>(
    ranks: &R,
    dec: &D,
    entries: Seq<(Seq<u8>, Rank)>,
    g: Grammar,
    input: Seq<u8>,
    start: int,
)
    requires
        inverts(ranks, dec),
        all_bytes_tokens(ranks),
        valid_utf8(input),
        0 <= start <= input.len(),
        is_char_boundary(input, start),
    ensures
        decode_ids(dec, entries, ordinary_ids(ranks, g, input, start)) == Some(
            input.subrange(start, input.len() as int),
        ),
    decreases input.len() - start,
{
    if start == input.len() {
        assert(ordinary_ids(ranks, g, input, start) =~= Seq::empty());
        assert(input.subrange(start, input.len() as int) =~= Seq::empty());
    } else {
        lemma_grammar_piece_end(g, input, start);
        let e = grammar_piece_end(g, input, start);
        let piece = input.subrange(start, e);
        assert(ordinary_ids(ranks, g, input, start) == bpe_piece(ranks, piece) + ordinary_ids(
            ranks,
            g,
            input,
            e,
        ));
        assert(bytes_are_tokens(ranks, piece)) by {
            assert forall|i: int| 0 <= i < piece.len() implies (#[trigger] ranks.rank_of(
                seq![piece[i]],
            )) is Some by {
                let x = piece[i];
                assert(ranks.rank_of(seq![x]) is Some);
            }
        }
        lemma_bpe_piece_decodes(ranks, dec, entries, piece);
        lemma_ordinary_decodes(ranks, dec, entries, g, input, e);
        lemma_decode_concat(
            dec,
            entries,
            bpe_piece(ranks, piece),
            ordinary_ids(ranks, g, input, e),
        );
        assert(piece + input.subrange(e, input.len() as int) =~= input.subrange(
            start,
            input.len() as int,
        ));
    }
}

/// Decoding the ordinary encoding of UTF-8 text gives the text back, when
/// every single byte is a token and the decoder gives each token the bytes it
/// is ranked for.
pub proof fn lemma_ordinary_round_trip<R: RankLookup, D: Decoder>(
    ranks: &R,
    dec: &D,
    entries: Seq<(Seq<u8>, Rank)>,
    g: Grammar,
    input: Seq<u8>,
)
    requires
        inverts(ranks, dec),
        all_bytes_tokens(ranks),
        valid_utf8(input),
    ensures
        decode_ids(dec, entries, ordinary_ids(ranks, g, input, 0)) == Some(input),
{
    is_char_boundary_start_end_of_seq(input);
    lemma_ordinary_decodes(ranks, dec, entries, g, input, 0);
    assert(input.subrange(0, input.len() as int) =~= input);
}

/// Each special token decodes to its own name.
pub open spec fn specials_decode<D: Decoder>(dec: &D, entries: Seq<(Seq<u8>, Rank)>) -> bool {
    forall|k: int|
        #![trigger entries[k]]
        0 <= k < entries.len() ==> token_bytes(dec, entries, entries[k].1) == Some(entries[k].0)
}

/// A single id decodes to its bytes.
pub proof fn lemma_decode_single<D: Decoder>(dec: &D, entries: Seq<(Seq<u8>, Rank)>, id: Rank)
    ensures
        decode_ids(dec, entries, seq![id]) == token_bytes(dec, entries, id),
{
    assert(seq![id].drop_last() =~= Seq::<Rank>::empty());
    assert(seq![id].last() == id);
    assert(decode_ids(dec, entries, Seq::<Rank>::empty()) == Some(Seq::<u8>::empty()));
    if let Some(b) = token_bytes(dec, entries, id) {
        assert(Seq::<u8>::empty() + b =~= b);
    }
}

#[verifier::spinoff_prover]
#[verifier::rlimit(40)]
proof fn lemma_special_decodes<R: RankLookup, D: Decoder>(
    ranks: &R,
    dec: &D,
    entries: Seq<(Seq<u8>, Rank)>,
    g: Grammar,
    ok_id: spec_fn(Rank) -> bool,
    input: Seq<u8>,
    pos: int,
)
    requires
        inverts(ranks, dec),
        all_bytes_tokens(ranks),
        specials_utf8(entries),
        specials_decode(dec, entries),
        0 <= pos <= input.len(),
        valid_utf8(input.subrange(pos, input.len() as int)),
    ensures
        decode_ids(dec, entries, special_ids(ranks, g, entries, ok_id, input, pos)) == Some(
            input.subrange(pos, input.len() as int),
        ),
    decreases input.len() - pos,
{
    let t = input.subrange(pos, input.len() as int);
    if pos == input.len() {
        assert(special_ids(ranks, g, entries, ok_id, input, pos) =~= Seq::empty());
        assert(t =~= Seq::empty());
    } else {
        match next_special(entries, input, pos, ok_id) {
            Some((s, e, id)) => {
                lemma_next_special_occurs(entries, input, pos, ok_id);
                let k = choose|k: int| crate::specials::chosen(entries, input, pos, ok_id, k, entries.len() as int);
                let needle = entries[k].0;
                let hay = input.skip(pos);
                let o = crate::specials::first_from(hay, needle, 0)->Some_0;
                lemma_first_from_found(hay, needle, 0, o);
                assert(s == pos + o);
                assert(e == s + needle.len());
                assert(id == entries[k].1);
                assert(occurs_at(t, needle, s - pos)) by {
                    assert(t.subrange(s - pos, s - pos + needle.len()) =~= input.subrange(
                        s,
                        s + needle.len(),
                    ));
                }
                assert(valid_utf8(needle));
                lemma_match_split(t, needle, s - pos);
                let left = input.subrange(pos, s);
                let right = input.subrange(e, input.len() as int);
                assert(t.subrange(0, s - pos) =~= left);
                assert(t.subrange(e - pos, t.len() as int) =~= right);
                let lids = ordinary_ids(ranks, g, left, 0);
                let rids = special_ids(ranks, g, entries, ok_id, input, e);
                assert(special_ids(ranks, g, entries, ok_id, input, pos) == lids + seq![id] + rids);
                lemma_ordinary_round_trip(ranks, dec, entries, g, left);
                lemma_special_decodes(ranks, dec, entries, g, ok_id, input, e);
                assert(token_bytes(dec, entries, id) == Some(needle));
                lemma_decode_single(dec, entries, id);
                lemma_decode_concat(dec, entries, lids, seq![id]);
                lemma_decode_concat(dec, entries, lids + seq![id], rids);
                assert(input.subrange(s, e) == needle);
                assert(left + needle + right =~= t);
            },
            None => {
                assert(special_ids(ranks, g, entries, ok_id, input, pos) == ordinary_ids(
                    ranks,
                    g,
                    t,
                    0,
                ));
                lemma_ordinary_round_trip(ranks, dec, entries, g, t);
            },
        }
    }
}

/// Decoding the special-aware encoding of UTF-8 text gives the text back,
/// whatever specials are allowed, when every single byte is a token, the
/// decoder gives each token the bytes it is ranked for, and each special
/// token decodes to its own (UTF-8) name.
pub proof fn lemma_special_round_trip<R: RankLookup, D: Decoder>(
    ranks: &R,
    dec: &D,
    entries: Seq<(Seq<u8>, Rank)>,
    g: Grammar,
    ok_id: spec_fn(Rank) -> bool,
    input: Seq<u8>,
)
    requires
        inverts(ranks, dec),
        all_bytes_tokens(ranks),
        specials_utf8(entries),
        specials_decode(dec, entries),
        valid_utf8(input),
    ensures
        decode_ids(dec, entries, special_ids(ranks, g, entries, ok_id, input, 0)) == Some(input),
{
    assert(input.subrange(0, input.len() as int) =~= input);
    lemma_special_decodes(ranks, dec, entries, g, ok_id, input, 0);
}

} // verus!
