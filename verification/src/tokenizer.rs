//! The tiktoken-shaped public API over a loaded vocabulary blob.
use crate::blob::{parse_blob, BlobModel, DataError, VocabBlob, GRAMMAR_UNKNOWN};
use crate::encoding::{
    all_bytes_tokens, decode_ids, first_invalid, inverts, lemma_decode_single, lemma_decodes_all_valid,
    lemma_ordinary_round_trip,
    lemma_special_round_trip, ordinary_ids, special_ids, specials_decode, specials_utf8, Decoder,
    token_bytes, DisallowedSpecial, Engine,
};
use crate::pretok::Grammar;
use crate::rank::{
    lemma_pairs_rank_listed, pairs_rank, pairs_view, Rank, RankLookup, RankMap, MAX_ENTRIES, RANK_MAX,
};
use crate::specials::{
    lemma_sort_entries_permutes, name_spec, next_special, sort_entries, IdFilter, SpecialTokens,
};
use vstd::prelude::*;
use vstd::string::StringSliceAdditionalSpecFns;
use vstd::utf8::{decode_utf8, encode_utf8, valid_utf8};

verus! {

/// Why a tokenizer could not be loaded.
#[derive(Debug)]
pub enum Error {
    Data(DataError),
    Io(std::io::Error),
    UnsupportedEncoding(String),
}

/// A special token in the text that the caller did not allow.
#[derive(Debug, PartialEq, Eq)]
pub struct EncodeError {
    pub token: String,
    pub offset: usize,
}

/// An id with no bytes and no special name.
#[derive(Debug, PartialEq, Eq)]
pub struct DecodeError(pub u32);

/// Which special tokens `encode` will accept without erroring.
#[derive(Clone, Copy)]
pub enum Allowed<'a> {
    All,
    Nothing,
    /// The specials whose names are listed.
    Names(&'a [&'a str]),
}

/// What `String::from_utf8_lossy` makes of some bytes.
pub uninterp spec fn lossy_utf8(bytes: Seq<u8>) -> Seq<char>;

/// `String::from_utf8_lossy`: the bytes as text, each invalid sequence
/// replaced by U+FFFD; valid UTF-8 comes back unchanged.
#[verifier::external_body]
fn string_from_utf8_lossy(bytes: &[u8]) -> (r: String)
    ensures
        r@ == lossy_utf8(bytes@),
        valid_utf8(bytes@) ==> r@ == decode_utf8(bytes@),
{
    String::from_utf8_lossy(bytes).into_owned()
}

/// `std::str::from_utf8` succeeds exactly on valid UTF-8.
#[verifier::external_body]
fn utf8_ok(bytes: &[u8]) -> (r: bool)
    ensures
        r == valid_utf8(bytes@),
{
    std::str::from_utf8(bytes).is_ok()
}

// ---------------------------------------------------------------------------
// Decoding table
// ---------------------------------------------------------------------------

/// The bytes of each id after writing `pairs` in order into `n` empty slots.
pub open spec fn ids_table(pairs: Seq<(Seq<u8>, Rank)>, n: nat) -> Seq<Option<Seq<u8>>>
    decreases pairs.len(),
{
    if pairs.len() == 0 {
        Seq::new(n, |i: int| None)
    } else {
        ids_table(pairs.drop_last(), n).update(pairs.last().1 as int, Some(pairs.last().0))
    }
}

/// No two pairs share an id.
pub open spec fn distinct_ids(pairs: Seq<(Seq<u8>, Rank)>) -> bool {
    forall|i: int, j: int| 0 <= i < j < pairs.len() ==> pairs[i].1 != pairs[j].1
}

/// Reverse map id -> bytes, indexed by id.
pub struct DenseDecoder {
    by_id: Vec<Option<Vec<u8>>>,
}

impl DenseDecoder {
    /// A decoder that gives id `i` the bytes `by_id[i]`.
    pub fn new(by_id: Vec<Option<Vec<u8>>>) -> (r: Self)
        ensures
            r.table() == Seq::new(
                by_id@.len(),
                |i: int|
                    match by_id@[i] {
                        Some(v) => Some(v@),
                        None => None,
                    },
            ),
    {
        DenseDecoder { by_id }
    }

    pub closed spec fn table(&self) -> Seq<Option<Seq<u8>>> {
        Seq::new(
            self.by_id@.len(),
            |i: int|
                match self.by_id@[i] {
                    Some(v) => Some(v@),
                    None => None,
                },
        )
    }
}

impl Decoder for DenseDecoder {
    closed spec fn decoded(&self, id: Rank) -> Option<Seq<u8>> {
        if id < self.by_id@.len() {
            self.table()[id as int]
        } else {
            None
        }
    }

    #[inline]
    fn bytes_for(&self, id: Rank) -> (r: Option<&[u8]>) {
        if (id as usize) < self.by_id.len() {
            match &self.by_id[id as usize] {
                Some(v) => Some(v.as_slice()),
                None => None,
            }
        } else {
            None
        }
    }
}

proof fn lemma_ids_table_len(pairs: Seq<(Seq<u8>, Rank)>, n: nat)
    requires
        forall|j: int| 0 <= j < pairs.len() ==> (#[trigger] pairs[j]).1 < n,
    ensures
        ids_table(pairs, n).len() == n,
    decreases pairs.len(),
{
    if pairs.len() > 0 {
        let init = pairs.drop_last();
        assert forall|j: int| 0 <= j < init.len() implies (#[trigger] init[j]).1 < n by {
            assert(init[j] == pairs[j]);
        }
        lemma_ids_table_len(init, n);
        assert(pairs[pairs.len() - 1].1 < n);
    }
}

/// With distinct ids, each listed id decodes to its own bytes.
proof fn lemma_ids_table_listed(pairs: Seq<(Seq<u8>, Rank)>, n: nat, i: int)
    requires
        distinct_ids(pairs),
        0 <= i < pairs.len(),
        forall|j: int| 0 <= j < pairs.len() ==> (#[trigger] pairs[j]).1 < n,
    ensures
        ids_table(pairs, n)[pairs[i].1 as int] == Some(pairs[i].0),
    decreases pairs.len(),
{
    lemma_ids_table_len(pairs, n);
    let init = pairs.drop_last();
    assert forall|j: int| 0 <= j < init.len() implies (#[trigger] init[j]).1 < n by {
        assert(init[j] == pairs[j]);
    }
    lemma_ids_table_len(init, n);
    assert(pairs[pairs.len() - 1].1 < n);
    if i < pairs.len() - 1 {
        assert(init[i] == pairs[i]);
        lemma_ids_table_listed(init, n, i);
        assert(pairs.last().1 != pairs[i].1);
    }
}

/// No id of `a` is an id of `b`.
pub open spec fn ids_apart(a: Seq<(Seq<u8>, Rank)>, b: Seq<(Seq<u8>, Rank)>) -> bool {
    forall|i: int, j: int| 0 <= i < a.len() && 0 <= j < b.len() ==> #[trigger] a[i].1 != #[trigger] b[j].1
}

/// An id that no pair has stays empty in the table.
proof fn lemma_ids_table_unlisted(pairs: Seq<(Seq<u8>, Rank)>, n: nat, x: int)
    requires
        0 <= x < n,
        forall|j: int| 0 <= j < pairs.len() ==> (#[trigger] pairs[j]).1 < n,
        forall|j: int| 0 <= j < pairs.len() ==> (#[trigger] pairs[j]).1 != x,
    ensures
        ids_table(pairs, n)[x] is None,
    decreases pairs.len(),
{
    if pairs.len() > 0 {
        let init = pairs.drop_last();
        assert forall|j: int| 0 <= j < init.len() implies (#[trigger] init[j]).1 < n && init[j].1 != x by {
            assert(init[j] == pairs[j]);
        }
        lemma_ids_table_unlisted(init, n, x);
        lemma_ids_table_len(init, n);
        assert(pairs[pairs.len() - 1].1 != x);
    }
}

/// When every entry with the id of entry `k` has its bytes, the name of that
/// id is those bytes.
proof fn lemma_name_spec_found(entries: Seq<(Seq<u8>, Rank)>, k: int)
    requires
        0 <= k < entries.len(),
        forall|j: int|
            0 <= j < entries.len() && (#[trigger] entries[j]).1 == entries[k].1 ==> entries[j].0
                == entries[k].0,
    ensures
        name_spec(entries, entries[k].1) == Some(entries[k].0),
    decreases entries.len(),
{
    if entries[0].1 != entries[k].1 {
        let rest = entries.drop_first();
        assert(rest[k - 1] == entries[k]);
        assert forall|j: int|
            0 <= j < rest.len() && (#[trigger] rest[j]).1 == rest[k - 1].1 implies rest[j].0
                == rest[k - 1].0 by {
            assert(rest[j] == entries[j + 1]);
        }
        lemma_name_spec_found(rest, k - 1);
    }
}

// ---------------------------------------------------------------------------
// The tokenizer
// ---------------------------------------------------------------------------

pub struct Tokenizer {
    encoding: String,
    ranks: RankMap,
    decoder: DenseDecoder,
    specials: SpecialTokens,
    grammar: Grammar,
    n_vocab: usize,
    vocab_size: usize,
}

/// Whether `a` and `b` are the same string.
fn str_eq(a: &str, b: &str) -> (r: bool)
    ensures
        r == (a@ == b@),
{
    let r = crate::rank::bytes_eq(a.as_bytes(), b.as_bytes());
    proof {
        vstd::utf8::encode_utf8_decode_utf8(a@);
        vstd::utf8::encode_utf8_decode_utf8(b@);
    }
    r
}

/// The names the library knows how to load.
pub fn encoding_supported(encoding: &str) -> (r: bool)
    ensures
        r == (encoding@ == "cl100k_base"@ || encoding@ == "o200k_base"@ || encoding@
            == "o200k_harmony"@),
{
    str_eq(encoding, "cl100k_base") || str_eq(encoding, "o200k_base") || str_eq(
        encoding,
        "o200k_harmony",
    )
}

/// The pretokenizer grammar of a blob: its grammar byte (0 cl100k, 1 o200k),
/// or, for a blob that does not say (`GRAMMAR_UNKNOWN`), the one its name
/// implies.
pub open spec fn blob_grammar(code: u8, name: Seq<char>) -> Grammar {
    if code == 1 || (code == GRAMMAR_UNKNOWN && (name == "o200k_base"@ || name
        == "o200k_harmony"@)) {
        Grammar::O200k
    } else {
        Grammar::Cl100k
    }
}

fn grammar_for(code: u8, name: &str) -> (r: Grammar)
    ensures
        r == blob_grammar(code, name@),
{
    if code == 1 || (code == GRAMMAR_UNKNOWN && (str_eq(name, "o200k_base") || str_eq(
        name,
        "o200k_harmony",
    ))) {
        Grammar::O200k
    } else {
        Grammar::Cl100k
    }
}

impl Tokenizer {
    /// The rank map.
    pub closed spec fn rank_map(&self) -> RankMap {
        self.ranks
    }

    /// The grammar that splits text into pieces.
    pub closed spec fn grammar(&self) -> Grammar {
        self.grammar
    }

    /// The id -> bytes table.
    pub closed spec fn dense(&self) -> DenseDecoder {
        self.decoder
    }

    /// The special tokens, in registry order.
    pub closed spec fn specials_view(&self) -> Seq<(Seq<u8>, Rank)> {
        self.specials@
    }

    /// The ordinary encoding of `text` (bytes of UTF-8).
    pub open spec fn ordinary(&self, text: Seq<u8>) -> Seq<Rank> {
        ordinary_ids(&self.rank_map(), self.grammar(), text, 0)
    }

    /// The bytes of `ids`, if every id has bytes.
    pub open spec fn decoded(&self, ids: Seq<Rank>) -> Option<Seq<u8>> {
        decode_ids(&self.dense(), self.specials_view(), ids)
    }

    /// Every single byte is a token, so every text can be encoded.
    pub open spec fn complete(&self) -> bool {
        all_bytes_tokens(&self.rank_map())
    }

    /// The decoder gives every token the bytes it is ranked for.
    pub open spec fn lossless(&self) -> bool {
        inverts(&self.rank_map(), &self.dense())
    }

    /// Every special token decodes to its own name.
    pub open spec fn specials_lossless(&self) -> bool {
        specials_decode(&self.dense(), self.specials_view())
    }

    pub closed spec fn vocab_size_spec(&self) -> nat {
        self.vocab_size as nat
    }

    pub closed spec fn n_vocab_spec(&self) -> nat {
        self.n_vocab as nat
    }

    pub closed spec fn encoding_spec(&self) -> Seq<char> {
        self.encoding@
    }

    /// What loading the blob `m` gives.
    pub open spec fn loaded_from(&self, m: BlobModel) -> bool {
        &&& self.vocab_size_spec() == m.ranks.len()
        &&& self.n_vocab_spec() == m.max_id + 1
        &&& encode_utf8(self.encoding_spec()) == m.name
        &&& self.grammar() == blob_grammar(m.grammar, self.encoding_spec())
        &&& forall|k: Seq<u8>| #[trigger] self.rank_map().rank_of(k) == pairs_rank(m.ranks, k)
        &&& self.dense().table() == ids_table(m.ranks, (m.max_id + 1) as nat)
        &&& self.specials_view() == sort_entries(m.specials)
        &&& distinct_ids(m.ranks) ==> self.lossless()
        &&& distinct_ids(m.specials) && ids_apart(m.ranks, m.specials) ==> self.specials_lossless()
    }

    /// The blob is one `from_blob` can load: its vocabulary fits and every
    /// rank is at most its largest id.
    pub open spec fn loadable(m: BlobModel) -> bool {
        &&& m.ranks.len() <= MAX_ENTRIES
        &&& m.max_id < 0xFFFF_FFFF
        &&& forall|i: int| 0 <= i < m.ranks.len() ==> (#[trigger] m.ranks[i]).1 <= m.max_id
    }

    pub fn from_blob(blob: VocabBlob) -> (r: Self)
        requires
            blob.ranks@.len() <= MAX_ENTRIES,
            blob.max_id < 0xFFFF_FFFF,
            forall|i: int| 0 <= i < blob.ranks@.len() ==> (#[trigger] blob.ranks@[i]).1 <= blob.max_id,
        ensures
            r.vocab_size_spec() == blob.ranks@.len(),
            r.n_vocab_spec() == blob.max_id + 1,
            r.encoding_spec() == blob.name@,
            r.grammar() == blob_grammar(blob.grammar, blob.name@),
            forall|k: Seq<u8>| #[trigger] r.rank_map().rank_of(k) == pairs_rank(
                pairs_view(blob.ranks@),
                k,
            ),
            r.dense().table() == ids_table(pairs_view(blob.ranks@), (blob.max_id + 1) as nat),
            r.specials_view() == sort_entries(pairs_view(blob.specials@)),
            distinct_ids(pairs_view(blob.ranks@)) ==> r.lossless(),
            distinct_ids(pairs_view(blob.specials@)) && ids_apart(
                pairs_view(blob.ranks@),
                pairs_view(blob.specials@),
            ) ==> r.specials_lossless(),
    {
        let vocab_size = blob.ranks.len();
        let n_vocab = (blob.max_id as usize) + 1;
        let ghost pv = pairs_view(blob.ranks@);
        let mut by_id: Vec<Option<Vec<u8>>> = Vec::new();
        let mut i: usize = 0;
        while i < n_vocab
            invariant
                i <= n_vocab,
                by_id@.len() == i,
                forall|x: int| 0 <= x < i ==> (#[trigger] by_id@[x]) is None,
            decreases n_vocab - i,
        {
            by_id.push(None);
            i += 1;
        }
        proof {
            assert(pv.take(0) =~= Seq::empty());
            let d = DenseDecoder { by_id };
            assert(d.table() =~= ids_table(pv.take(0), n_vocab as nat));
        }
        let mut j: usize = 0;
        while j < blob.ranks.len()
            invariant
                j <= blob.ranks@.len(),
                pv == pairs_view(blob.ranks@),
                n_vocab == blob.max_id + 1,
                by_id@.len() == n_vocab,
                forall|i: int| 0 <= i < blob.ranks@.len() ==> (#[trigger] blob.ranks@[i]).1 <= blob.max_id,
                (DenseDecoder { by_id }).table() == ids_table(pv.take(j as int), n_vocab as nat),
            decreases blob.ranks@.len() - j,
        {
            let id = blob.ranks[j].1;
            let bytes = crate::rank::copy_bytes(blob.ranks[j].0.as_slice());
            let ghost before = (DenseDecoder { by_id }).table();
            by_id.set(id as usize, Some(bytes));
            proof {
                assert(pv.take(j + 1).drop_last() =~= pv.take(j as int));
                assert(pv.take(j + 1).last() == pv[j as int]);
                assert((DenseDecoder { by_id }).table() =~= before.update(
                    id as int,
                    Some(blob.ranks@[j as int].0@),
                ));
            }
            j += 1;
        }
        proof {
            assert(pv.take(pv.len() as int) =~= pv);
        }
        let decoder = DenseDecoder { by_id };
        let VocabBlob { name, max_id, grammar, normalizer, ranks, specials } = blob;
        let ghost blob_ranks = ranks;
        let ghost specials_in = specials;
        let ranks = RankMap::from_pairs(ranks);
        let specials = SpecialTokens::new(specials);
        let grammar = grammar_for(grammar, name.as_str());
        let r = Tokenizer { encoding: name, ranks, decoder, specials, grammar, n_vocab, vocab_size };
        proof {
            if distinct_ids(pv) {
                assert forall|b: Seq<u8>| #[trigger] r.ranks.rank_of(b) is Some implies r.decoder.decoded(
                    r.ranks.rank_of(b)->Some_0,
                ) == Some(b) by {
                    lemma_pairs_rank_listed(pv, b);
                    let id = r.ranks.rank_of(b)->Some_0;
                    let i = choose|i: int| 0 <= i < pv.len() && pv[i] == (b, id);
                    assert(pv[i].1 < n_vocab) by {
                        assert(pv[i] == (blob.ranks@[i].0@, blob.ranks@[i].1));
                    }
                    assert forall|x: int| 0 <= x < pv.len() implies (#[trigger] pv[x]).1 < n_vocab as nat by {
                        assert(pv[x] == (blob.ranks@[x].0@, blob.ranks@[x].1));
                    }
                    lemma_ids_table_listed(pv, n_vocab as nat, i);
                    lemma_ids_table_len(pv, n_vocab as nat);
                }
            }
            let sv = pairs_view(specials_in@);
            if distinct_ids(sv) && ids_apart(pv, sv) {
                let se = r.specials@;
                lemma_sort_entries_permutes(sv);
                assert forall|k: int| #![trigger se[k]] 0 <= k < se.len() implies token_bytes(
                    &r.decoder,
                    se,
                    se[k].1,
                ) == Some(se[k].0) by {
                    broadcast use vstd::seq_lib::group_to_multiset_ensures;

                    let id = se[k].1;
                    assert(se.contains(se[k]));
                    assert(se.to_multiset().count(se[k]) > 0);
                    assert(sv.to_multiset().count(se[k]) > 0);
                    assert(sv.contains(se[k]));
                    assert forall|x: int| 0 <= x < pv.len() implies (#[trigger] pv[x]).1 < n_vocab as nat by {
                        assert(pv[x] == (blob_ranks@[x].0@, blob_ranks@[x].1));
                    }
                    if id < n_vocab {
                        lemma_ids_table_unlisted(pv, n_vocab as nat, id as int);
                    }
                    assert(r.decoder.decoded(id) is None);
                    assert forall|j: int| 0 <= j < se.len() && (#[trigger] se[j]).1 == id implies se[j].0
                        == se[k].0 by {
                        assert(se.contains(se[j]));
                        assert(se.to_multiset().count(se[j]) > 0);
                        assert(sv.to_multiset().count(se[j]) > 0);
                        assert(sv.contains(se[j]));
                        let a = choose|a: int| 0 <= a < sv.len() && sv[a] == se[j];
                        let b = choose|b: int| 0 <= b < sv.len() && sv[b] == se[k];
                        if a < b {
                            assert(sv[a].1 != sv[b].1);
                        } else if b < a {
                            assert(sv[b].1 != sv[a].1);
                        }
                    }
                    lemma_name_spec_found(se, k);
                }
            }
        }
        r
    }

    /// Load a tokenizer from the bytes of a blob file.
    pub fn from_blob_bytes(bytes: &[u8]) -> (r: Result<Self, Error>)
        ensures
            match parse_blob(bytes@) {
                Err(e) => r == Err::<Self, Error>(Error::Data(e)),
                Ok(m) => if Self::loadable(m) {
                    r matches Ok(t) && t.loaded_from(m)
                } else {
                    r matches Err(Error::Data(DataError::Corrupt(_)))
                },
            },
    {
        match VocabBlob::from_bytes(bytes) {
            Ok(blob) => {
                let ghost m = blob.model();
                if blob.ranks.len() > MAX_ENTRIES || blob.max_id == 0xFFFF_FFFF {
                    return Err(Error::Data(DataError::Corrupt("too large")));
                }
                let mut i: usize = 0;
                while i < blob.ranks.len()
                    invariant
                        i <= blob.ranks@.len(),
                        m == blob.model(),
                        parse_blob(bytes@) == Ok::<BlobModel, DataError>(m),
                        forall|x: int| 0 <= x < i ==> (#[trigger] blob.ranks@[x]).1 <= blob.max_id,
                    decreases blob.ranks@.len() - i,
                {
                    if blob.ranks[i].1 > blob.max_id {
                        proof {
                            assert(m.ranks[i as int].1 > m.max_id);
                        }
                        return Err(Error::Data(DataError::Corrupt("id above max_id")));
                    }
                    i += 1;
                }
                proof {
                    assert forall|x: int| 0 <= x < m.ranks.len() implies (#[trigger] m.ranks[x]).1
                        <= m.max_id by {
                        assert(m.ranks[x].1 == blob.ranks@[x].1);
                    }
                }
                let t = Tokenizer::from_blob(blob);
                Ok(t)
            },
            Err(e) => Err(Error::Data(e)),
        }
    }

    /// Whether every single byte is a token (so that every text encodes).
    pub fn is_complete(&self) -> (r: bool)
        ensures
            r == self.complete(),
    {
        let mut b: usize = 0;
        while b < 256
            invariant
                b <= 256,
                forall|x: u8| x < b ==> (#[trigger] self.ranks.rank_of(seq![x])) is Some,
            decreases 256 - b,
        {
            let key = [b as u8];
            proof {
                assert(key@ =~= seq![b as u8]);
            }
            if self.ranks.get(key.as_slice()).is_none() {
                return false;
            }
            b += 1;
        }
        true
    }

    /// Whether every special token is valid UTF-8 (so that special-aware
    /// encoding cuts text on character boundaries).
    pub fn specials_are_utf8(&self) -> (r: bool)
        ensures
            r == specials_utf8(self.specials_view()),
    {
        let entries = self.specials.iter();
        let mut k: usize = 0;
        while k < entries.len()
            invariant
                k <= entries@.len(),
                pairs_view(entries@) == self.specials@,
                forall|x: int| 0 <= x < k ==> valid_utf8(#[trigger] self.specials@[x].0),
            decreases entries@.len() - k,
        {
            if !utf8_ok(entries[k].0.as_slice()) {
                proof {
                    assert(self.specials@[k as int].0 == entries@[k as int].0@);
                }
                return false;
            }
            proof {
                assert(self.specials@[k as int].0 == entries@[k as int].0@);
            }
            k += 1;
        }
        true
    }

    fn engine(&self) -> (r: Engine<'_, RankMap, DenseDecoder>)
        ensures
            *r.ranks == self.rank_map(),
            *r.decoder == self.dense(),
            r.specials@ == self.specials_view(),
            r.grammar == self.grammar(),
    {
        Engine::new(&self.ranks, &self.decoder, &self.specials, self.grammar)
    }

    pub fn encode_ordinary(&self, text: &str) -> (r: Vec<u32>)
        requires
            self.complete(),
        ensures
            r@ == self.ordinary(text.spec_bytes()),
    {
        let mut out: Vec<u32> = Vec::new();
        self.engine().encode_ordinary_into(text, &mut out);
        proof {
            assert(out@ =~= self.ordinary(text.spec_bytes()));
        }
        out
    }

    pub fn encode_ordinary_into(&self, text: &str, out: &mut Vec<u32>)
        requires
            self.complete(),
        ensures
            final(out)@ == old(out)@ + self.ordinary(text.spec_bytes()),
    {
        self.engine().encode_ordinary_into(text, out);
    }

    pub fn encode_with_special(&self, text: &str) -> (r: Vec<u32>)
        requires
            self.complete(),
            specials_utf8(self.specials_view()),
        ensures
            r@ == special_ids(
                &self.rank_map(),
                self.grammar(),
                self.specials_view(),
                IdFilter::All.as_pred(),
                text.spec_bytes(),
                0,
            ),
    {
        let mut out: Vec<u32> = Vec::new();
        self.engine().encode_with_special_into(text, &mut out);
        proof {
            assert(out@ =~= special_ids(
                &self.rank_map(),
                self.grammar(),
                self.specials_view(),
                IdFilter::All.as_pred(),
                text.spec_bytes(),
                0,
            ));
        }
        out
    }

    /// The special ids `allowed` lets through.
    pub open spec fn allowed_pred(&self, allowed: Allowed<'_>) -> spec_fn(Rank) -> bool {
        match allowed {
            Allowed::All => |id: Rank| true,
            Allowed::Nothing => |id: Rank| false,
            Allowed::Names(names) => |id: Rank|
                exists|k: int|
                    0 <= k < self.specials_view().len() && self.specials_view()[k].1 == id
                        && exists|j: int|
                        0 <= j < names@.len() && names@[j]@ == lossy_utf8(
                            self.specials_view()[k].0,
                        ),
        }
    }

    /// The ids whose special names `allowed` lists.
    fn allow_filter(&self, allowed: Allowed<'_>) -> (r: IdFilter)
        ensures
            allowed is All ==> r == IdFilter::All,
            allowed is Nothing ==> r == IdFilter::Nothing,
            allowed matches Allowed::Names(names) ==> r matches IdFilter::Only(ids) && forall|id: Rank|
                #[trigger] ids@.contains(id) <==> exists|k: int|
                    0 <= k < self.specials_view().len() && self.specials_view()[k].1 == id
                        && exists|j: int|
                        0 <= j < names@.len() && names@[j]@ == lossy_utf8(
                            self.specials_view()[k].0,
                        ),
    {
        match allowed {
            Allowed::All => IdFilter::All,
            Allowed::Nothing => IdFilter::Nothing,
            Allowed::Names(names) => {
                let entries = self.specials.iter();
                let mut ids: Vec<Rank> = Vec::new();
                let mut k: usize = 0;
                let ghost sp = self.specials_view();
                while k < entries.len()
                    invariant
                        k <= entries@.len(),
                        pairs_view(entries@) == sp,
                        sp == self.specials_view(),
                        forall|id: Rank|
                            #[trigger] ids@.contains(id) <==> exists|x: int|
                                0 <= x < k && sp[x].1 == id && exists|j: int|
                                    0 <= j < names@.len() && names@[j]@ == lossy_utf8(sp[x].0),
                    decreases entries@.len() - k,
                {
                    let name = string_from_utf8_lossy(entries[k].0.as_slice());
                    let id = entries[k].1;
                    proof {
                        assert(sp[k as int] == (entries@[k as int].0@, id));
                    }
                    let mut j: usize = 0;
                    let mut found = false;
                    while j < names.len() && !found
                        invariant
                            j <= names@.len(),
                            found ==> exists|y: int| 0 <= y < names@.len() && names@[y]@ == name@,
                            !found ==> forall|y: int| 0 <= y < j ==> names@[y]@ != name@,
                        decreases names@.len() - j + if found { 0int } else { 1 },
                    {
                        let a = names[j].as_bytes();
                        let b = name.as_str().as_bytes();
                        if crate::rank::bytes_eq(a, b) {
                            proof {
                                vstd::utf8::encode_utf8_decode_utf8(names@[j as int]@);
                                vstd::utf8::encode_utf8_decode_utf8(name@);
                            }
                            found = true;
                        } else {
                            j += 1;
                        }
                    }
                    let ghost before = ids@;
                    if found {
                        ids.push(id);
                    }
                    proof {
                        assert forall|x: Rank| #[trigger] ids@.contains(x) <==> exists|y: int|
                            0 <= y < k + 1 && sp[y].1 == x && exists|j: int|
                                0 <= j < names@.len() && names@[j]@ == lossy_utf8(sp[y].0) by {
                            if ids@.contains(x) && !before.contains(x) {
                                assert(x == id);
                                assert(sp[k as int].1 == x);
                            }
                            if before.contains(x) {
                                let w = choose|i: int| 0 <= i < before.len() && before[i] == x;
                                assert(ids@[w] == x);
                            }
                            if exists|y: int|
                                0 <= y < k + 1 && sp[y].1 == x && exists|j: int|
                                    0 <= j < names@.len() && names@[j]@ == lossy_utf8(sp[y].0) {
                                let y = choose|y: int|
                                    0 <= y < k + 1 && sp[y].1 == x && exists|j: int|
                                        0 <= j < names@.len() && names@[j]@ == lossy_utf8(sp[y].0);
                                if y == k {
                                    assert(found);
                                    assert(ids@[ids@.len() - 1] == x);
                                } else {
                                    assert(before.contains(x));
                                    let w = choose|i: int| 0 <= i < before.len() && before[i] == x;
                                    assert(ids@[w] == x);
                                }
                            }
                        }
                    }
                    k += 1;
                }
                IdFilter::Only(ids)
            },
        }
    }

    /// Encode with the specials `allowed` lets through; a special it does not
    /// let through is an error.
    pub fn encode(&self, text: &str, allowed: Allowed<'_>) -> (r: Result<Vec<u32>, EncodeError>)
        requires
            self.complete(),
            specials_utf8(self.specials_view()),
        ensures
            match next_special(
                self.specials_view(),
                text.spec_bytes(),
                0,
                |id: Rank| !(self.allowed_pred(allowed))(id),
            ) {
                Some((s, e, _)) => r matches Err(err) && err.offset == s && err.token@ == lossy_utf8(
                    text.spec_bytes().subrange(s, e),
                ),
                None => r matches Ok(v) && v@ == special_ids(
                    &self.rank_map(),
                    self.grammar(),
                    self.specials_view(),
                    self.allowed_pred(allowed),
                    text.spec_bytes(),
                    0,
                ),
            },
    {
        let ghost pred = self.allowed_pred(allowed);
        let filter = self.allow_filter(allowed);
        proof {
            assert(filter.as_pred() =~= pred);
            assert((|id: Rank| !filter.passes(id)) =~= (|id: Rank| !pred(id)));
        }
        let mut out: Vec<u32> = Vec::new();
        match self.engine().encode_into(text, &filter, &mut out) {
            Ok(()) => {
                proof {
                    assert(out@ =~= Seq::<u32>::empty() + out@);
                }
                Ok(out)
            },
            Err(e) => Err(
                EncodeError { token: string_from_utf8_lossy(e.token.as_slice()), offset: e.offset },
            ),
        }
    }

    pub fn count(&self, text: &str) -> (r: usize)
        requires
            self.complete(),
        ensures
            r == self.ordinary(text.spec_bytes()).len(),
    {
        self.engine().count(text)
    }

    pub fn decode_bytes(&self, ids: &[u32]) -> (r: Result<Vec<u8>, DecodeError>)
        ensures
            match first_invalid(&self.dense(), self.specials_view(), ids@) {
                None => r matches Ok(v) && self.decoded(ids@) == Some(v@),
                Some(i) => r == Err::<Vec<u8>, DecodeError>(DecodeError(ids@[i])),
            },
    {
        let mut out: Vec<u8> = Vec::new();
        match self.engine().decode_into(ids, &mut out) {
            Ok(()) => {
                proof {
                    assert(out@ =~= self.decoded(ids@)->Some_0);
                }
                Ok(out)
            },
            Err(e) => Err(DecodeError(e.0)),
        }
    }

    pub fn decode(&self, ids: &[u32]) -> (r: Result<String, DecodeError>)
        ensures
            match first_invalid(&self.dense(), self.specials_view(), ids@) {
                None => r matches Ok(s) && s@ == lossy_utf8(self.decoded(ids@)->Some_0) && (valid_utf8(
                    self.decoded(ids@)->Some_0,
                ) ==> s@ == decode_utf8(self.decoded(ids@)->Some_0)),
                Some(i) => r == Err::<String, DecodeError>(DecodeError(ids@[i])),
            },
    {
        match self.decode_bytes(ids) {
            Ok(bytes) => Ok(string_from_utf8_lossy(bytes.as_slice())),
            Err(e) => Err(e),
        }
    }

    pub fn vocab_size(&self) -> (r: usize)
        ensures
            r == self.vocab_size_spec(),
    {
        self.vocab_size
    }

    pub fn n_vocab(&self) -> (r: usize)
        ensures
            r == self.n_vocab_spec(),
    {
        self.n_vocab
    }

    pub fn encoding(&self) -> (r: &str)
        ensures
            r@ == self.encoding_spec(),
    {
        self.encoding.as_str()
    }

    /// The special tokens in registry order, names as text.
    pub fn special_tokens(&self) -> (r: Vec<(String, u32)>)
        ensures
            r@.len() == self.specials_view().len(),
            forall|k: int|
                0 <= k < r@.len() ==> (#[trigger] r@[k]).0@ == lossy_utf8(self.specials_view()[k].0)
                    && r@[k].1 == self.specials_view()[k].1,
    {
        let entries = self.specials.iter();
        let mut r: Vec<(String, u32)> = Vec::new();
        let mut k: usize = 0;
        while k < entries.len()
            invariant
                k <= entries@.len(),
                pairs_view(entries@) == self.specials_view(),
                r@.len() == k,
                forall|x: int|
                    0 <= x < k ==> (#[trigger] r@[x]).0@ == lossy_utf8(self.specials_view()[x].0)
                        && r@[x].1 == self.specials_view()[x].1,
            decreases entries@.len() - k,
        {
            proof {
                assert(self.specials_view()[k as int] == (entries@[k as int].0@, entries@[k as int].1));
            }
            r.push((string_from_utf8_lossy(entries[k].0.as_slice()), entries[k].1));
            k += 1;
        }
        r
    }
}

/// Decoding the ordinary encoding of a text gives the text back, for a
/// tokenizer in which every byte is a token and every token decodes to the
/// bytes it is ranked for (as `from_blob` gives when ids are distinct).
pub proof fn lemma_round_trip(t: &Tokenizer, text: Seq<u8>)
    requires
        t.complete(),
        t.lossless(),
        valid_utf8(text),
    ensures
        t.decoded(t.ordinary(text)) == Some(text),
        first_invalid(&t.dense(), t.specials_view(), t.ordinary(text)) is None,
{
    lemma_ordinary_round_trip(&t.rank_map(), &t.dense(), t.specials_view(), t.grammar(), text);
    lemma_decodes_all_valid(&t.dense(), t.specials_view(), t.ordinary(text));
}

/// Decoding the ordinary encoding of a string gives the string back, for a
/// tokenizer in which every byte is a token and every token decodes to the
/// bytes it is ranked for.
pub proof fn lemma_text_round_trip(t: &Tokenizer, text: Seq<char>)
    requires
        t.complete(),
        t.lossless(),
    ensures
        first_invalid(&t.dense(), t.specials_view(), t.ordinary(encode_utf8(text))) is None,
        t.decoded(t.ordinary(encode_utf8(text))) == Some(encode_utf8(text)),
        valid_utf8(encode_utf8(text)),
        decode_utf8(encode_utf8(text)) == text,
{
    vstd::utf8::encode_utf8_valid_utf8(text);
    vstd::utf8::encode_utf8_decode_utf8(text);
    lemma_round_trip(t, encode_utf8(text));
}

/// Decoding the special-aware encoding of a text gives the text back, whichever
/// specials are allowed, for a lossless, complete tokenizer whose special
/// tokens are UTF-8 and decode to their own names.
pub proof fn lemma_round_trip_with_specials(t: &Tokenizer, ok_id: spec_fn(Rank) -> bool, text: Seq<u8>)
    requires
        t.complete(),
        t.lossless(),
        t.specials_lossless(),
        specials_utf8(t.specials_view()),
        valid_utf8(text),
    ensures
        t.decoded(
            special_ids(&t.rank_map(), t.grammar(), t.specials_view(), ok_id, text, 0),
        ) == Some(text),
        first_invalid(
            &t.dense(),
            t.specials_view(),
            special_ids(&t.rank_map(), t.grammar(), t.specials_view(), ok_id, text, 0),
        ) is None,
{
    lemma_special_round_trip(
        &t.rank_map(),
        &t.dense(),
        t.specials_view(),
        t.grammar(),
        ok_id,
        text,
    );
    lemma_decodes_all_valid(
        &t.dense(),
        t.specials_view(),
        special_ids(&t.rank_map(), t.grammar(), t.specials_view(), ok_id, text, 0),
    );
}

/// In a tokenizer loaded from a blob whose rank ids are distinct, each listed
/// id decodes to the bytes listed with it.
pub proof fn lemma_listed_id_decodes(t: &Tokenizer, m: BlobModel, i: int)
    requires
        t.loaded_from(m),
        Tokenizer::loadable(m),
        distinct_ids(m.ranks),
        0 <= i < m.ranks.len(),
    ensures
        first_invalid(&t.dense(), t.specials_view(), seq![m.ranks[i].1]) is None,
        t.decoded(seq![m.ranks[i].1]) == Some(m.ranks[i].0),
{
    let n = (m.max_id + 1) as nat;
    assert forall|j: int| 0 <= j < m.ranks.len() implies (#[trigger] m.ranks[j]).1 < n by {}
    lemma_ids_table_listed(m.ranks, n, i);
    lemma_ids_table_len(m.ranks, n);
    let id = m.ranks[i].1;
    assert(t.dense().decoded(id) == Some(m.ranks[i].0));
    lemma_decode_single(&t.dense(), t.specials_view(), id);
    lemma_decodes_all_valid(&t.dense(), t.specials_view(), seq![id]);
}

} // verus!
