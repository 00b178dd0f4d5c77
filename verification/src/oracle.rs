//! Independent reference tokenizer: the encoding's regex (fancy-regex) + core BPE.
use crate::bpe::{bpe_piece, byte_pair_encode, bytes_are_tokens, Part};
use crate::encoding::{all_bytes_tokens, ordinary_ids};
use crate::pretok::{grammar_piece_end, grammar_spans, Grammar};
use crate::rank::{pairs_rank, pairs_view, Rank, RankLookup, RankMap, MAX_ENTRIES, RANK_MAX};
use fancy_regex::Regex;
use vstd::prelude::*;
use vstd::string::StringSliceAdditionalSpecFns;
use vstd::utf8::encode_utf8;

verus! {

/// The cl100k_base pretokenizer regex.
pub const CL100K_PAT: &'static str =
    "(?i:'s|'t|'re|'ve|'m|'ll|'d)|[^\\r\\n\\p{L}\\p{N}]?\\p{L}+|\\p{N}{1,3}| ?[^\\s\\p{L}\\p{N}]+[\\r\\n]*|\\s*[\\r\\n]+|\\s+(?!\\S)|\\s+";

/// The o200k_base pretokenizer regex.
pub const O200K_PAT: &'static str =
    "[^\\r\\n\\p{L}\\p{N}]?[\\p{Lu}\\p{Lt}\\p{Lm}\\p{Lo}\\p{M}]*[\\p{Ll}\\p{Lm}\\p{Lo}\\p{M}]+(?i:'s|'t|'re|'ve|'m|'ll|'d)?|[^\\r\\n\\p{L}\\p{N}]?[\\p{Lu}\\p{Lt}\\p{Lm}\\p{Lo}\\p{M}]+[\\p{Ll}\\p{Lm}\\p{Lo}\\p{M}]*(?i:'s|'t|'re|'ve|'m|'ll|'d)?|\\p{N}{1,3}| ?[^\\s\\p{L}\\p{N}]+[\\r\\n/]*|\\s*[\\r\\n]+|\\s+(?!\\S)|\\s+";

#[verifier::external_type_specification]
#[verifier::external_body]
pub struct ExRegex(fancy_regex::Regex);

/// Whether `fancy_regex` accepts `pattern`.
pub uninterp spec fn regex_compiles(pattern: Seq<char>) -> bool;

/// The successive non-overlapping matches of `pattern` in `text` as byte
/// ranges, as `fancy_regex` finds them, or `None` when its engine reports an
/// error (such as its backtrack limit).
pub uninterp spec fn regex_find(pattern: Seq<char>, text: Seq<char>) -> Option<Seq<(usize, usize)>>;

/// A compiled regex with the pattern it was compiled from.
pub struct CompiledRegex {
    re: Regex,
    source: Ghost<Seq<char>>,
}

impl CompiledRegex {
    /// The pattern this regex was compiled from.
    pub closed spec fn source(&self) -> Seq<char> {
        self.source@
    }
}

/// `fancy_regex::Regex::new`: claims that it succeeds exactly on the patterns
/// that `regex_compiles` names, and that the regex it gives is the one for
/// `pattern`.
#[verifier::external_body]
fn compile(pattern: &str) -> (r: Option<CompiledRegex>)
    ensures
        r is Some <==> regex_compiles(pattern@),
        r matches Some(c) ==> c.source() == pattern@,
{
    match Regex::new(pattern) {
        Ok(re) => Some(CompiledRegex { re, source: Ghost(pattern@) }),
        Err(_) => None,
    }
}

/// Byte ranges that lie in a text of `len` bytes, in order, without overlap.
pub open spec fn spans_ok(spans: Seq<(usize, usize)>, len: int) -> bool {
    &&& forall|i: int| 0 <= i < spans.len() ==> (#[trigger] spans[i]).0 <= spans[i].1 <= len
    &&& forall|i: int| 0 < i < spans.len() ==> spans[i - 1].1 <= (#[trigger] spans[i]).0
}

/// `fancy_regex::Regex::find_iter`, collected: claims that the matches are
/// those that `regex_find` names for the regex's pattern and `text`, and (as
/// the crate documents) that they are successive, non-overlapping byte ranges
/// of `text`.
#[verifier::external_body]
fn find_spans(re: &CompiledRegex, text: &str) -> (r: Option<Vec<(usize, usize)>>)
    ensures
        match r {
            Some(v) => regex_find(re.source(), text@) == Some(v@) && spans_ok(
                v@,
                text.spec_bytes().len() as int,
            ),
            None => regex_find(re.source(), text@) is None,
        },
{
    re.re.find_iter(text).map(|m| m.map(|m| (m.start(), m.end()))).collect::<Result<Vec<_>, _>>().ok()
}

/// The BPE ids of the given byte ranges of `text`, one range after another
/// (an empty range gives nothing).
pub open spec fn spans_ids<R: RankLookup>(
    ranks: &R,
    text: Seq<u8>,
    spans: Seq<(usize, usize)>,
) -> Seq<Rank>
    decreases spans.len(),
{
    if spans.len() == 0 {
        Seq::empty()
    } else {
        let (a, z) = spans.last();
        spans_ids(ranks, text, spans.drop_last()) + if a < z {
            bpe_piece(ranks, text.subrange(a as int, z as int))
        } else {
            Seq::empty()
        }
    }
}

pub struct Oracle {
    re: CompiledRegex,
    ranks: RankMap,
}

impl Oracle {
    /// The rank map.
    pub closed spec fn rank_map(&self) -> RankMap {
        self.ranks
    }

    /// The pattern that splits text into pieces.
    pub closed spec fn pattern(&self) -> Seq<char> {
        self.re.source()
    }

    /// Every single byte is a token.
    pub open spec fn complete(&self) -> bool {
        all_bytes_tokens(&self.rank_map())
    }

    /// Whether every single byte is a token.
    pub fn is_complete(&self) -> (r: bool)
        ensures
            r == self.complete(),
    {
        let mut b: usize = 0;
        while b < 256
            invariant
                b <= 256,
                forall|x: u8| x < b ==> (#[trigger] self.ranks.rank_of(seq![x])) is Some,
            decreases 256 - b,
        {
            let key = [b as u8];
            proof {
                assert(key@ =~= seq![b as u8]);
            }
            if self.ranks.get(key.as_slice()).is_none() {
                return false;
            }
            b += 1;
        }
        true
    }

    /// An oracle for `pattern` over the given vocabulary, or `None` when the
    /// pattern does not compile.
    pub fn from(pattern: &str, ranks: Vec<(Vec<u8>, Rank)>) -> (r: Option<Self>)
        requires
            ranks@.len() <= MAX_ENTRIES,
        ensures
            r is Some <==> regex_compiles(pattern@),
            r matches Some(o) ==> o.pattern() == pattern@ && forall|k: Seq<u8>|
                #[trigger] o.rank_map().rank_of(k) == pairs_rank(pairs_view(ranks@), k),
    {
        let re = match compile(pattern) {
            Some(re) => re,
            None => {
                return None;
            },
        };
        Some(Oracle { re, ranks: RankMap::from_pairs(ranks) })
    }

    /// encode_ordinary via the reference regex: the BPE of each match in turn.
    /// `None` when the regex engine reports an error.
    pub fn encode_ordinary(&self, text: &str) -> (r: Option<Vec<Rank>>)
        requires
            self.complete(),
        ensures
            match regex_find(self.pattern(), text@) {
                Some(spans) => r matches Some(ids) && ids@ == spans_ids(
                    &self.rank_map(),
                    text.spec_bytes(),
                    spans,
                ),
                None => r is None,
            },
    {
        match find_spans(&self.re, text) {
            Some(spans) => Some(self.encode_spans(text, spans.as_slice())),
            None => None,
        }
    }

    /// The BPE ids of the given byte ranges of `text`, one after another.
    pub fn encode_spans(&self, text: &str, spans: &[(usize, usize)]) -> (r: Vec<Rank>)
        requires
            self.complete(),
            spans_ok(spans@, text.spec_bytes().len() as int),
        ensures
            r@ == spans_ids(&self.rank_map(), text.spec_bytes(), spans@),
    {
        let bytes = text.as_bytes();
        let mut out: Vec<Rank> = Vec::new();
        let mut parts: Vec<Part> = Vec::new();
        let mut i: usize = 0;
        proof {
            assert(spans@.take(0) =~= Seq::<(usize, usize)>::empty());
        }
        while i < spans.len()
            invariant
                i <= spans@.len(),
                all_bytes_tokens(&self.ranks),
                spans_ok(spans@, bytes@.len() as int),
                bytes@ == text.spec_bytes(),
                out@ == spans_ids(&self.ranks, bytes@, spans@.take(i as int)),
            decreases spans@.len() - i,
        {
            let (a, z) = spans[i];
            proof {
                assert(spans@.take(i + 1).drop_last() =~= spans@.take(i as int));
                assert(spans@.take(i + 1).last() == spans@[i as int]);
            }
            if a < z {
                proof {
                    let piece = bytes@.subrange(a as int, z as int);
                    assert forall|j: int| 0 <= j < piece.len() implies (#[trigger] self.ranks.rank_of(
                        seq![piece[j]],
                    )) is Some by {
                        let x = piece[j];
                        assert(self.ranks.rank_of(seq![x]) is Some);
                    }
                    assert(bytes_are_tokens(&self.ranks, piece));
                }
                byte_pair_encode(&bytes[a..z], &self.ranks, &mut parts, &mut out);
            } else {
                proof {
                    assert(out@ =~= out@ + Seq::<Rank>::empty());
                }
            }
            i += 1;
        }
        proof {
            assert(spans@.take(spans@.len() as int) =~= spans@);
        }
        out
    }
}

proof fn lemma_spans_ids_concat<R: RankLookup>(
    ranks: &R,
    text: Seq<u8>,
    a: Seq<(usize, usize)>,
    b: Seq<(usize, usize)>,
)
    ensures
        spans_ids(ranks, text, a + b) == spans_ids(ranks, text, a) + spans_ids(ranks, text, b),
    decreases b.len(),
{
    if b.len() == 0 {
        assert(a + b =~= a);
        assert(spans_ids(ranks, text, a) + Seq::<Rank>::empty() =~= spans_ids(ranks, text, a));
    } else {
        assert((a + b).drop_last() =~= a + b.drop_last());
        assert((a + b).last() == b.last());
        lemma_spans_ids_concat(ranks, text, a, b.drop_last());
    }
}

proof fn lemma_grammar_spans_ids<R: RankLookup>(ranks: &R, g: Grammar, input: Seq<u8>, start: int)
    requires
        input.len() <= usize::MAX,
    ensures
        spans_ids(ranks, input, grammar_spans(g, input, start)) == ordinary_ids(
            ranks,
            g,
            input,
            start,
        ),
    decreases input.len() - start,
{
    if !(start < 0 || start >= input.len()) {
        let e = grammar_piece_end(g, input, start);
        if !(e <= start || e > input.len()) {
            let one = seq![(start as usize, e as usize)];
            lemma_grammar_spans_ids(ranks, g, input, e);
            lemma_spans_ids_concat(ranks, input, one, grammar_spans(g, input, e));
            assert(one.drop_last() =~= Seq::<(usize, usize)>::empty());
            assert((start as usize) as int == start && (e as usize) as int == e);
            assert(one.last() == (start as usize, e as usize));
            assert(one.len() == 1);
            assert(spans_ids(ranks, input, one.drop_last()) == Seq::<Rank>::empty());
            assert((start as usize) < (e as usize));
            assert(spans_ids(ranks, input, one) == spans_ids(ranks, input, one.drop_last()) + bpe_piece(
                ranks,
                input.subrange(start, e),
            ));
            assert(Seq::<Rank>::empty() + bpe_piece(ranks, input.subrange(start, e)) =~= bpe_piece(
                ranks,
                input.subrange(start, e),
            ));
        }
    }
}

/// Wherever the regex splits a text into exactly the grammar's pieces, the
/// oracle's encoding of it is the scanner's (the ordinary encoding).
pub proof fn lemma_oracle_agrees(o: &Oracle, g: Grammar, text: Seq<char>)
    requires
        encode_utf8(text).len() <= usize::MAX,
        regex_find(o.pattern(), text) == Some(grammar_spans(g, encode_utf8(text), 0)),
    ensures
        regex_find(o.pattern(), text) matches Some(spans) && spans_ids(
            &o.rank_map(),
            encode_utf8(text),
            spans,
        ) == ordinary_ids(&o.rank_map(), g, encode_utf8(text), 0),
{
    let input = encode_utf8(text);
    lemma_grammar_spans_ids(&o.rank_map(), g, input, 0);
}

} // verus!
