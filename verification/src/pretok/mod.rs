//! Pretokenization: split input bytes into "pieces" (byte spans) at grammar
//! boundaries. A `Pretokenizer` yields byte ranges into the input.
pub mod cl100k;
pub mod common;
pub mod o200k;

use self::cl100k::{cl100k_piece_end, lemma_cl100k_piece_end_boundary, lemma_cl100k_piece_end_bounds, Cl100kPretokenizer};
use self::o200k::{lemma_o200k_piece_end_boundary, lemma_o200k_piece_end_bounds, o200k_piece_end, O200kPretokenizer};
use vstd::prelude::*;
use vstd::utf8::*;

verus! {

/// The pretokenizer grammar of an encoding.
#[derive(Clone, Copy, PartialEq, Eq, Debug, Structural)]
pub enum Grammar {
    Cl100k,
    O200k,
}

/// End of the piece that grammar `g` cuts at `start`.
pub open spec fn grammar_piece_end(g: Grammar, input: Seq<u8>, start: int) -> int {
    match g {
        Grammar::Cl100k => cl100k_piece_end(input, start),
        Grammar::O200k => o200k_piece_end(input, start),
    }
}

/// Every piece is non-empty and inside the input; on valid UTF-8 a piece that
/// starts on a character boundary ends on one.
pub proof fn lemma_grammar_piece_end(g: Grammar, input: Seq<u8>, start: int)
    requires
        0 <= start <= input.len(),
        valid_utf8(input),
        is_char_boundary(input, start),
    ensures
        start < input.len() ==> start < grammar_piece_end(g, input, start) <= input.len(),
        start == input.len() ==> grammar_piece_end(g, input, start) == start,
        is_char_boundary(input, grammar_piece_end(g, input, start)),
{
    match g {
        Grammar::Cl100k => {
            lemma_cl100k_piece_end_bounds(input, start);
            lemma_cl100k_piece_end_boundary(input, start);
        },
        Grammar::O200k => {
            lemma_o200k_piece_end_bounds(input, start);
            lemma_o200k_piece_end_boundary(input, start);
        },
    }
}

/// The grammar's pieces of `input` from `start` on, as byte ranges.
pub open spec fn grammar_spans(g: Grammar, input: Seq<u8>, start: int) -> Seq<(usize, usize)>
    decreases input.len() - start,
{
    if start < 0 || start >= input.len() {
        Seq::empty()
    } else {
        let e = grammar_piece_end(g, input, start);
        if e <= start || e > input.len() {
            Seq::empty()
        } else {
            seq![(start as usize, e as usize)] + grammar_spans(g, input, e)
        }
    }
}

/// The byte ranges run from `from` to `to` one after another: each nonempty,
/// each starting where the one before ended.
pub open spec fn covers(spans: Seq<(usize, usize)>, from: int, to: int) -> bool
    decreases spans.len(),
{
    if spans.len() == 0 {
        from == to
    } else {
        &&& spans[0].0 == from
        &&& spans[0].0 < spans[0].1
        &&& covers(spans.drop_first(), spans[0].1 as int, to)
    }
}

/// The pieces a pretokenizer yields one call after another, from a character
/// boundary of valid UTF-8 on, cover the rest of the input with no gaps and
/// no overlap; after the last one it yields nothing.
pub proof fn lemma_pieces_cover(g: Grammar, input: Seq<u8>, start: int)
    requires
        valid_utf8(input),
        0 <= start <= input.len(),
        input.len() <= usize::MAX,
        is_char_boundary(input, start),
    ensures
        covers(grammar_spans(g, input, start), start, input.len() as int),
    decreases input.len() - start,
{
    if start < input.len() {
        lemma_grammar_piece_end(g, input, start);
        let e = grammar_piece_end(g, input, start);
        lemma_pieces_cover(g, input, e);
        let sp = grammar_spans(g, input, start);
        assert(sp.drop_first() =~= grammar_spans(g, input, e));
        assert((start as usize) as int == start && (e as usize) as int == e);
    }
}

/// Yields the next piece as a byte range `[start, end)` into `input`, or None at end.
/// The pieces still to come are `grammar_spans` from the cursor: each call
/// yields the first of them and leaves the rest, so from cursor 0 successive
/// calls yield `grammar_spans(g, input, 0)` in order and then `None` on every
/// later call; by `lemma_pieces_cover` they cover the input with no gaps.
pub trait Pretokenizer {
    /// Byte offset at which the next piece starts.
    spec fn cursor(&self) -> int;

    /// The grammar the pieces are cut by.
    spec fn grammar(&self) -> Grammar;

    fn next_piece(&mut self, input: &[u8]) -> (r: Option<(usize, usize)>)
        requires
            valid_utf8(input@),
            old(self).cursor() < input@.len() ==> is_char_boundary(input@, old(self).cursor()),
        ensures
            final(self).grammar() == old(self).grammar(),
            old(self).cursor() >= input@.len() ==> r is None && final(self).cursor() == old(
                self,
            ).cursor(),
            old(self).cursor() < input@.len() ==> {
                &&& r == Some(
                    (
                        old(self).cursor() as usize,
                        grammar_piece_end(old(self).grammar(), input@, old(self).cursor()) as usize,
                    ),
                )
                &&& final(self).cursor() == grammar_piece_end(
                    old(self).grammar(),
                    input@,
                    old(self).cursor(),
                )
                &&& old(self).cursor() < final(self).cursor() <= input@.len()
                &&& is_char_boundary(input@, final(self).cursor())
            },
            grammar_spans(old(self).grammar(), input@, old(self).cursor()) == match r {
                Some(p) => seq![p] + grammar_spans(old(self).grammar(), input@, final(self).cursor()),
                None => Seq::<(usize, usize)>::empty(),
            },
    ;
}

/// A pretokenizer for either grammar.
pub enum Scanner {
    Cl100k(Cl100kPretokenizer),
    O200k(O200kPretokenizer),
}

impl Scanner {
    pub fn new(g: Grammar) -> (r: Self)
        ensures
            r.grammar() == g,
            r.cursor() == 0,
    {
        match g {
            Grammar::Cl100k => Scanner::Cl100k(Cl100kPretokenizer::new()),
            Grammar::O200k => Scanner::O200k(O200kPretokenizer::new()),
        }
    }
}

impl Pretokenizer for Scanner {
    open spec fn cursor(&self) -> int {
        match self {
            Scanner::Cl100k(p) => p.cursor(),
            Scanner::O200k(p) => p.cursor(),
        }
    }

    open spec fn grammar(&self) -> Grammar {
        match self {
            Scanner::Cl100k(_) => Grammar::Cl100k,
            Scanner::O200k(_) => Grammar::O200k,
        }
    }

    fn next_piece(&mut self, input: &[u8]) -> (r: Option<(usize, usize)>) {
        match self {
            Scanner::Cl100k(p) => p.next_piece(input),
            Scanner::O200k(p) => p.next_piece(input),
        }
    }
}

} // verus!
