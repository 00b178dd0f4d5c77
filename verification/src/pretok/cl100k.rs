//! Hand-written scalar scanner for the cl100k_base pretokenizer grammar:
//! (?i:'s|'t|'re|'ve|'m|'ll|'d)|[^\r\n\p{L}\p{N}]?\p{L}+|\p{N}{1,3}|
//!  ?[^\s\p{L}\p{N}]+[\r\n]*|\s*[\r\n]+|\s+(?!\S)|\s+
use crate::pretok::common::{
    class_has, lemma_ascii_run_end, lemma_ascii_run_end_upto, lemma_spaces_at_end, lemma_spaces_before_text, char_at, char_cp, char_width, contraction_len, is_cr_or_lf, is_newline_cp, lemma_char_width_bounds, lemma_contraction_boundary, lemma_punct_end_boundary, lemma_run_end_boundary, lemma_run_end_bounds, lemma_run_end_upto_boundary, lemma_run_end_upto_bounds, lemma_whitespace_end_boundary, lemma_whitespace_end_bounds, lemma_width_boundary, match_contraction, other_class, punct_end, run_end, run_end_upto, scan_number, scan_punct, scan_run, scan_whitespace, whitespace_end, CharClass,
};
use crate::pretok::{Grammar, Pretokenizer};
use crate::unicode::{letter_class, letter_cp, number_class, number_cp, whitespace_class, whitespace_cp};
use vstd::prelude::*;
use vstd::utf8::*;

verus! {

/// Alt 2, `[^\r\n\p{L}\p{N}]?\p{L}+`: the end of the match at `start`, if any.
pub open spec fn cl100k_letters_end(input: Seq<u8>, start: int) -> Option<int> {
    let c0 = char_cp(input, start);
    let nj = start + char_width(input, start);
    let j = if !is_newline_cp(c0) && !letter_class(c0) && !number_class(c0) && nj < input.len()
        && letter_class(char_cp(input, nj)) {
        nj
    } else {
        start
    };
    if letter_class(char_cp(input, j)) {
        Some(run_end(input, j, CharClass::Letter))
    } else {
        None
    }
}

/// End of the cl100k piece that starts at `start`: the first alternative of the
/// grammar that matches, each taken greedily.
pub open spec fn cl100k_piece_end(input: Seq<u8>, start: int) -> int {
    let c0 = char_cp(input, start);
    if c0 == 0x27 && contraction_len(input, start) is Some {
        start + contraction_len(input, start)->Some_0
    } else if cl100k_letters_end(input, start) is Some {
        cl100k_letters_end(input, start)->Some_0
    } else if number_class(c0) {
        run_end_upto(input, start, CharClass::Number, 3)
    } else if punct_end(input, start, false) is Some {
        punct_end(input, start, false)->Some_0
    } else if whitespace_class(c0) {
        whitespace_end(input, start)
    } else {
        // Unreachable: every character is in one of the classes above.
        start + if char_width(input, start) > 1 {
            char_width(input, start)
        } else {
            1
        }
    }
}

/// Every cl100k piece makes progress and stays inside the input.
pub proof fn lemma_cl100k_piece_end_bounds(input: Seq<u8>, start: int)
    requires
        0 <= start <= input.len(),
    ensures
        start < input.len() ==> start < cl100k_piece_end(input, start) <= input.len(),
        start == input.len() ==> cl100k_piece_end(input, start) == start,
{
    let c0 = char_cp(input, start);
    let nj = start + char_width(input, start);
    lemma_char_width_bounds(input, start);
    if c0 == 0x27 && contraction_len(input, start) is Some {
    } else if cl100k_letters_end(input, start) is Some {
        let j = if !is_newline_cp(c0) && !letter_class(c0) && !number_class(c0) && nj
            < input.len() && letter_class(char_cp(input, nj)) {
            nj
        } else {
            start
        };
        lemma_run_end_bounds(input, j, CharClass::Letter);
    } else if number_class(c0) {
        lemma_run_end_upto_bounds(input, start, CharClass::Number, 3);
    } else if punct_end(input, start, false) is Some {
        let j = if c0 == 0x20 && nj < input.len() && other_class(char_cp(input, nj)) {
            nj
        } else {
            start
        };
        lemma_run_end_bounds(input, j, CharClass::Other);
        lemma_run_end_bounds(input, run_end(input, j, CharClass::Other), CharClass::NewLine);
    } else if whitespace_class(c0) {
        lemma_whitespace_end_bounds(input, start);
    }
}

/// On valid UTF-8, a cl100k piece that starts on a character boundary ends on one.
pub proof fn lemma_cl100k_piece_end_boundary(input: Seq<u8>, start: int)
    requires
        valid_utf8(input),
        is_char_boundary(input, start),
        0 <= start <= input.len(),
    ensures
        is_char_boundary(input, cl100k_piece_end(input, start)),
{
    let c0 = char_cp(input, start);
    let nj = start + char_width(input, start);
    lemma_char_width_bounds(input, start);
    if start == input.len() {
        lemma_cl100k_piece_end_bounds(input, start);
        return;
    }
    lemma_width_boundary(input, start);
    if c0 == 0x27 && contraction_len(input, start) is Some {
        lemma_contraction_boundary(input, start);
    } else if cl100k_letters_end(input, start) is Some {
        let j = if !is_newline_cp(c0) && !letter_class(c0) && !number_class(c0) && nj
            < input.len() && letter_class(char_cp(input, nj)) {
            nj
        } else {
            start
        };
        lemma_run_end_boundary(input, j, CharClass::Letter);
    } else if number_class(c0) {
        lemma_run_end_upto_boundary(input, start, CharClass::Number, 3);
    } else if punct_end(input, start, false) is Some {
        lemma_punct_end_boundary(input, start, false);
    } else if whitespace_class(c0) {
        lemma_whitespace_end_boundary(input, start);
    }
}

/// A character that is not a letter, digit, CR or LF, followed by a letter,
/// starts a piece that takes it and the whole letter run after it (unless it
/// is an apostrophe opening a contraction, which comes first).
pub proof fn lemma_cl100k_lead_then_letters(input: Seq<u8>, start: int)
    requires
        0 <= start,
        start + char_width(input, start) < input.len(),
        !is_newline_cp(char_cp(input, start)),
        !letter_class(char_cp(input, start)),
        !number_class(char_cp(input, start)),
        letter_class(char_cp(input, start + char_width(input, start))),
        !(char_cp(input, start) == 0x27 && contraction_len(input, start) is Some),
    ensures
        cl100k_piece_end(input, start) == run_end(
            input,
            start + char_width(input, start),
            CharClass::Letter,
        ),
        cl100k_piece_end(input, start) > start + char_width(input, start),
{
    lemma_run_end_bounds(input, start + char_width(input, start), CharClass::Letter);
}

/// An ASCII punctuation character: not a letter, digit, white space or
/// control character.
pub open spec fn ascii_punct(b: u8) -> bool {
    (0x21 <= b <= 0x2F) || (0x3A <= b <= 0x40) || (0x5B <= b <= 0x60) || (0x7B <= b <= 0x7E)
}

/// An ASCII decimal digit.
pub open spec fn ascii_digit(b: u8) -> bool {
    0x30 <= b <= 0x39
}

/// Digits are taken three at a time: a piece that starts with `k <= 3` ASCII
/// digits holds exactly those when the run of digits stops there or `k` is 3.
pub proof fn lemma_cl100k_digits(input: Seq<u8>, start: int, k: int)
    requires
        0 <= start,
        1 <= k <= 3,
        start + k <= input.len(),
        forall|x: int| start <= x < start + k ==> ascii_digit(#[trigger] input[x]),
        k == 3 || start + k == input.len() || (input[start + k] < 0x80 && !ascii_digit(
            input[start + k],
        )),
    ensures
        cl100k_piece_end(input, start) == start + k,
{
    assert(ascii_digit(input[start]));
    assert forall|x: int| start <= x < start + k implies input[x] < 0x80 && class_has(
        CharClass::Number,
        #[trigger] input[x] as u32,
    ) by {
        assert(ascii_digit(input[x]));
    }
    lemma_ascii_run_end_upto(input, start, start + k, CharClass::Number, 3);
}

/// An apostrophe followed by `s`, `t`, `m` or `d`, in either case, makes a
/// piece with that letter; followed by `re`, `ve` or `ll`, in any case, a
/// piece with those two letters.
pub proof fn lemma_cl100k_contractions(input: Seq<u8>, start: int)
    requires
        0 <= start,
        start + 1 < input.len(),
        input[start] == 0x27,
    ensures
        ({
            let b1 = input[start + 1];
            b1 == 0x73 || b1 == 0x53 || b1 == 0x74 || b1 == 0x54 || b1 == 0x6D || b1 == 0x4D
                || b1 == 0x64 || b1 == 0x44
        }) ==> cl100k_piece_end(input, start) == start + 2,
        start + 2 < input.len() && ({
            let b1 = input[start + 1];
            let b2 = input[start + 2];
            let e2 = b2 == 0x65 || b2 == 0x45;
            ||| (b1 == 0x72 || b1 == 0x52) && e2
            ||| (b1 == 0x76 || b1 == 0x56) && e2
            ||| (b1 == 0x6C || b1 == 0x4C) && (b2 == 0x6C || b2 == 0x4C)
        }) ==> cl100k_piece_end(input, start) == start + 3,
{
}

/// Of two or more spaces before a character that is not white space, the
/// piece at the first space stops one space short, leaving the last space to
/// the word after it; spaces that reach the end of the text are one piece.
pub proof fn lemma_cl100k_spaces(input: Seq<u8>, start: int, e: int)
    requires
        0 <= start,
        start + 2 <= e <= input.len(),
        forall|x: int| start <= x < e ==> #[trigger] input[x] == 0x20,
        e == input.len() || (input[e] < 0x80 && !whitespace_class(input[e] as u32)),
    ensures
        e < input.len() ==> cl100k_piece_end(input, start) == e - 1,
        e == input.len() ==> cl100k_piece_end(input, start) == e,
{
    assert(input[start] == 0x20 && input[start + 1] == 0x20);
    if e < input.len() {
        lemma_spaces_before_text(input, start, e);
    } else {
        lemma_spaces_at_end(input, start);
    }
}

/// A run of ASCII punctuation, after at most one leading space (`lead`),
/// together with the CR/LF characters right after it, is one piece when a
/// digit, a space or the end of the text follows.
pub proof fn lemma_cl100k_punct_run(input: Seq<u8>, start: int, lead: bool, e: int, f: int)
    requires
        0 <= start,
        lead ==> input[start] == 0x20,
        (if lead {
            start + 1
        } else {
            start
        }) < e <= f <= input.len(),
        forall|x: int|
            (if lead {
                start + 1
            } else {
                start
            }) <= x < e ==> ascii_punct(#[trigger] input[x]),
        forall|x: int| e <= x < f ==> #[trigger] input[x] == 0x0A || input[x] == 0x0D,
        f == input.len() || ascii_digit(input[f]) || input[f] == 0x20,
    ensures
        cl100k_piece_end(input, start) == f,
{
    let p = if lead {
        start + 1
    } else {
        start
    };
    assert(ascii_punct(input[p]));
    if p + 1 < e {
        assert(ascii_punct(input[p + 1]));
    } else if p + 1 < f {
        assert(input[p + 1] == 0x0A || input[p + 1] == 0x0D);
    }
    assert forall|x: int| p <= x < e implies input[x] < 0x80 && class_has(
        CharClass::Other,
        #[trigger] input[x] as u32,
    ) by {
        assert(ascii_punct(input[x]));
    }
    if e < f {
        assert(input[e] == 0x0A || input[e] == 0x0D);
    }
    lemma_ascii_run_end(input, p, e, CharClass::Other);
    assert forall|x: int| e <= x < f implies input[x] < 0x80 && class_has(
        CharClass::NewLine,
        #[trigger] input[x] as u32,
    ) by {
        assert(input[x] == 0x0A || input[x] == 0x0D);
    }
    lemma_ascii_run_end(input, e, f, CharClass::NewLine);
}

/// A run of ASCII letters, capitals and small letters in any order, is one
/// piece when a non-letter or the end of the text follows it.
pub proof fn lemma_cl100k_word(input: Seq<u8>, start: int, e: int)
    requires
        0 <= start < e <= input.len(),
        forall|x: int|
            start <= x < e ==> (0x41 <= #[trigger] input[x] <= 0x5A) || (0x61 <= input[x] <= 0x7A),
        e == input.len() || (input[e] < 0x80 && !(0x41 <= input[e] <= 0x5A) && !(0x61 <= input[e]
            <= 0x7A)),
    ensures
        cl100k_piece_end(input, start) == e,
{
    assert forall|x: int| start <= x < e implies input[x] < 0x80 && class_has(
        CharClass::Letter,
        #[trigger] input[x] as u32,
    ) by {
        assert((0x41 <= input[x] <= 0x5A) || (0x61 <= input[x] <= 0x7A));
    }
    assert((0x41 <= input[start] <= 0x5A) || (0x61 <= input[start] <= 0x7A));
    lemma_ascii_run_end(input, start, e, CharClass::Letter);
}

/// Scanner state for the cl100k grammar: the byte offset of the next piece.
#[derive(Default)]
pub struct Cl100kPretokenizer {
    pos: usize,
}

impl Cl100kPretokenizer {
    pub fn new() -> (r: Self)
        ensures
            r.cursor() == 0,
    {
        Self { pos: 0 }
    }

    pub fn reset(&mut self)
        ensures
            final(self).cursor() == 0,
    {
        self.pos = 0;
    }
}

/// End index of the cl100k piece starting at `start` (scalar; handles Unicode).
pub fn piece_end(input: &[u8], start: usize) -> (r: usize)
    requires
        start <= input@.len(),
    ensures
        r == cl100k_piece_end(input@, start as int),
        start < input@.len() ==> start < r <= input@.len(),
        start == input@.len() ==> r == start,
{
    proof {
        lemma_cl100k_piece_end_bounds(input@, start as int);
        lemma_char_width_bounds(input@, start as int);
    }
    let n = input.len();
    let (c0, w0) = char_at(input, start);

    // Alt 1: (?i:'s|'t|'re|'ve|'m|'ll|'d)
    if c0 == 0x27 {
        if let Some(len) = match_contraction(input, start) {
            return start + len;
        }
    }
    // Alt 2: [^\r\n\p{L}\p{N}]? \p{L}+

    {
        let mut j = start;
        let mut c = c0;
        if !is_cr_or_lf(c) && !letter_cp(c) && !number_cp(c) {
            let nj = start + w0;
            if nj < n {
                let (c2, _) = char_at(input, nj);
                if letter_cp(c2) {
                    j = nj;
                    c = c2;
                }
            }
        }
        if letter_cp(c) {
            return scan_run(input, j, CharClass::Letter);
        }
    }

    // Alt 3: \p{N}{1,3}
    if number_cp(c0) {
        return scan_number(input, start);
    }
    // Alt 4:  ?[^\s\p{L}\p{N}]+[\r\n]*

    if let Some(end) = scan_punct(input, start, false) {
        return end;
    }
    // Alt 5-7: whitespace cascade

    if whitespace_cp(c0) {
        return scan_whitespace(input, start);
    }
    // Fallback: unreachable for valid inputs; guarantee progress.

    start + if w0 > 1 {
        w0
    } else {
        1
    }
}

impl Pretokenizer for Cl100kPretokenizer {
    closed spec fn cursor(&self) -> int {
        self.pos as int
    }

    open spec fn grammar(&self) -> Grammar {
        Grammar::Cl100k
    }

    fn next_piece(&mut self, input: &[u8]) -> (r: Option<(usize, usize)>) {
        let start = self.pos;
        if start >= input.len() {
            return None;
        }
        proof {
            lemma_cl100k_piece_end_boundary(input@, start as int);
        }
        self.pos = piece_end(input, start);
        Some((start, self.pos))
    }
}

} // verus!
