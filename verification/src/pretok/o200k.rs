//! Hand-written scalar scanner for the o200k_base / o200k_harmony grammar:
//! [^\r\n\p{L}\p{N}]?[\p{Lu}\p{Lt}\p{Lm}\p{Lo}\p{M}]*[\p{Ll}\p{Lm}\p{Lo}\p{M}]+(?i:contr)?
//! |[^\r\n\p{L}\p{N}]?[\p{Lu}\p{Lt}\p{Lm}\p{Lo}\p{M}]+[\p{Ll}\p{Lm}\p{Lo}\p{M}]*(?i:contr)?
//! |\p{N}{1,3}| ?[^\s\p{L}\p{N}]+[\r\n/]*|\s*[\r\n]+|\s+(?!\S)|\s+
use crate::pretok::common::{
    class_has, lemma_ascii_run_end, lemma_ascii_run_end_upto, lemma_spaces_at_end, lemma_spaces_before_text, char_at, char_cp, char_width, contraction_len, is_cr_or_lf, is_newline_cp, lemma_back_to_lead_le, lemma_char_width_bounds, lemma_contraction_boundary, lemma_prev_start_boundary, lemma_punct_end_boundary, lemma_run_end_boundary, lemma_run_end_bounds, lemma_run_end_upto_boundary, lemma_run_end_upto_bounds, lemma_whitespace_end_boundary, lemma_whitespace_end_bounds, lemma_width_boundary, match_contraction, other_class, prev_char_start, prev_start, punct_end, run_end, run_end_upto, scan_number, scan_punct, scan_run, scan_whitespace, whitespace_end, CharClass,
};
use crate::pretok::cl100k::{ascii_digit, ascii_punct};
use crate::pretok::{Grammar, Pretokenizer};
use crate::unicode::{
    letter_class, letter_cp, number_class, number_cp, o200k_lower_class, o200k_lower_cp,
    o200k_upper_class, o200k_upper_cp, whitespace_class, whitespace_cp,
};
use vstd::prelude::*;
use vstd::utf8::*;

verus! {

/// Backtracking step of `UPPER* LOWER+`: from cursor `i` (inside or at the end
/// of the UPPER run that began at `q`), the first position, walking back one
/// character at a time, that holds a LOWER character; the match then takes the
/// maximal LOWER run from there.
pub open spec fn backtrack_lower(input: Seq<u8>, q: int, i: int) -> Option<int>
    decreases i,
{
    if 0 <= i < input.len() && o200k_lower_class(char_cp(input, i)) {
        Some(run_end(input, i, CharClass::Lower))
    } else if i <= q || i <= 0 {
        None
    } else {
        proof {
            lemma_back_to_lead_le(input, i - 1);
        }
        backtrack_lower(input, q, prev_start(input, i))
    }
}

/// Greedy `UPPER* LOWER+` at `q`, with backtracking: the end of the match, if any.
pub open spec fn upper_star_lower_plus(input: Seq<u8>, q: int) -> Option<int> {
    backtrack_lower(input, q, run_end(input, q, CharClass::Upper))
}

/// Greedy `UPPER+ LOWER*` at `q`: the end of the match, if any.
pub open spec fn upper_plus_lower_star(input: Seq<u8>, q: int) -> Option<int> {
    if q >= input.len() || !o200k_upper_class(char_cp(input, q)) {
        None
    } else {
        Some(run_end(input, run_end(input, q, CharClass::Upper), CharClass::Lower))
    }
}

/// The end after an optional contraction suffix at `end`.
pub open spec fn after_contraction(input: Seq<u8>, end: int) -> int {
    match contraction_len(input, end) {
        Some(l) => end + l,
        None => end,
    }
}

/// The two letter alternatives (A then B), each first with the optional
/// leading non-letter character and then without it.
pub open spec fn o200k_letters_end(input: Seq<u8>, start: int) -> Option<int> {
    let c0 = char_cp(input, start);
    let lead_ok = !is_newline_cp(c0) && !letter_class(c0) && !number_class(c0);
    let q_lead = start + char_width(input, start);
    if lead_ok && q_lead < input.len() && upper_star_lower_plus(input, q_lead) is Some {
        Some(after_contraction(input, upper_star_lower_plus(input, q_lead)->Some_0))
    } else if upper_star_lower_plus(input, start) is Some {
        Some(after_contraction(input, upper_star_lower_plus(input, start)->Some_0))
    } else if lead_ok && q_lead < input.len() && upper_plus_lower_star(input, q_lead) is Some {
        Some(after_contraction(input, upper_plus_lower_star(input, q_lead)->Some_0))
    } else if upper_plus_lower_star(input, start) is Some {
        Some(after_contraction(input, upper_plus_lower_star(input, start)->Some_0))
    } else {
        None
    }
}

/// End of the o200k piece that starts at `start`: the first alternative of the
/// grammar that matches.
pub open spec fn o200k_piece_end(input: Seq<u8>, start: int) -> int {
    let c0 = char_cp(input, start);
    if o200k_letters_end(input, start) is Some {
        o200k_letters_end(input, start)->Some_0
    } else if number_class(c0) {
        run_end_upto(input, start, CharClass::Number, 3)
    } else if punct_end(input, start, true) is Some {
        punct_end(input, start, true)->Some_0
    } else if whitespace_class(c0) {
        whitespace_end(input, start)
    } else {
        // Unreachable: every character is in one of the classes above.
        start + if char_width(input, start) > 1 {
            char_width(input, start)
        } else {
            1
        }
    }
}

/// With no lowercase character at any character start from `q` to `i`, the
/// `UPPER* LOWER+` backtracking finds nothing.
proof fn lemma_backtrack_none(input: Seq<u8>, q: int, i: int)
    requires
        valid_utf8(input),
        is_char_boundary(input, q),
        is_char_boundary(input, i),
        0 <= q <= i <= input.len(),
        forall|p: int|
            q <= p <= i && p < input.len() && is_char_boundary(input, p) ==> !o200k_lower_class(
                #[trigger] char_cp(input, p),
            ),
    ensures
        backtrack_lower(input, q, i) is None,
    decreases i,
{
    if 0 <= i < input.len() && o200k_lower_class(char_cp(input, i)) {
    } else if i <= q || i <= 0 {
    } else {
        lemma_prev_start_boundary(input, q, i);
        lemma_back_to_lead_le(input, i - 1);
        lemma_backtrack_none(input, q, prev_start(input, i));
    }
}

/// A character that is not a letter, digit, CR or LF (such as a space),
/// followed by a run of uppercase letters with no lowercase letter in it or
/// right after it, starts a piece that takes the character and the whole
/// uppercase run, and a contraction right after it if there is one.
pub proof fn lemma_o200k_lead_then_upper(input: Seq<u8>, start: int)
    requires
        valid_utf8(input),
        is_char_boundary(input, start),
        0 <= start,
        start + char_width(input, start) < input.len(),
        !is_newline_cp(char_cp(input, start)),
        !letter_class(char_cp(input, start)),
        !number_class(char_cp(input, start)),
        !o200k_upper_class(char_cp(input, start)),
        !o200k_lower_class(char_cp(input, start)),
        o200k_upper_class(char_cp(input, start + char_width(input, start))),
        forall|p: int|
            start + char_width(input, start) <= p <= run_end(
                input,
                start + char_width(input, start),
                CharClass::Upper,
            ) && p < input.len() && is_char_boundary(input, p) ==> !o200k_lower_class(
                #[trigger] char_cp(input, p),
            ),
    ensures
        ({
            let u = run_end(input, start + char_width(input, start), CharClass::Upper);
            &&& u > start + char_width(input, start)
            &&& o200k_piece_end(input, start) == match contraction_len(input, u) {
                Some(l) => u + l,
                None => u,
            }
        }),
{
    let q = start + char_width(input, start);
    lemma_char_width_bounds(input, start);
    lemma_width_boundary(input, start);
    let u = run_end(input, q, CharClass::Upper);
    lemma_run_end_bounds(input, q, CharClass::Upper);
    lemma_run_end_boundary(input, q, CharClass::Upper);
    lemma_backtrack_none(input, q, u);
    assert(upper_star_lower_plus(input, q) is None);
    assert(run_end(input, start, CharClass::Upper) == start);
    assert(upper_star_lower_plus(input, start) is None);
    assert(u < input.len() ==> !o200k_lower_class(char_cp(input, u)));
    assert(run_end(input, u, CharClass::Lower) == u);
    assert(upper_plus_lower_star(input, q) == Some(u));
}

/// An ASCII capital letter.
pub open spec fn ascii_upper(b: u8) -> bool {
    0x41 <= b <= 0x5A
}

/// An ASCII small letter.
pub open spec fn ascii_small(b: u8) -> bool {
    0x61 <= b <= 0x7A
}

/// Digits are taken three at a time: a piece that starts with `k <= 3` ASCII
/// digits holds exactly those when the run of digits stops there or `k` is 3.
pub proof fn lemma_o200k_digits(input: Seq<u8>, start: int, k: int)
    requires
        0 <= start,
        1 <= k <= 3,
        start + k <= input.len(),
        forall|x: int| start <= x < start + k ==> ascii_digit(#[trigger] input[x]),
        k == 3 || start + k == input.len() || (input[start + k] < 0x80 && !ascii_digit(
            input[start + k],
        )),
    ensures
        o200k_piece_end(input, start) == start + k,
{
    assert(ascii_digit(input[start]));
    assert(run_end(input, start, CharClass::Upper) == start);
    assert(upper_star_lower_plus(input, start) is None);
    assert forall|x: int| start <= x < start + k implies input[x] < 0x80 && class_has(
        CharClass::Number,
        #[trigger] input[x] as u32,
    ) by {
        assert(ascii_digit(input[x]));
    }
    lemma_ascii_run_end_upto(input, start, start + k, CharClass::Number, 3);
}

/// Of two or more spaces before a character that is not white space, the
/// piece at the first space stops one space short, leaving the last space to
/// the word after it; spaces that reach the end of the text are one piece.
pub proof fn lemma_o200k_spaces(input: Seq<u8>, start: int, e: int)
    requires
        0 <= start,
        start + 2 <= e <= input.len(),
        forall|x: int| start <= x < e ==> #[trigger] input[x] == 0x20,
        e == input.len() || (input[e] < 0x80 && !whitespace_class(input[e] as u32)),
    ensures
        e < input.len() ==> o200k_piece_end(input, start) == e - 1,
        e == input.len() ==> o200k_piece_end(input, start) == e,
{
    assert(input[start] == 0x20 && input[start + 1] == 0x20);
    assert(run_end(input, start, CharClass::Upper) == start);
    assert(run_end(input, start + 1, CharClass::Upper) == start + 1);
    assert(upper_star_lower_plus(input, start) is None);
    assert(upper_star_lower_plus(input, start + 1) is None);
    if e < input.len() {
        lemma_spaces_before_text(input, start, e);
    } else {
        lemma_spaces_at_end(input, start);
    }
}

/// A run of ASCII punctuation, after at most one leading space (`lead`),
/// together with the run of CR, LF and `/` characters that follows it from a
/// CR or LF on, is one piece when a digit, a space or the end of the text
/// follows.
pub proof fn lemma_o200k_punct_run(input: Seq<u8>, start: int, lead: bool, e: int, f: int)
    requires
        0 <= start,
        lead ==> input[start] == 0x20,
        (if lead {
            start + 1
        } else {
            start
        }) < e <= f <= input.len(),
        forall|x: int|
            (if lead {
                start + 1
            } else {
                start
            }) <= x < e ==> ascii_punct(#[trigger] input[x]),
        e < f ==> input[e] == 0x0A || input[e] == 0x0D,
        forall|x: int|
            e <= x < f ==> #[trigger] input[x] == 0x0A || input[x] == 0x0D || input[x] == 0x2F,
        f == input.len() || ascii_digit(input[f]) || input[f] == 0x20,
    ensures
        o200k_piece_end(input, start) == f,
{
    let p = if lead {
        start + 1
    } else {
        start
    };
    assert(ascii_punct(input[p]));
    assert(run_end(input, start, CharClass::Upper) == start);
    assert(upper_star_lower_plus(input, start) is None);
    if p + 1 < e {
        assert(ascii_punct(input[p + 1]));
    } else if p + 1 < f {
        assert(input[p + 1] == 0x0A || input[p + 1] == 0x0D || input[p + 1] == 0x2F);
    }
    if start + 1 < input.len() {
        assert(run_end(input, start + 1, CharClass::Upper) == start + 1);
        assert(upper_star_lower_plus(input, start + 1) is None);
    }
    assert forall|x: int| p <= x < e implies input[x] < 0x80 && class_has(
        CharClass::Other,
        #[trigger] input[x] as u32,
    ) by {
        assert(ascii_punct(input[x]));
    }
    lemma_ascii_run_end(input, p, e, CharClass::Other);
    assert forall|x: int| e <= x < f implies input[x] < 0x80 && class_has(
        CharClass::NewLineOrSlash,
        #[trigger] input[x] as u32,
    ) by {
        assert(input[x] == 0x0A || input[x] == 0x0D || input[x] == 0x2F);
    }
    lemma_ascii_run_end(input, e, f, CharClass::NewLineOrSlash);
}

/// An ASCII word, capitals then small letters (at least one), after at most
/// one leading space (`lead`), is one piece when anything but a small letter
/// follows (so a capital starts the next piece: `HelloWorld` is `Hello`,
/// `World`), and a contraction right after it (`'s`, `'t`, `'m`, `'d`,
/// `'re`, `'ve`, `'ll`, in any case) joins it.
pub proof fn lemma_o200k_word(input: Seq<u8>, start: int, lead: bool, m: int, e: int)
    requires
        0 <= start,
        lead ==> input[start] == 0x20,
        (if lead {
            start + 1
        } else {
            start
        }) <= m < e <= input.len(),
        forall|x: int|
            (if lead {
                start + 1
            } else {
                start
            }) <= x < m ==> ascii_upper(#[trigger] input[x]),
        forall|x: int| m <= x < e ==> ascii_small(#[trigger] input[x]),
        e == input.len() || (input[e] < 0x80 && !ascii_small(input[e])),
    ensures
        (e + 1 < input.len() && input[e] == 0x27 && ({
            let b1 = input[e + 1];
            b1 == 0x73 || b1 == 0x53 || b1 == 0x74 || b1 == 0x54 || b1 == 0x6D || b1 == 0x4D
                || b1 == 0x64 || b1 == 0x44
        })) ==> o200k_piece_end(input, start) == e + 2,
        (e + 2 < input.len() && input[e] == 0x27 && ({
            let b1 = input[e + 1];
            let b2 = input[e + 2];
            let e2 = b2 == 0x65 || b2 == 0x45;
            ||| (b1 == 0x72 || b1 == 0x52) && e2
            ||| (b1 == 0x76 || b1 == 0x56) && e2
            ||| (b1 == 0x6C || b1 == 0x4C) && (b2 == 0x6C || b2 == 0x4C)
        })) ==> o200k_piece_end(input, start) == e + 3,
        (e == input.len() || input[e] != 0x27) ==> o200k_piece_end(input, start) == e,
{
    let q = if lead {
        start + 1
    } else {
        start
    };
    assert forall|x: int| q <= x < m implies input[x] < 0x80 && class_has(
        CharClass::Upper,
        #[trigger] input[x] as u32,
    ) by {
        assert(ascii_upper(input[x]));
    }
    assert(ascii_small(input[m]));
    lemma_ascii_run_end(input, q, m, CharClass::Upper);
    assert forall|x: int| m <= x < e implies input[x] < 0x80 && class_has(
        CharClass::Lower,
        #[trigger] input[x] as u32,
    ) by {
        assert(ascii_small(input[x]));
    }
    lemma_ascii_run_end(input, m, e, CharClass::Lower);
    assert(backtrack_lower(input, q, m) == Some(e));
    assert(upper_star_lower_plus(input, q) == Some(e));
    if q < m {
        assert(ascii_upper(input[q]));
    }
}

proof fn lemma_backtrack_lower(input: Seq<u8>, q: int, i: int)
    requires
        valid_utf8(input),
        is_char_boundary(input, q),
        is_char_boundary(input, i),
        0 <= q <= i <= input.len(),
    ensures
        backtrack_lower(input, q, i) matches Some(e) ==> q < e <= input.len()
            && is_char_boundary(input, e),
    decreases i,
{
    if 0 <= i < input.len() && o200k_lower_class(char_cp(input, i)) {
        lemma_run_end_bounds(input, i, CharClass::Lower);
        lemma_run_end_boundary(input, i, CharClass::Lower);
    } else if i <= q || i <= 0 {
    } else {
        lemma_prev_start_boundary(input, q, i);
        lemma_back_to_lead_le(input, i - 1);
        lemma_backtrack_lower(input, q, prev_start(input, i));
    }
}

proof fn lemma_alternatives(input: Seq<u8>, q: int)
    requires
        valid_utf8(input),
        is_char_boundary(input, q),
        0 <= q <= input.len(),
    ensures
        upper_star_lower_plus(input, q) matches Some(e) ==> q < e <= input.len()
            && is_char_boundary(input, e) && after_contraction(input, e) <= input.len()
            && is_char_boundary(input, after_contraction(input, e)),
        upper_plus_lower_star(input, q) matches Some(e) ==> q < e <= input.len()
            && is_char_boundary(input, e) && after_contraction(input, e) <= input.len()
            && is_char_boundary(input, after_contraction(input, e)),
{
    lemma_run_end_bounds(input, q, CharClass::Upper);
    lemma_run_end_boundary(input, q, CharClass::Upper);
    let u = run_end(input, q, CharClass::Upper);
    lemma_backtrack_lower(input, q, u);
    lemma_run_end_bounds(input, u, CharClass::Lower);
    lemma_run_end_boundary(input, u, CharClass::Lower);
    if let Some(e) = upper_star_lower_plus(input, q) {
        if contraction_len(input, e) is Some {
            lemma_contraction_boundary(input, e);
        }
    }
    if let Some(e) = upper_plus_lower_star(input, q) {
        if contraction_len(input, e) is Some {
            lemma_contraction_boundary(input, e);
        }
    }
}

/// On valid UTF-8, every o200k piece that starts on a character boundary makes
/// progress and stays inside the input.
pub proof fn lemma_o200k_piece_end_bounds(input: Seq<u8>, start: int)
    requires
        valid_utf8(input),
        is_char_boundary(input, start),
        0 <= start <= input.len(),
    ensures
        start < input.len() ==> start < o200k_piece_end(input, start) <= input.len(),
        start == input.len() ==> o200k_piece_end(input, start) == start,
{
    lemma_o200k_piece_end(input, start);
}

/// On valid UTF-8, an o200k piece that starts on a character boundary ends on one.
pub proof fn lemma_o200k_piece_end_boundary(input: Seq<u8>, start: int)
    requires
        valid_utf8(input),
        is_char_boundary(input, start),
        0 <= start <= input.len(),
    ensures
        is_char_boundary(input, o200k_piece_end(input, start)),
{
    lemma_o200k_piece_end(input, start);
}

proof fn lemma_o200k_piece_end(input: Seq<u8>, start: int)
    requires
        valid_utf8(input),
        is_char_boundary(input, start),
        0 <= start <= input.len(),
    ensures
        start < input.len() ==> start < o200k_piece_end(input, start) <= input.len(),
        start == input.len() ==> o200k_piece_end(input, start) == start,
        is_char_boundary(input, o200k_piece_end(input, start)),
{
    let c0 = char_cp(input, start);
    let q_lead = start + char_width(input, start);
    lemma_char_width_bounds(input, start);
    lemma_alternatives(input, start);
    if start < input.len() {
        lemma_width_boundary(input, start);
        lemma_alternatives(input, q_lead);
    }
    if o200k_letters_end(input, start) is Some {
    } else if number_class(c0) {
        lemma_run_end_upto_bounds(input, start, CharClass::Number, 3);
        lemma_run_end_upto_boundary(input, start, CharClass::Number, 3);
    } else if punct_end(input, start, true) is Some {
        let nj = start + char_width(input, start);
        let j = if c0 == 0x20 && nj < input.len() && other_class(char_cp(input, nj)) {
            nj
        } else {
            start
        };
        lemma_run_end_bounds(input, j, CharClass::Other);
        lemma_run_end_bounds(
            input,
            run_end(input, j, CharClass::Other),
            CharClass::NewLineOrSlash,
        );
        lemma_punct_end_boundary(input, start, true);
    } else if whitespace_class(c0) {
        lemma_whitespace_end_bounds(input, start);
        lemma_whitespace_end_boundary(input, start);
    }
}

/// Scanner state for the o200k grammar: the byte offset of the next piece.
#[derive(Default)]
pub struct O200kPretokenizer {
    pos: usize,
}

impl O200kPretokenizer {
    pub fn new() -> (r: Self)
        ensures
            r.cursor() == 0,
    {
        Self { pos: 0 }
    }

    pub fn reset(&mut self)
        ensures
            final(self).cursor() == 0,
    {
        self.pos = 0;
    }
}

/// Greedy `UPPER* LOWER+` with backtracking, starting at `q`. Returns end index
/// of the match, or None (no LOWER char reachable).
fn match_upper_star_lower_plus(input: &[u8], q: usize) -> (r: Option<usize>)
    requires
        q <= input@.len(),
    ensures
        r matches Some(e) ==> upper_star_lower_plus(input@, q as int) == Some(e as int) && e
            <= input@.len(),
        r is None ==> upper_star_lower_plus(input@, q as int) is None,
{
    // greedy UPPER*
    let mut i = scan_run(input, q, CharClass::Upper);
    // need LOWER+ (>=1); backtrack the UPPER* run one char at a time until the
    // char at the cursor is in LOWER, then consume the maximal LOWER run.
    loop
        invariant
            i <= input@.len(),
            backtrack_lower(input@, q as int, i as int) == upper_star_lower_plus(
                input@,
                q as int,
            ),
        decreases i,
    {
        if i < input.len() {
            let (c, _) = char_at(input, i);
            if o200k_lower_cp(c) {
                return Some(scan_run(input, i, CharClass::Lower));
            }
        }
        if i <= q {
            return None;
        }
        i = prev_char_start(input, i);
    }
}

/// Greedy `UPPER+ LOWER*` starting at `q`. Returns end index, or None (no UPPER).
fn match_upper_plus_lower_star(input: &[u8], q: usize) -> (r: Option<usize>)
    requires
        q <= input@.len(),
    ensures
        r matches Some(e) ==> upper_plus_lower_star(input@, q as int) == Some(e as int) && e
            <= input@.len(),
        r is None ==> upper_plus_lower_star(input@, q as int) is None,
{
    if q >= input.len() {
        return None;
    }
    let (c0, _) = char_at(input, q);
    if !o200k_upper_cp(c0) {
        return None;
    }
    let i = scan_run(input, q, CharClass::Upper);
    Some(scan_lower_run(input, i))
}

/// Consume the maximal run of LOWER chars from `from`; returns the end index.
#[inline]
fn scan_lower_run(input: &[u8], from: usize) -> (r: usize)
    requires
        from <= input@.len(),
    ensures
        r == run_end(input@, from as int, CharClass::Lower),
        from <= r <= input@.len(),
{
    scan_run(input, from, CharClass::Lower)
}

/// Optional trailing contraction after a letter run.
#[inline]
fn with_contraction(input: &[u8], end: usize) -> (r: usize)
    requires
        end <= input@.len(),
    ensures
        r == after_contraction(input@, end as int),
{
    let n = input.len();
    match match_contraction(input, end) {
        Some(len) => {
            assert(end + len <= n);
            end + len
        },
        None => end,
    }
}

/// Match the two letter alternatives (A then B), each trying the optional
/// leading non-letter char (greedy) before falling back to no leading char.
/// Returns the end index of the piece starting at `start`, or None.
fn match_letters(input: &[u8], start: usize) -> (r: Option<usize>)
    requires
        start <= input@.len(),
    ensures
        r matches Some(e) ==> o200k_letters_end(input@, start as int) == Some(e as int),
        r is None ==> o200k_letters_end(input@, start as int) is None,
{
    proof {
        lemma_char_width_bounds(input@, start as int);
    }
    let n = input.len();
    let (c0, w0) = char_at(input, start);
    let lead_ok = !is_cr_or_lf(c0) && !letter_cp(c0) && !number_cp(c0);
    let q_lead = start + w0;

    // Alt A: UPPER* LOWER+
    if lead_ok && q_lead < n {
        if let Some(e) = match_upper_star_lower_plus(input, q_lead) {
            return Some(with_contraction(input, e));
        }
    }
    if let Some(e) = match_upper_star_lower_plus(input, start) {
        return Some(with_contraction(input, e));
    }
    // Alt B: UPPER+ LOWER*

    if lead_ok && q_lead < n {
        if let Some(e) = match_upper_plus_lower_star(input, q_lead) {
            return Some(with_contraction(input, e));
        }
    }
    if let Some(e) = match_upper_plus_lower_star(input, start) {
        return Some(with_contraction(input, e));
    }
    None
}

/// End index of the o200k piece starting at `start` (scalar; handles Unicode).
pub fn piece_end(input: &[u8], start: usize) -> (r: usize)
    requires
        valid_utf8(input@),
        is_char_boundary(input@, start as int),
        start <= input@.len(),
    ensures
        r == o200k_piece_end(input@, start as int),
        start < input@.len() ==> start < r <= input@.len(),
        start == input@.len() ==> r == start,
{
    proof {
        lemma_o200k_piece_end(input@, start as int);
        lemma_char_width_bounds(input@, start as int);
    }
    let (c0, w0) = char_at(input, start);

    // Alts 1-2: case-aware letter sequences (+ optional contraction).
    if let Some(end) = match_letters(input, start) {
        return end;
    }
    // Alt 3: \p{N}{1,3}

    if number_cp(c0) {
        return scan_number(input, start);
    }
    // Alt 4:  ?[^\s\p{L}\p{N}]+[\r\n/]*   (note: '/' in the trailing class)

    if let Some(end) = scan_punct(input, start, true) {
        return end;
    }
    // Alt 5-7: whitespace cascade

    if whitespace_cp(c0) {
        return scan_whitespace(input, start);
    }
    // Fallback: unreachable for valid inputs; guarantee progress.

    start + if w0 > 1 {
        w0
    } else {
        1
    }
}

impl Pretokenizer for O200kPretokenizer {
    closed spec fn cursor(&self) -> int {
        self.pos as int
    }

    open spec fn grammar(&self) -> Grammar {
        Grammar::O200k
    }

    fn next_piece(&mut self, input: &[u8]) -> (r: Option<(usize, usize)>) {
        let start = self.pos;
        if start >= input.len() {
            return None;
        }
        proof {
            lemma_o200k_piece_end(input@, start as int);
        }
        self.pos = piece_end(input, start);
        Some((start, self.pos))
    }
}

} // verus!
