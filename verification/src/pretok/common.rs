//! Shared scalar pretokenizer helpers used by the cl100k and o200k grammars.
//!
//! Input is a byte slice that, on every path the library takes, is the UTF-8
//! encoding of a `&str`. Characters are decoded from the leading byte of each
//! encoding; the decoder is total (a byte that does not start a complete
//! encoding decodes as a one-byte character), so every helper is defined on
//! arbitrary bytes.
use crate::unicode::{
    letter_class, letter_cp, number_class, number_cp, o200k_lower_class, o200k_lower_cp,
    o200k_upper_class, o200k_upper_cp, whitespace_class, whitespace_cp,
};
use vstd::prelude::*;
use vstd::utf8::*;

verus! {

// ---------------------------------------------------------------------------
// Character decoding
// ---------------------------------------------------------------------------

/// Byte width of the character whose encoding starts at `i` (0 at or past the end).
pub open spec fn char_width(input: Seq<u8>, i: int) -> int {
    if i < 0 || i >= input.len() {
        0
    } else {
        let b = input[i];
        if b < 0x80 {
            1
        } else if 0xC0 <= b <= 0xDF && i + 1 < input.len() {
            2
        } else if 0xE0 <= b <= 0xEF && i + 2 < input.len() {
            3
        } else if 0xF0 <= b <= 0xF7 && i + 3 < input.len() {
            4
        } else {
            1
        }
    }
}

/// Code point of the character whose encoding starts at `i` (0 at or past the end).
pub open spec fn char_cp(input: Seq<u8>, i: int) -> u32 {
    if i < 0 || i >= input.len() {
        0
    } else {
        let b = input[i];
        if b < 0x80 {
            b as u32
        } else if 0xC0 <= b <= 0xDF && i + 1 < input.len() {
            codepoint_width_2(b, input[i + 1])
        } else if 0xE0 <= b <= 0xEF && i + 2 < input.len() {
            codepoint_width_3(b, input[i + 1], input[i + 2])
        } else if 0xF0 <= b <= 0xF7 && i + 3 < input.len() {
            codepoint_width_4(b, input[i + 1], input[i + 2], input[i + 3])
        } else {
            b as u32
        }
    }
}

/// Decode the character starting at byte `i`: (code point, byte width).
/// At the end of the input it yields (0, 0).
pub fn char_at(input: &[u8], i: usize) -> (r: (u32, usize))
    requires
        i <= input@.len(),
    ensures
        r.0 == char_cp(input@, i as int),
        r.1 == char_width(input@, i as int),
{
    if i >= input.len() {
        return (0, 0);
    }
    let b = input[i];
    if b < 0x80 {
        (b as u32, 1)
    } else if 0xC0 <= b && b <= 0xDF && i + 1 < input.len() {
        let b1 = input[i + 1];
        ((((b & 0x1F) as u32) << 6) | ((b1 & 0x3f) as u32), 2)
    } else if 0xE0 <= b && b <= 0xEF && input.len() - i > 2 {
        let b1 = input[i + 1];
        let b2 = input[i + 2];
        (
            (((b & 0x0F) as u32) << 12) | (((b1 & 0x3f) as u32) << 6) | ((b2 & 0x3f) as u32),
            3,
        )
    } else if 0xF0 <= b && b <= 0xF7 && input.len() - i > 3 {
        let b1 = input[i + 1];
        let b2 = input[i + 2];
        let b3 = input[i + 3];
        (
            (((b & 0x07) as u32) << 18) | (((b1 & 0x3f) as u32) << 12) | (((b2 & 0x3f) as u32)
                << 6) | ((b3 & 0x3f) as u32),
            4,
        )
    } else {
        (b as u32, 1)
    }
}

// ---------------------------------------------------------------------------
// Character classes of the pretokenizer grammars
// ---------------------------------------------------------------------------

/// The character classes the grammars are written in.
#[derive(Clone, Copy, PartialEq, Eq, Structural)]
pub enum CharClass {
    /// `\p{L}`
    Letter,
    /// `\p{N}`
    Number,
    /// `\s`
    White,
    /// `[^\s\p{L}\p{N}]`
    Other,
    /// `[\r\n]`
    NewLine,
    /// `[\r\n/]`
    NewLineOrSlash,
    /// `[\p{Lu}\p{Lt}\p{Lm}\p{Lo}\p{M}]`
    Upper,
    /// `[\p{Ll}\p{Lm}\p{Lo}\p{M}]`
    Lower,
}

pub open spec fn is_newline_cp(cp: u32) -> bool {
    cp == 0x0D || cp == 0x0A
}

pub open spec fn other_class(cp: u32) -> bool {
    !whitespace_class(cp) && !letter_class(cp) && !number_class(cp)
}

pub open spec fn class_has(k: CharClass, cp: u32) -> bool {
    match k {
        CharClass::Letter => letter_class(cp),
        CharClass::Number => number_class(cp),
        CharClass::White => whitespace_class(cp),
        CharClass::Other => other_class(cp),
        CharClass::NewLine => is_newline_cp(cp),
        CharClass::NewLineOrSlash => is_newline_cp(cp) || cp == 0x2F,
        CharClass::Upper => o200k_upper_class(cp),
        CharClass::Lower => o200k_lower_class(cp),
    }
}

/// End of the maximal run of `k`-characters starting at `i`.
pub open spec fn run_end(input: Seq<u8>, i: int, k: CharClass) -> int
    decreases input.len() - i,
{
    if 0 <= i < input.len() && class_has(k, char_cp(input, i)) {
        run_end(input, i + char_width(input, i), k)
    } else {
        i
    }
}

/// End of the run of at most `n` `k`-characters starting at `i`.
pub open spec fn run_end_upto(input: Seq<u8>, i: int, k: CharClass, n: nat) -> int
    decreases n,
{
    if n > 0 && 0 <= i < input.len() && class_has(k, char_cp(input, i)) {
        run_end_upto(input, i + char_width(input, i), k, (n - 1) as nat)
    } else {
        i
    }
}

#[inline]
pub fn is_cr_or_lf(c: u32) -> (r: bool)
    ensures
        r == is_newline_cp(c),
{
    c == 0x0D || c == 0x0A
}

/// `[^\s\p{L}\p{N}]` — neither whitespace, letter, nor number.
#[inline]
pub fn is_other(c: u32) -> (r: bool)
    ensures
        r == other_class(c),
{
    !whitespace_cp(c) && !letter_cp(c) && !number_cp(c)
}

// ---------------------------------------------------------------------------
// Stepping back one character
// ---------------------------------------------------------------------------

/// Walk back from `i` over continuation bytes (stopping at 0).
pub open spec fn back_to_lead(input: Seq<u8>, i: int) -> int
    decreases i,
{
    if i > 0 && is_continuation_byte(input[i]) {
        back_to_lead(input, i - 1)
    } else {
        i
    }
}

/// Start byte index of the character immediately before byte index `end`.
pub open spec fn prev_start(input: Seq<u8>, end: int) -> int {
    if end <= 0 {
        0
    } else {
        back_to_lead(input, end - 1)
    }
}

/// Start byte index of the char immediately before byte index `end`.
#[inline]
pub fn prev_char_start(input: &[u8], end: usize) -> (r: usize)
    requires
        end <= input@.len(),
    ensures
        r == prev_start(input@, end as int),
        end > 0 ==> r < end,
{
    if end == 0 {
        return 0;
    }
    let mut i = end - 1;
    while i > 0 && (input[i] & 0xC0) == 0x80
        invariant
            i < end <= input@.len(),
            back_to_lead(input@, i as int) == prev_start(input@, end as int),
        decreases i,
    {
        proof {
            let b = input@[i as int];
            assert((b & 0xC0) == 0x80 <==> 0x80 <= b <= 0xbf) by (bit_vector);
        }
        i -= 1;
    }
    proof {
        if i > 0 {
            let b = input@[i as int];
            assert((b & 0xC0) == 0x80 <==> 0x80 <= b <= 0xbf) by (bit_vector);
        }
    }
    i
}

// ---------------------------------------------------------------------------
// Grammar alternatives shared by cl100k and o200k
// ---------------------------------------------------------------------------

pub open spec fn ascii_lower(b: u8) -> u8 {
    if 0x41 <= b <= 0x5A {
        (b + 0x20) as u8
    } else {
        b
    }
}

/// `(?i:'s|'t|'re|'ve|'m|'ll|'d)` starting at `at` (which must hold the `'`):
/// the byte length of the match, apostrophe included.
pub open spec fn contraction_len(input: Seq<u8>, at: int) -> Option<int> {
    if !(0 <= at < input.len()) || input[at] != 0x27 {
        None
    } else if at + 1 < input.len() && (ascii_lower(input[at + 1]) == 0x73 || ascii_lower(
        input[at + 1],
    ) == 0x74 || ascii_lower(input[at + 1]) == 0x6D || ascii_lower(input[at + 1]) == 0x64) {
        Some(2)
    } else if at + 2 < input.len() && input[at + 1] == 0xC5 && input[at + 2] == 0xBF {
        // U+017F LATIN SMALL LETTER LONG S case-folds to `s`.
        Some(3)
    } else if at + 2 < input.len() && ((ascii_lower(input[at + 1]) == 0x72 && ascii_lower(
        input[at + 2],
    ) == 0x65) || (ascii_lower(input[at + 1]) == 0x76 && ascii_lower(input[at + 2]) == 0x65)
        || (ascii_lower(input[at + 1]) == 0x6C && ascii_lower(input[at + 2]) == 0x6C)) {
        Some(3)
    } else {
        None
    }
}

#[inline]
fn to_ascii_lower(b: u8) -> (r: u8)
    ensures
        r == ascii_lower(b),
{
    if 0x41 <= b && b <= 0x5A {
        b + 0x20
    } else {
        b
    }
}

/// (?i:'s|'t|'re|'ve|'m|'ll|'d) starting at `at` (which must be the `'`), with
/// Unicode case folding (long s folds to `s`).
/// Returns total byte length of the match including the apostrophe, or None.
pub fn match_contraction(input: &[u8], at: usize) -> (r: Option<usize>)
    ensures
        r matches Some(n) ==> contraction_len(input@, at as int) == Some(n as int) && at + n
            <= input@.len(),
        r is None ==> contraction_len(input@, at as int) is None,
{
    if at >= input.len() || input[at] != 0x27 {
        return None;
    }
    let n = input.len();
    if at + 1 < n {
        let g0 = to_ascii_lower(input[at + 1]);
        if g0 == 0x73 || g0 == 0x74 || g0 == 0x6D || g0 == 0x64 {
            return Some(2);
        }
        if at + 2 < n && input[at + 1] == 0xC5 && input[at + 2] == 0xBF {
            return Some(3);
        }
        if at + 2 < n {
            let g1 = to_ascii_lower(input[at + 2]);
            if (g0 == 0x72 && g1 == 0x65) || (g0 == 0x76 && g1 == 0x65) || (g0 == 0x6C && g1
                == 0x6C) {
                return Some(3);
            }
        }
    }
    None
}

/// Scan the maximal run of `k`-characters from `from`; returns its end.
pub fn scan_run(input: &[u8], from: usize, k: CharClass) -> (r: usize)
    requires
        from <= input@.len(),
    ensures
        r == run_end(input@, from as int, k),
        from <= r <= input@.len(),
{
    let mut i = from;
    loop
        invariant
            from <= i <= input@.len(),
            run_end(input@, i as int, k) == run_end(input@, from as int, k),
        decreases input@.len() - i,
    {
        if i >= input.len() {
            return i;
        }
        let (c, w) = char_at(input, i);
        if class_test(c, k) {
            i += w;
        } else {
            return i;
        }
    }
}

/// Executable membership test for a grammar class.
pub fn class_test(c: u32, k: CharClass) -> (r: bool)
    ensures
        r == class_has(k, c),
{
    match k {
        CharClass::Letter => letter_cp(c),
        CharClass::Number => number_cp(c),
        CharClass::White => whitespace_cp(c),
        CharClass::Other => is_other(c),
        CharClass::NewLine => is_cr_or_lf(c),
        CharClass::NewLineOrSlash => is_cr_or_lf(c) || c == 0x2F,
        CharClass::Upper => o200k_upper_cp(c),
        CharClass::Lower => o200k_lower_cp(c),
    }
}

/// Alt: `\p{N}{1,3}` starting at `start` (caller checked the first char is a
/// number). Returns the end index.
#[inline]
pub fn scan_number(input: &[u8], start: usize) -> (r: usize)
    requires
        start <= input@.len(),
    ensures
        r == run_end_upto(input@, start as int, CharClass::Number, 3),
        start <= r <= input@.len(),
{
    let mut k = start;
    let mut count: usize = 0;
    while k < input.len() && count < 3
        invariant
            start <= k <= input@.len(),
            count <= 3,
            run_end_upto(input@, k as int, CharClass::Number, (3 - count) as nat) == run_end_upto(
                input@,
                start as int,
                CharClass::Number,
                3,
            ),
        decreases 3 - count,
    {
        let (ck, wk) = char_at(input, k);
        if number_cp(ck) {
            k += wk;
            count += 1;
        } else {
            return k;
        }
    }
    k
}

/// Alt: ` ?[^\s\p{L}\p{N}]+` followed by `[\r\n]*` (cl100k) or `[\r\n/]*`
/// (o200k, `slash_in_tail`): the end of the match at `start`, if any.
pub open spec fn punct_end(input: Seq<u8>, start: int, slash_in_tail: bool) -> Option<int> {
    let c0 = char_cp(input, start);
    let nj = start + char_width(input, start);
    let j = if c0 == 0x20 && nj < input.len() && other_class(char_cp(input, nj)) {
        nj
    } else {
        start
    };
    if other_class(char_cp(input, j)) {
        let tail = if slash_in_tail {
            CharClass::NewLineOrSlash
        } else {
            CharClass::NewLine
        };
        Some(run_end(input, run_end(input, j, CharClass::Other), tail))
    } else {
        None
    }
}

/// Alt: ` ?[^\s\p{L}\p{N}]+(trailing)*` where `trailing` is `[\r\n]` for cl100k
/// or `[\r\n/]` for o200k. Returns Some(end) if matched, else None.
#[inline]
pub fn scan_punct(input: &[u8], start: usize, slash_in_tail: bool) -> (r: Option<usize>)
    requires
        start <= input@.len(),
    ensures
        r matches Some(e) ==> punct_end(input@, start as int, slash_in_tail) == Some(e as int),
        r is None ==> punct_end(input@, start as int, slash_in_tail) is None,
{
    let (c0, w0) = char_at(input, start);
    proof {
        lemma_char_width_bounds(input@, start as int);
    }
    let n = input.len();
    let mut j = start;
    let mut c = c0;
    if c == 0x20 {
        let nj = start + w0;
        if nj < n {
            let (c2, _) = char_at(input, nj);
            if is_other(c2) {
                j = nj;
                c = c2;
            }
        }
    }
    proof {
        lemma_char_width_bounds(input@, start as int);
    }
    if is_other(c) {
        let k = scan_run(input, j, CharClass::Other);
        let tail = if slash_in_tail {
            CharClass::NewLineOrSlash
        } else {
            CharClass::NewLine
        };
        Some(scan_run(input, k, tail))
    } else {
        None
    }
}

/// `\s*[\r\n]+` scanned from `t`: a whitespace prefix whose end is the end of
/// its last run of CR/LF characters (`last` is that end so far).
pub open spec fn ws_newline_end(input: Seq<u8>, t: int, last: Option<int>) -> Option<int>
    decreases input.len() - t,
{
    if 0 <= t < input.len() && whitespace_class(char_cp(input, t)) {
        let t2 = t + char_width(input, t);
        if is_newline_cp(char_cp(input, t)) {
            let t3 = run_end(input, t2, CharClass::NewLine);
            proof {
                lemma_char_width_bounds(input, t);
                lemma_run_end_bounds(input, t2, CharClass::NewLine);
            }
            ws_newline_end(input, t3, Some(t3))
        } else {
            proof {
                lemma_char_width_bounds(input, t);
            }
            ws_newline_end(input, t2, last)
        }
    } else {
        last
    }
}

pub open spec fn opt_int(o: Option<usize>) -> Option<int> {
    match o {
        Some(e) => Some(e as int),
        None => None,
    }
}

/// Some character from `t` up to `w`, walking one character at a time, is a
/// CR or LF.
pub open spec fn has_newline(input: Seq<u8>, t: int, w: int) -> bool
    decreases input.len() - t,
{
    if t < 0 || t >= w || t >= input.len() {
        false
    } else {
        proof {
            lemma_char_width_bounds(input, t);
        }
        is_newline_cp(char_cp(input, t)) || has_newline(input, t + char_width(input, t), w)
    }
}

/// A run of CR/LF characters from `i`, right after the CR/LF character at
/// `p0`, ends right after a CR/LF character and inside the same whitespace run.
proof fn lemma_newline_run(input: Seq<u8>, p0: int, i: int)
    requires
        0 <= p0 < input.len(),
        is_newline_cp(char_cp(input, p0)),
        i == p0 + char_width(input, p0),
    ensures
        ({
            let e = run_end(input, i, CharClass::NewLine);
            &&& i <= e <= input.len()
            &&& exists|p: int|
                p0 <= p < e && p + char_width(input, p) == e && #[trigger] is_newline_cp(
                    char_cp(input, p),
                )
            &&& run_end(input, i, CharClass::White) == run_end(input, e, CharClass::White)
            &&& !has_newline(input, i, e) ==> i == e
        }),
    decreases input.len() - i,
{
    lemma_char_width_bounds(input, p0);
    let e = run_end(input, i, CharClass::NewLine);
    lemma_run_end_bounds(input, i, CharClass::NewLine);
    if 0 <= i < input.len() && is_newline_cp(char_cp(input, i)) {
        assert(whitespace_class(0x0A) && whitespace_class(0x0D));
        assert(whitespace_class(char_cp(input, i)));
        lemma_newline_run(input, i, i + char_width(input, i));
        lemma_char_width_bounds(input, i);
    } else {
        assert(p0 + char_width(input, p0) == e);
    }
}

/// The walk of `ws_newline_end` from `t` inside the whitespace run that ends
/// at `w`: with a CR/LF ahead, it ends right after the last one; else it
/// keeps `last`.
proof fn lemma_ws_newline_walk(input: Seq<u8>, t: int, last: Option<int>, w: int)
    requires
        0 <= t <= w <= input.len(),
        run_end(input, t, CharClass::White) == w,
    ensures
        !has_newline(input, t, w) ==> ws_newline_end(input, t, last) == last,
        has_newline(input, t, w) ==> (ws_newline_end(input, t, last) matches Some(e) && t < e <= w
            && !has_newline(input, e, w) && run_end(input, e, CharClass::White) == w && exists|p: int|
            t <= p < e && p + char_width(input, p) == e && #[trigger] is_newline_cp(
                char_cp(input, p),
            )),
    decreases input.len() - t,
{
    lemma_char_width_bounds(input, t);
    if 0 <= t < input.len() && whitespace_class(char_cp(input, t)) {
        let t2 = t + char_width(input, t);
        lemma_run_end_bounds(input, t2, CharClass::White);
        if is_newline_cp(char_cp(input, t)) {
            let t3 = run_end(input, t2, CharClass::NewLine);
            lemma_newline_run(input, t, t2);
            lemma_run_end_bounds(input, t3, CharClass::White);
            lemma_ws_newline_walk(input, t3, Some(t3), w);
            assert(has_newline(input, t, w));
        } else {
            lemma_ws_newline_walk(input, t2, last, w);
        }
    } else {
        assert(t == w);
    }
}

/// Over one-byte characters, a run of `k` characters from `i` ends at the
/// first byte outside `k`.
pub proof fn lemma_ascii_run_end(input: Seq<u8>, i: int, e: int, k: CharClass)
    requires
        0 <= i <= e <= input.len(),
        forall|x: int| i <= x < e ==> input[x] < 0x80 && class_has(k, #[trigger] input[x] as u32),
        e == input.len() || (input[e] < 0x80 && !class_has(k, input[e] as u32)),
    ensures
        run_end(input, i, k) == e,
    decreases e - i,
{
    if i < e {
        assert(input[i] < 0x80 && class_has(k, input[i] as u32));
        lemma_ascii_run_end(input, i + 1, e, k);
    }
}

/// Over one-byte characters, a run of at most `n` `k`-characters from `i`
/// ends after `n` of them or at the first byte outside `k`.
pub proof fn lemma_ascii_run_end_upto(input: Seq<u8>, i: int, e: int, k: CharClass, n: nat)
    requires
        0 <= i <= e <= input.len(),
        e - i <= n,
        forall|x: int| i <= x < e ==> input[x] < 0x80 && class_has(k, #[trigger] input[x] as u32),
        e - i == n || e == input.len() || (input[e] < 0x80 && !class_has(k, input[e] as u32)),
    ensures
        run_end_upto(input, i, k, n) == e,
    decreases e - i,
{
    if i < e {
        assert(input[i] < 0x80 && class_has(k, input[i] as u32));
        lemma_ascii_run_end_upto(input, i + 1, e, k, (n - 1) as nat);
    }
}

/// Scanning spaces for a CR/LF run finds none, and keeps what it had.
proof fn lemma_spaces_no_newline(input: Seq<u8>, t: int, e: int, last: Option<int>)
    requires
        0 <= t <= e <= input.len(),
        forall|x: int| t <= x < e ==> #[trigger] input[x] == 0x20,
        e == input.len() || (input[e] < 0x80 && !whitespace_class(input[e] as u32)),
    ensures
        ws_newline_end(input, t, last) == last,
    decreases e - t,
{
    if t < e {
        assert(input[t] == 0x20);
        lemma_spaces_no_newline(input, t + 1, e, last);
    }
}

/// Of a run of two or more spaces followed by a character that is not white
/// space, the whitespace piece stops one space short: the last space goes
/// with the text that follows (`\s+(?!\S)`).
pub proof fn lemma_spaces_before_text(input: Seq<u8>, start: int, e: int)
    requires
        0 <= start,
        start + 2 <= e < input.len(),
        forall|x: int| start <= x < e ==> #[trigger] input[x] == 0x20,
        input[e] < 0x80,
        !whitespace_class(input[e] as u32),
    ensures
        whitespace_end(input, start) == e - 1,
{
    lemma_spaces_no_newline(input, start, e, None);
    assert forall|x: int| start <= x < e implies input[x] < 0x80 && class_has(
        CharClass::White,
        #[trigger] input[x] as u32,
    ) by {
        assert(input[x] == 0x20);
    }
    lemma_ascii_run_end(input, start, e, CharClass::White);
    assert(input[e - 1] == 0x20);
    assert(!is_continuation_byte(input[e - 1]));
    assert(prev_start(input, e) == e - 1);
}

/// A run of spaces that reaches the end of the input is one whitespace piece.
pub proof fn lemma_spaces_at_end(input: Seq<u8>, start: int)
    requires
        0 <= start < input.len(),
        forall|x: int| start <= x < input.len() ==> #[trigger] input[x] == 0x20,
    ensures
        whitespace_end(input, start) == input.len(),
{
    lemma_spaces_no_newline(input, start, input.len() as int, None);
    assert forall|x: int| start <= x < input.len() implies input[x] < 0x80 && class_has(
        CharClass::White,
        #[trigger] input[x] as u32,
    ) by {
        assert(input[x] == 0x20);
    }
    lemma_ascii_run_end(input, start, input.len() as int, CharClass::White);
}

/// A whitespace piece whose run holds a CR or LF ends right after the last
/// CR/LF character of the run (the `\s*[\r\n]+` alternative comes before
/// `\s+(?!\S)`): no CR or LF is left in the rest of the run.
pub proof fn lemma_whitespace_newline_end(input: Seq<u8>, start: int)
    requires
        0 <= start < input.len(),
        has_newline(input, start, run_end(input, start, CharClass::White)),
    ensures
        ({
            let w = run_end(input, start, CharClass::White);
            let e = whitespace_end(input, start);
            &&& start < e <= w
            &&& !has_newline(input, e, w)
            &&& exists|p: int|
                start <= p < e && p + char_width(input, p) == e && #[trigger] is_newline_cp(
                    char_cp(input, p),
                )
        }),
{
    let w = run_end(input, start, CharClass::White);
    lemma_run_end_bounds(input, start, CharClass::White);
    lemma_ws_newline_walk(input, start, None, w);
}

/// Alts `\s*[\r\n]+` | `\s+(?!\S)` | `\s+` at `start`: the end of the match.
pub open spec fn whitespace_end(input: Seq<u8>, start: int) -> int {
    match ws_newline_end(input, start, None) {
        Some(e) => e,
        None => {
            let end = run_end(input, start, CharClass::White);
            if end < input.len() && prev_start(input, end) > start {
                prev_start(input, end)
            } else {
                end
            }
        },
    }
}

/// Alts: `\s*[\r\n]+` | `\s+(?!\S)` | `\s+`, starting at `start` (caller checked
/// the first char is whitespace). Returns the end index.
#[inline]
pub fn scan_whitespace(input: &[u8], start: usize) -> (r: usize)
    requires
        start <= input@.len(),
    ensures
        r == whitespace_end(input@, start as int),
{
    // \s*[\r\n]+ — a whitespace prefix that ends at the last CR/LF.
    let mut last_nl_end: Option<usize> = None;
    let mut t = start;
    loop
        invariant
            start <= t <= input@.len(),
            ws_newline_end(input@, t as int, opt_int(last_nl_end)) == ws_newline_end(
                input@,
                start as int,
                None,
            ),
        ensures
            ws_newline_end(input@, start as int, None) == opt_int(last_nl_end),
        decreases input@.len() - t,
    {
        if t >= input.len() {
            break;
        }
        let (ct, wt) = char_at(input, t);
        if !whitespace_cp(ct) {
            break;
        }
        proof {
            lemma_char_width_bounds(input@, t as int);
        }
        t += wt;
        if is_cr_or_lf(ct) {
            t = scan_run(input, t, CharClass::NewLine);
            last_nl_end = Some(t);
        }
    }
    if let Some(end) = last_nl_end {
        return end;
    }
    // \s+(?!\S) / \s+: take the maximal whitespace run; if a non-space follows,
    // leave its LAST whitespace char to join the following word.
    let end = scan_run(input, start, CharClass::White);
    if end < input.len() {
        let last_start = prev_char_start(input, end);
        if last_start > start {
            return last_start;
        }
    }
    end
}

// ---------------------------------------------------------------------------
// Bounds and UTF-8 boundary lemmas
// ---------------------------------------------------------------------------

pub proof fn lemma_char_width_bounds(input: Seq<u8>, i: int)
    ensures
        0 <= i < input.len() ==> 1 <= char_width(input, i) && i + char_width(input, i)
            <= input.len(),
        !(0 <= i < input.len()) ==> char_width(input, i) == 0,
{
}

pub proof fn lemma_run_end_bounds(input: Seq<u8>, i: int, k: CharClass)
    requires
        0 <= i <= input.len(),
    ensures
        i <= run_end(input, i, k) <= input.len(),
        i < input.len() && class_has(k, char_cp(input, i)) ==> i < run_end(input, i, k),
    decreases input.len() - i,
{
    if 0 <= i < input.len() && class_has(k, char_cp(input, i)) {
        lemma_char_width_bounds(input, i);
        lemma_run_end_bounds(input, i + char_width(input, i), k);
    }
}

pub proof fn lemma_run_end_upto_bounds(input: Seq<u8>, i: int, k: CharClass, n: nat)
    requires
        0 <= i <= input.len(),
    ensures
        i <= run_end_upto(input, i, k, n) <= input.len(),
        n > 0 && i < input.len() && class_has(k, char_cp(input, i)) ==> i < run_end_upto(
            input,
            i,
            k,
            n,
        ),
    decreases n,
{
    if n > 0 && 0 <= i < input.len() && class_has(k, char_cp(input, i)) {
        lemma_char_width_bounds(input, i);
        lemma_run_end_upto_bounds(input, i + char_width(input, i), k, (n - 1) as nat);
    }
}

pub proof fn lemma_ws_newline_end_bounds(input: Seq<u8>, t: int, last: Option<int>)
    requires
        0 <= t <= input.len(),
        last matches Some(e) ==> e <= input.len(),
    ensures
        ws_newline_end(input, t, last) matches Some(e) ==> e <= input.len() && (t < e || Some(
            e,
        ) == last),
    decreases input.len() - t,
{
    if 0 <= t < input.len() && whitespace_class(char_cp(input, t)) {
        let t2 = t + char_width(input, t);
        lemma_char_width_bounds(input, t);
        if is_newline_cp(char_cp(input, t)) {
            let t3 = run_end(input, t2, CharClass::NewLine);
            lemma_run_end_bounds(input, t2, CharClass::NewLine);
            lemma_ws_newline_end_bounds(input, t3, Some(t3));
        } else {
            lemma_ws_newline_end_bounds(input, t2, last);
        }
    }
}

/// On valid UTF-8, decoding from a character boundary lands on the next one.
pub proof fn lemma_width_boundary(input: Seq<u8>, i: int)
    requires
        valid_utf8(input),
        is_char_boundary(input, i),
        0 <= i < input.len(),
    ensures
        is_char_boundary(input, i + char_width(input, i)),
    decreases input.len(),
{
    let l = length_of_first_scalar(input);
    let p = pop_first_scalar(input);
    assert(valid_first_scalar(input) && valid_utf8(p));
    assert(p.len() == input.len() - l);
    if i == 0 {
        assert(char_width(input, 0) == l);
        assert(is_char_boundary(p, 0));
        assert(is_char_boundary(input, l));
    } else {
        assert(is_char_boundary(p, i - l));
        assert(0 <= i - l < p.len());
        lemma_width_boundary(p, i - l);
        assert forall|k: int| 0 <= k < p.len() implies p[k] == input[k + l] by {}
        assert(char_width(input, i) == char_width(p, i - l));
        assert(is_char_boundary(input, i + char_width(input, i)));
    }
}

/// On valid UTF-8, a maximal class run from a boundary ends on a boundary.
pub proof fn lemma_run_end_boundary(input: Seq<u8>, i: int, k: CharClass)
    requires
        valid_utf8(input),
        is_char_boundary(input, i),
        0 <= i <= input.len(),
    ensures
        is_char_boundary(input, run_end(input, i, k)),
    decreases input.len() - i,
{
    if 0 <= i < input.len() && class_has(k, char_cp(input, i)) {
        lemma_char_width_bounds(input, i);
        lemma_width_boundary(input, i);
        lemma_run_end_boundary(input, i + char_width(input, i), k);
    }
}

pub proof fn lemma_run_end_upto_boundary(input: Seq<u8>, i: int, k: CharClass, n: nat)
    requires
        valid_utf8(input),
        is_char_boundary(input, i),
        0 <= i <= input.len(),
    ensures
        is_char_boundary(input, run_end_upto(input, i, k, n)),
    decreases n,
{
    if n > 0 && 0 <= i < input.len() && class_has(k, char_cp(input, i)) {
        lemma_char_width_bounds(input, i);
        lemma_width_boundary(input, i);
        lemma_run_end_upto_boundary(input, i + char_width(input, i), k, (n - 1) as nat);
    }
}

pub proof fn lemma_back_to_lead_le(input: Seq<u8>, i: int)
    ensures
        back_to_lead(input, i) <= i,
        i >= 0 ==> back_to_lead(input, i) >= 0,
    decreases i,
{
    if i > 0 && is_continuation_byte(input[i]) {
        lemma_back_to_lead_le(input, i - 1);
    }
}

proof fn lemma_back_to_lead(input: Seq<u8>, q: int, i: int)
    requires
        valid_utf8(input),
        is_char_boundary(input, q),
        0 <= q <= i < input.len(),
    ensures
        q <= back_to_lead(input, i) <= i,
        is_char_boundary(input, back_to_lead(input, i)),
    decreases i,
{
    if q < input.len() {
        is_char_boundary_iff_not_is_continuation_byte(input, q);
    }
    if i > 0 && is_continuation_byte(input[i]) {
        lemma_back_to_lead(input, q, i - 1);
    } else {
        if i > 0 {
            is_char_boundary_iff_not_is_continuation_byte(input, i);
        }
    }
}

/// On valid UTF-8, stepping back one character from above a boundary `q` stays
/// at or above `q` and lands on a boundary.
pub proof fn lemma_prev_start_boundary(input: Seq<u8>, q: int, end: int)
    requires
        valid_utf8(input),
        is_char_boundary(input, q),
        0 <= q < end <= input.len(),
    ensures
        q <= prev_start(input, end) < end,
        is_char_boundary(input, prev_start(input, end)),
{
    lemma_back_to_lead(input, q, end - 1);
}

/// On valid UTF-8, the whitespace alternatives from a boundary end on a boundary.
pub proof fn lemma_whitespace_end_boundary(input: Seq<u8>, start: int)
    requires
        valid_utf8(input),
        is_char_boundary(input, start),
        0 <= start <= input.len(),
    ensures
        is_char_boundary(input, whitespace_end(input, start)),
{
    lemma_ws_newline_end_boundary(input, start, None);
    match ws_newline_end(input, start, None) {
        Some(e) => {},
        None => {
            let end = run_end(input, start, CharClass::White);
            lemma_run_end_bounds(input, start, CharClass::White);
            lemma_run_end_boundary(input, start, CharClass::White);
            if end < input.len() && prev_start(input, end) > start {
                if end > 0 {
                    lemma_back_to_lead_le(input, end - 1);
                }
                lemma_prev_start_boundary(input, start, end);
            }
        },
    }
}

proof fn lemma_ws_newline_end_boundary(input: Seq<u8>, t: int, last: Option<int>)
    requires
        valid_utf8(input),
        is_char_boundary(input, t),
        0 <= t <= input.len(),
        last matches Some(e) ==> is_char_boundary(input, e),
    ensures
        ws_newline_end(input, t, last) matches Some(e) ==> is_char_boundary(input, e),
    decreases input.len() - t,
{
    if 0 <= t < input.len() && whitespace_class(char_cp(input, t)) {
        let t2 = t + char_width(input, t);
        lemma_char_width_bounds(input, t);
        lemma_width_boundary(input, t);
        if is_newline_cp(char_cp(input, t)) {
            let t3 = run_end(input, t2, CharClass::NewLine);
            lemma_run_end_bounds(input, t2, CharClass::NewLine);
            lemma_run_end_boundary(input, t2, CharClass::NewLine);
            lemma_ws_newline_end_boundary(input, t3, Some(t3));
        } else {
            lemma_ws_newline_end_boundary(input, t2, last);
        }
    }
}

/// On valid UTF-8, the punctuation alternative from a boundary ends on a boundary.
pub proof fn lemma_punct_end_boundary(input: Seq<u8>, start: int, slash_in_tail: bool)
    requires
        valid_utf8(input),
        is_char_boundary(input, start),
        0 <= start <= input.len(),
    ensures
        punct_end(input, start, slash_in_tail) matches Some(e) ==> is_char_boundary(input, e),
{
    let c0 = char_cp(input, start);
    let nj = start + char_width(input, start);
    lemma_char_width_bounds(input, start);
    if start < input.len() {
        lemma_width_boundary(input, start);
    }
    let j = if c0 == 0x20 && nj < input.len() && other_class(char_cp(input, nj)) {
        nj
    } else {
        start
    };
    let tail = if slash_in_tail {
        CharClass::NewLineOrSlash
    } else {
        CharClass::NewLine
    };
    lemma_run_end_bounds(input, j, CharClass::Other);
    lemma_run_end_boundary(input, j, CharClass::Other);
    lemma_run_end_boundary(input, run_end(input, j, CharClass::Other), tail);
}

/// The whitespace alternatives make progress from a whitespace character.
pub proof fn lemma_whitespace_end_bounds(input: Seq<u8>, start: int)
    requires
        0 <= start < input.len(),
        whitespace_class(char_cp(input, start)),
    ensures
        start < whitespace_end(input, start) <= input.len(),
{
    lemma_ws_newline_end_bounds(input, start, None);
    lemma_run_end_bounds(input, start, CharClass::White);
    let end = run_end(input, start, CharClass::White);
    if end > 0 {
        lemma_back_to_lead_le(input, end - 1);
    }
}

/// On valid UTF-8, a contraction from a boundary ends on a boundary.
pub proof fn lemma_contraction_boundary(input: Seq<u8>, start: int)
    requires
        valid_utf8(input),
        is_char_boundary(input, start),
        0 <= start < input.len(),
        contraction_len(input, start) is Some,
    ensures
        is_char_boundary(input, start + contraction_len(input, start)->Some_0),
        start + contraction_len(input, start)->Some_0 <= input.len(),
{
    lemma_width_boundary(input, start);
    assert(char_width(input, start) == 1);
    let b1 = input[start + 1];
    if start + 2 < input.len() && b1 == 0xC5 && input[start + 2] == 0xBF && !(ascii_lower(b1)
        == 0x73 || ascii_lower(b1) == 0x74 || ascii_lower(b1) == 0x6D || ascii_lower(b1) == 0x64) {
        assert(char_width(input, start + 1) == 2);
        lemma_width_boundary(input, start + 1);
    } else {
        assert(b1 < 0x80) by {
            assert(ascii_lower(b1) < 0x80 ==> b1 < 0x80);
        }
        lemma_width_boundary(input, start + 1);
        if contraction_len(input, start) == Some(3int) {
            let b2 = input[start + 2];
            assert(b2 < 0x80) by {
                assert(ascii_lower(b2) < 0x80 ==> b2 < 0x80);
            }
            lemma_width_boundary(input, start + 2);
        }
    }
}

} // verus!
