//! Packing a tiktoken-format vocabulary (`<base64 token> <rank>` per line)
//! and its special-token list (`<name> <id>` per line) into a blob.
use crate::blob::{VocabBlob, GRAMMAR_UNKNOWN};
use crate::rank::{copy_bytes, pairs_view};
use base64::Engine as _;
use vstd::prelude::*;
use vstd::string::StringSliceAdditionalSpecFns;

verus! {

/// Why a vocabulary text could not be packed.
#[derive(Debug, Clone, Copy, PartialEq, Eq)]
pub enum ImportError {
    /// A rank line without a space.
    MalformedRankLine,
    /// A rank line whose token is not base64.
    BadBase64,
    /// A rank line whose rank is not a `u32`.
    BadRank,
    /// A special line without a space.
    MalformedSpecialLine,
    /// A special line whose id is not a `u32`.
    BadSpecialId,
}

// ---------------------------------------------------------------------------
// Lines
// ---------------------------------------------------------------------------

/// The first `\n` at or after `pos`, or the end.
pub open spec fn line_end(text: Seq<u8>, pos: int) -> int
    decreases text.len() - pos,
{
    if pos >= text.len() || text[pos] == 0x0A {
        pos
    } else {
        line_end(text, pos + 1)
    }
}

/// The line that starts at `pos`: up to the next `\n`, without it, and
/// without a `\r` just before it.
pub open spec fn line_at(text: Seq<u8>, pos: int) -> Seq<u8> {
    let e = line_end(text, pos);
    if e < text.len() && e > pos && text[e - 1] == 0x0D {
        text.subrange(pos, e - 1)
    } else {
        text.subrange(pos, e)
    }
}

/// The lines of `text` from `pos` on, as `str::lines` splits them.
#[verifier::opaque]
pub open spec fn lines_from(text: Seq<u8>, pos: int) -> Seq<Seq<u8>>
    decreases text.len() - pos,
{
    if pos < 0 || pos >= text.len() {
        Seq::empty()
    } else {
        let e = line_end(text, pos);
        if e < pos || e >= text.len() {
            seq![line_at(text, pos)]
        } else {
            seq![line_at(text, pos)] + lines_from(text, e + 1)
        }
    }
}

proof fn lemma_line_end(text: Seq<u8>, pos: int)
    requires
        0 <= pos <= text.len(),
    ensures
        pos <= line_end(text, pos) <= text.len(),
        line_end(text, pos) < text.len() ==> text[line_end(text, pos)] == 0x0A,
        forall|i: int| pos <= i < line_end(text, pos) ==> text[i] != 0x0A,
    decreases text.len() - pos,
{
    if pos < text.len() && text[pos] != 0x0A {
        lemma_line_end(text, pos + 1);
    }
}

/// Where the line starting at `pos` ends (the next `\n`, or the end).
fn find_line_end(text: &[u8], pos: usize) -> (r: usize)
    requires
        pos <= text@.len(),
    ensures
        r == line_end(text@, pos as int),
{
    let mut e = pos;
    while e < text.len() && text[e] != 0x0A
        invariant
            pos <= e <= text@.len(),
            line_end(text@, pos as int) == line_end(text@, e as int),
        decreases text@.len() - e,
    {
        e += 1;
    }
    e
}

// ---------------------------------------------------------------------------
// Numbers
// ---------------------------------------------------------------------------

/// The value of a string of ASCII digits.
pub open spec fn digits_value(s: Seq<u8>) -> nat
    decreases s.len(),
{
    if s.len() == 0 {
        0
    } else {
        digits_value(s.drop_last()) * 10 + (s.last() - 0x30) as nat
    }
}

pub open spec fn all_digits(s: Seq<u8>) -> bool {
    forall|i: int| 0 <= i < s.len() ==> 0x30 <= #[trigger] s[i] <= 0x39
}

/// What `str::parse::<u32>` gives: an optional `+`, then at least one ASCII
/// digit and nothing else, with a value that fits.
pub open spec fn parse_u32_spec(s: Seq<u8>) -> Option<u32> {
    let d = if s.len() > 0 && s[0] == 0x2B {
        s.drop_first()
    } else {
        s
    };
    if d.len() > 0 && all_digits(d) && digits_value(d) <= u32::MAX {
        Some(digits_value(d) as u32)
    } else {
        None
    }
}

proof fn lemma_digits_value_mono(s: Seq<u8>, i: int)
    requires
        0 <= i <= s.len(),
        all_digits(s),
    ensures
        digits_value(s.take(i)) <= digits_value(s),
    decreases s.len() - i,
{
    if i < s.len() {
        lemma_digits_value_mono(s, i + 1);
        assert(s.take(i + 1).drop_last() =~= s.take(i));
        let v = digits_value(s.take(i));
        assert(v <= v * 10) by (nonlinear_arith);
        assert(0x30 <= s.take(i + 1).last() <= 0x39) by {
            assert(s.take(i + 1).last() == s[i]);
        }
    } else {
        assert(s.take(i) =~= s);
    }
}

/// Parse a decimal `u32` the way `str::parse::<u32>` does.
pub fn parse_u32(s: &[u8]) -> (r: Option<u32>)
    ensures
        r == parse_u32_spec(s@),
{
    let start: usize = if s.len() > 0 && s[0] == 0x2B {
        1
    } else {
        0
    };
    let ghost d = if s@.len() > 0 && s@[0] == 0x2B {
        s@.drop_first()
    } else {
        s@
    };
    proof {
        assert(d =~= s@.skip(start as int));
    }
    if start >= s.len() {
        proof {
            assert(d.len() == 0);
        }
        return None;
    }
    let mut v: u64 = 0;
    let mut i: usize = start;
    proof {
        assert(d.take(0) =~= Seq::<u8>::empty());
    }
    while i < s.len()
        invariant
            start <= i <= s@.len(),
            d == s@.skip(start as int),
            d == (if s@.len() > 0 && s@[0] == 0x2B {
                s@.drop_first()
            } else {
                s@
            }),
            all_digits(d.take(i - start)),
            v == digits_value(d.take(i - start)),
            v <= u32::MAX,
        decreases s@.len() - i,
    {
        let c = s[i];
        proof {
            assert(d[i - start] == c);
        }
        if c < 0x30 || c > 0x39 {
            proof {
                assert(!all_digits(d));
                assert(parse_u32_spec(s@) is None);
            }
            return None;
        }
        let next = v * 10 + (c - 0x30) as u64;
        proof {
            assert(d.take(i - start + 1).drop_last() =~= d.take(i - start));
            assert(d.take(i - start + 1).last() == c);
            assert(all_digits(d.take(i - start + 1)));
        }
        if next > 0xFFFF_FFFF {
            proof {
                let k = i - start + 1;
                if all_digits(d) {
                    lemma_digits_value_mono(d, k);
                }
                assert(parse_u32_spec(s@) is None);
            }
            return None;
        }
        v = next;
        i += 1;
    }
    proof {
        assert(d.take(d.len() as int) =~= d);
    }
    Some(v as u32)
}

// ---------------------------------------------------------------------------
// Splitting a line
// ---------------------------------------------------------------------------

/// The position of the first space, if any.
pub open spec fn first_space(s: Seq<u8>) -> Option<int> {
    if exists|i: int| 0 <= i < s.len() && s[i] == 0x20 {
        Some(choose|i: int| 0 <= i < s.len() && s[i] == 0x20 && forall|j: int| 0 <= j < i ==> s[j] != 0x20)
    } else {
        None
    }
}

/// The position of the last space, if any.
pub open spec fn last_space(s: Seq<u8>) -> Option<int> {
    if exists|i: int| 0 <= i < s.len() && s[i] == 0x20 {
        Some(choose|i: int| 0 <= i < s.len() && s[i] == 0x20 && forall|j: int| i < j < s.len() ==> s[j] != 0x20)
    } else {
        None
    }
}

fn find_first_space(s: &[u8]) -> (r: Option<usize>)
    ensures
        r matches Some(i) ==> first_space(s@) == Some(i as int) && i < s@.len(),
        r is None ==> first_space(s@) is None,
{
    let mut i: usize = 0;
    while i < s.len()
        invariant
            i <= s@.len(),
            forall|j: int| 0 <= j < i ==> s@[j] != 0x20,
        decreases s@.len() - i,
    {
        if s[i] == 0x20 {
            proof {
                let c = choose|k: int| 0 <= k < s@.len() && s@[k] == 0x20 && forall|j: int| 0 <= j < k ==> s@[j] != 0x20;
                assert(c == i) by {
                    if c < i {
                    } else if c > i {
                        assert(s@[i as int] != 0x20);
                    }
                }
            }
            return Some(i);
        }
        i += 1;
    }
    None
}

fn find_last_space(s: &[u8]) -> (r: Option<usize>)
    ensures
        r matches Some(i) ==> last_space(s@) == Some(i as int) && i < s@.len(),
        r is None ==> last_space(s@) is None,
{
    let mut i: usize = s.len();
    while i > 0
        invariant
            i <= s@.len(),
            forall|j: int| i <= j < s@.len() ==> s@[j] != 0x20,
        decreases i,
    {
        i -= 1;
        if s[i] == 0x20 {
            proof {
                let c = choose|k: int| 0 <= k < s@.len() && s@[k] == 0x20 && forall|j: int| k < j < s@.len() ==> s@[j] != 0x20;
                assert(c == i) by {
                    if c > i {
                    } else if c < i {
                        assert(s@[i as int] != 0x20);
                    }
                }
            }
            return Some(i);
        }
    }
    None
}

// ---------------------------------------------------------------------------
// Rank lines
// ---------------------------------------------------------------------------

/// What base64's standard engine decodes from some bytes.
pub uninterp spec fn b64_standard(input: Seq<u8>) -> Option<Seq<u8>>;

/// `base64::engine::general_purpose::STANDARD.decode`: the decoded bytes, or
/// `None` where the input is not valid padded standard base64.
#[verifier::external_body]
fn b64_decode(input: &[u8]) -> (r: Option<Vec<u8>>)
    ensures
        r matches Some(v) ==> b64_standard(input@) == Some(v@),
        r is None ==> b64_standard(input@) is None,
{
    base64::engine::general_purpose::STANDARD.decode(input).ok()
}

/// The entry of a rank line, given its decoded token and its rank text.
pub open spec fn rank_entry_spec(decoded: Option<Seq<u8>>, rank: Seq<u8>) -> Result<
    (Seq<u8>, u32),
    ImportError,
> {
    match decoded {
        None => Err(ImportError::BadBase64),
        Some(b) => match parse_u32_spec(rank) {
            None => Err(ImportError::BadRank),
            Some(id) => Ok((b, id)),
        },
    }
}

/// Finish a rank line from its decoded token and its rank text.
pub fn rank_entry(decoded: Option<Vec<u8>>, rank: &[u8]) -> (r: Result<(Vec<u8>, u32), ImportError>)
    ensures
        match rank_entry_spec(
            match decoded {
                Some(v) => Some(v@),
                None => None,
            },
            rank@,
        ) {
            Ok((b, id)) => r matches Ok(e) && e.0@ == b && e.1 == id,
            Err(e) => r == Err::<(Vec<u8>, u32), ImportError>(e),
        },
{
    match decoded {
        None => Err(ImportError::BadBase64),
        Some(b) => match parse_u32(rank) {
            None => Err(ImportError::BadRank),
            Some(id) => Ok((b, id)),
        },
    }
}

/// The entry of one rank line `<base64 token> <rank>`.
pub open spec fn rank_line_spec(line: Seq<u8>) -> Result<(Seq<u8>, u32), ImportError> {
    match first_space(line) {
        None => Err(ImportError::MalformedRankLine),
        Some(i) => rank_entry_spec(
            b64_standard(line.take(i)),
            line.subrange(i + 1, line.len() as int),
        ),
    }
}

pub fn parse_rank_line(line: &[u8]) -> (r: Result<(Vec<u8>, u32), ImportError>)
    ensures
        match rank_line_spec(line@) {
            Ok((b, id)) => r matches Ok(e) && e.0@ == b && e.1 == id,
            Err(e) => r == Err::<(Vec<u8>, u32), ImportError>(e),
        },
{
    let n = line.len();
    match find_first_space(line) {
        None => Err(ImportError::MalformedRankLine),
        Some(i) => {
            let tok = &line[0..i];
            let rank = &line[i + 1..n];
            proof {
                assert(tok@ =~= line@.take(i as int));
            }
            let decoded = b64_decode(tok);
            rank_entry(decoded, rank)
        },
    }
}

/// The entry of one special line `<name> <id>` (the name may hold spaces).
pub open spec fn special_line_spec(line: Seq<u8>) -> Result<(Seq<u8>, u32), ImportError> {
    match last_space(line) {
        None => Err(ImportError::MalformedSpecialLine),
        Some(i) => match parse_u32_spec(line.subrange(i + 1, line.len() as int)) {
            None => Err(ImportError::BadSpecialId),
            Some(id) => Ok((line.take(i), id)),
        },
    }
}

pub fn parse_special_line(line: &[u8]) -> (r: Result<(Vec<u8>, u32), ImportError>)
    ensures
        match special_line_spec(line@) {
            Ok((b, id)) => r matches Ok(e) && e.0@ == b && e.1 == id,
            Err(e) => r == Err::<(Vec<u8>, u32), ImportError>(e),
        },
{
    let n = line.len();
    match find_last_space(line) {
        None => Err(ImportError::MalformedSpecialLine),
        Some(i) => match parse_u32(&line[i + 1..n]) {
            None => Err(ImportError::BadSpecialId),
            Some(id) => {
                let name = copy_bytes(&line[0..i]);
                proof {
                    assert(name@ =~= line@.take(i as int));
                }
                Ok((name, id))
            },
        },
    }
}

/// Decimal digits read back as their value, with or without a leading `+`.
pub proof fn lemma_parse_u32_digits(digits: Seq<u8>)
    requires
        digits.len() > 0,
        all_digits(digits),
        digits_value(digits) <= u32::MAX,
    ensures
        parse_u32_spec(digits) == Some(digits_value(digits) as u32),
        parse_u32_spec(seq![0x2Bu8] + digits) == Some(digits_value(digits) as u32),
{
    assert(0x30 <= digits[0] <= 0x39);
    assert((seq![0x2Bu8] + digits).drop_first() =~= digits);
}

/// A special line written as the name, a space and the id in decimal reads
/// back as that name and id, whatever spaces the name holds.
pub proof fn lemma_special_line_written(name: Seq<u8>, digits: Seq<u8>)
    requires
        digits.len() > 0,
        all_digits(digits),
        digits_value(digits) <= u32::MAX,
    ensures
        special_line_spec(name + seq![0x20u8] + digits) == Ok::<(Seq<u8>, u32), ImportError>(
            (name, digits_value(digits) as u32),
        ),
{
    let line = name + seq![0x20u8] + digits;
    let n = name.len() as int;
    assert(line[n] == 0x20);
    assert forall|j: int| n < j < line.len() implies line[j] != 0x20 by {
        assert(line[j] == digits[j - n - 1]);
    }
    assert(exists|i: int| 0 <= i < line.len() && line[i] == 0x20);
    let i = choose|i: int|
        0 <= i < line.len() && line[i] == 0x20 && forall|j: int| i < j < line.len() ==> line[j] != 0x20;
    assert(i == n) by {
        if i < n {
            assert(line[n] != 0x20);
        } else if i > n {
            assert(line[i] == digits[i - n - 1]);
        }
    }
    assert(last_space(line) == Some(n));
    assert(line.subrange(n + 1, line.len() as int) =~= digits);
    assert(line.take(n) =~= name);
    lemma_parse_u32_digits(digits);
}

/// A rank line written as a token with no space in it, a space and the rank
/// in decimal reads back as the token's base64 decoding and the rank.
pub proof fn lemma_rank_line_written(tok: Seq<u8>, digits: Seq<u8>)
    requires
        forall|j: int| 0 <= j < tok.len() ==> #[trigger] tok[j] != 0x20,
        digits.len() > 0,
        all_digits(digits),
        digits_value(digits) <= u32::MAX,
    ensures
        rank_line_spec(tok + seq![0x20u8] + digits) == match b64_standard(tok) {
            Some(b) => Ok::<(Seq<u8>, u32), ImportError>((b, digits_value(digits) as u32)),
            None => Err(ImportError::BadBase64),
        },
{
    let line = tok + seq![0x20u8] + digits;
    let n = tok.len() as int;
    assert(line[n] == 0x20);
    assert forall|j: int| 0 <= j < n implies line[j] != 0x20 by {
        assert(line[j] == tok[j]);
    }
    assert(exists|i: int| 0 <= i < line.len() && line[i] == 0x20);
    let i = choose|i: int|
        0 <= i < line.len() && line[i] == 0x20 && forall|j: int| 0 <= j < i ==> line[j] != 0x20;
    assert(i == n) by {
        if i < n {
            assert(line[i] == tok[i]);
        } else if i > n {
            assert(line[n] == 0x20);
        }
    }
    assert(first_space(line) == Some(n));
    assert(line.subrange(n + 1, line.len() as int) =~= digits);
    assert(line.take(n) =~= tok);
    lemma_parse_u32_digits(digits);
}

// ---------------------------------------------------------------------------
// Whole files
// ---------------------------------------------------------------------------

/// The entries of a list of lines, or the first line's error.
pub open spec fn parse_lines(lines: Seq<Seq<u8>>, special: bool) -> Result<
    Seq<(Seq<u8>, u32)>,
    ImportError,
>
    decreases lines.len(),
{
    if lines.len() == 0 {
        Ok(Seq::empty())
    } else {
        match parse_lines(lines.drop_last(), special) {
            Err(e) => Err(e),
            Ok(es) => match if special {
                special_line_spec(lines.last())
            } else {
                rank_line_spec(lines.last())
            } {
                Err(e) => Err(e),
                Ok(e) => Ok(es.push(e)),
            },
        }
    }
}

/// The largest id listed (0 for none).
pub open spec fn max_id_of(es: Seq<(Seq<u8>, u32)>) -> u32
    decreases es.len(),
{
    if es.len() == 0 {
        0
    } else if es.last().1 > max_id_of(es.drop_last()) {
        es.last().1
    } else {
        max_id_of(es.drop_last())
    }
}

proof fn lemma_parse_lines_fail(lines: Seq<Seq<u8>>, k: int, special: bool)
    requires
        0 <= k <= lines.len(),
        parse_lines(lines.take(k), special) is Err,
    ensures
        parse_lines(lines, special) == parse_lines(lines.take(k), special),
    decreases lines.len() - k,
{
    if k < lines.len() {
        assert(lines.take(k + 1).drop_last() =~= lines.take(k));
        lemma_parse_lines_fail(lines, k + 1, special);
    } else {
        assert(lines.take(k) =~= lines);
    }
}

proof fn lemma_lines_step(text: Seq<u8>, pos: int)
    requires
        0 <= pos < text.len(),
    ensures
        ({
            let e = line_end(text, pos);
            &&& pos <= e <= text.len()
            &&& lines_from(text, pos) == seq![line_at(text, pos)] + (if e < text.len() {
                lines_from(text, e + 1)
            } else {
                Seq::empty()
            })
        }),
{
    reveal(lines_from);
    lemma_line_end(text, pos);
    let e = line_end(text, pos);
    if e >= text.len() {
        assert(seq![line_at(text, pos)] + Seq::<Seq<u8>>::empty() =~= seq![line_at(text, pos)]);
    }
}

proof fn lemma_lines_end(text: Seq<u8>)
    ensures
        lines_from(text, text.len() as int) == Seq::<Seq<u8>>::empty(),
{
    reveal(lines_from);
}

/// Moving past one line: the line read is the next of the file's lines.
proof fn lemma_advance(text: Seq<u8>, pos: int, all: Seq<Seq<u8>>, k: int, special: bool)
    requires
        all == lines_from(text, 0),
        0 <= pos < text.len(),
        0 <= k <= all.len(),
        all.skip(k) == lines_from(text, pos),
    ensures
        k < all.len(),
        all[k] == line_at(text, pos),
        line_end(text, pos) < text.len() ==> all.skip(k + 1) == lines_from(
            text,
            line_end(text, pos) + 1,
        ),
        line_end(text, pos) >= text.len() ==> k + 1 == all.len(),
        pos <= line_end(text, pos) <= text.len(),
{
    lemma_lines_step(text, pos);
    let e = line_end(text, pos);
    let rest = lines_from(text, pos);
    assert(rest[0] == line_at(text, pos));
    assert(rest.len() >= 1);
    assert(all.skip(k).len() == all.len() - k);
    assert(all.skip(k)[0] == all[k]);
    assert(all.skip(k + 1) =~= all.skip(k).drop_first());
    if e < text.len() {
        assert(rest.drop_first() =~= lines_from(text, e + 1));
    } else {
        assert(rest.drop_first() =~= Seq::<Seq<u8>>::empty());
    }
}

/// Parsing one more line.
proof fn lemma_parse_more(all: Seq<Seq<u8>>, k: int, special: bool)
    requires
        0 <= k < all.len(),
    ensures
        parse_lines(all.take(k + 1), special) == match parse_lines(all.take(k), special) {
            Err(e) => Err(e),
            Ok(es) => match if special {
                special_line_spec(all[k])
            } else {
                rank_line_spec(all[k])
            } {
                Err(e) => Err(e),
                Ok(e) => Ok(es.push(e)),
            },
        },
{
    assert(all.take(k + 1).drop_last() =~= all.take(k));
    assert(all.take(k + 1).last() == all[k]);
}

/// One rank or special line.
fn parse_line(line: &[u8], special: bool) -> (r: Result<(Vec<u8>, u32), ImportError>)
    ensures
        match (if special {
            special_line_spec(line@)
        } else {
            rank_line_spec(line@)
        }) {
            Ok((b, id)) => r matches Ok(e) && e.0@ == b && e.1 == id,
            Err(e) => r == Err::<(Vec<u8>, u32), ImportError>(e),
        },
{
    if special {
        parse_special_line(line)
    } else {
        parse_rank_line(line)
    }
}

/// Parse every line of `text`, in order; stop at the first bad one.
fn parse_all(text: &[u8], special: bool) -> (r: Result<Vec<(Vec<u8>, u32)>, ImportError>)
    ensures
        match parse_lines(lines_from(text@, 0), special) {
            Ok(es) => r matches Ok(v) && pairs_view(v@) == es,
            Err(e) => r == Err::<Vec<(Vec<u8>, u32)>, ImportError>(e),
        },
{
    let ghost all = lines_from(text@, 0);
    let mut out: Vec<(Vec<u8>, u32)> = Vec::new();
    let mut pos: usize = 0;
    let ghost mut k: int = 0;
    proof {
        assert(all.take(0) =~= Seq::<Seq<u8>>::empty());
        assert(pairs_view(out@) =~= Seq::empty());
        assert(all.skip(0) =~= all);
    }
    while pos < text.len()
        invariant
            pos <= text@.len(),
            all == lines_from(text@, 0),
            0 <= k <= all.len(),
            all.skip(k) == lines_from(text@, pos as int),
            parse_lines(all.take(k), special) == Ok::<Seq<(Seq<u8>, u32)>, ImportError>(pairs_view(out@)),
        decreases text@.len() - pos,
    {
        let e = find_line_end(text, pos);
        proof {
            lemma_advance(text@, pos as int, all, k, special);
            lemma_parse_more(all, k, special);
        }
        let stop = if e < text.len() && e > pos && text[e - 1] == 0x0D {
            e - 1
        } else {
            e
        };
        let line = &text[pos..stop];
        proof {
            assert(line@ =~= line_at(text@, pos as int));
        }
        match parse_line(line, special) {
            Ok(entry) => {
                let ghost before = out@;
                out.push(entry);
                proof {
                    assert(pairs_view(out@) =~= pairs_view(before).push((entry.0@, entry.1)));
                }
            },
            Err(err) => {
                proof {
                    lemma_parse_lines_fail(all, k + 1, special);
                }
                return Err(err);
            },
        }
        proof {
            k = k + 1;
        }
        if e < text.len() {
            pos = e + 1;
        } else {
            pos = text.len();
            proof {
                lemma_lines_end(text@);
                assert(all.skip(k) =~= Seq::<Seq<u8>>::empty());
            }
        }
    }
    proof {
        lemma_lines_end(text@);
        assert(all.skip(k).len() == 0);
        assert(all.take(k) =~= all);
    }
    Ok(out)
}

/// The largest id in `es`, starting from `m`.
fn max_over(es: &Vec<(Vec<u8>, u32)>, m: u32) -> (r: u32)
    ensures
        r == max_id_of(seq![(Seq::<u8>::empty(), m)] + pairs_view(es@)),
{
    let ghost s0 = seq![(Seq::<u8>::empty(), m)];
    let mut r = m;
    let mut i: usize = 0;
    proof {
        assert(s0 + pairs_view(es@.take(0)) =~= s0);
        assert(s0.drop_last() =~= Seq::<(Seq<u8>, u32)>::empty());
        assert(max_id_of(Seq::<(Seq<u8>, u32)>::empty()) == 0);
        assert(s0.last() == (Seq::<u8>::empty(), m));
    }
    while i < es.len()
        invariant
            i <= es@.len(),
            s0 == seq![(Seq::<u8>::empty(), m)],
            r == max_id_of(s0 + pairs_view(es@.take(i as int))),
        decreases es@.len() - i,
    {
        let id = es[i].1;
        proof {
            let a = s0 + pairs_view(es@.take(i + 1));
            assert(a.drop_last() =~= s0 + pairs_view(es@.take(i as int)));
            assert(a.last() == (es@[i as int].0@, id));
        }
        if id > r {
            r = id;
        }
        i += 1;
    }
    proof {
        assert(es@.take(es@.len() as int) =~= es@);
    }
    r
}

/// Pack the rank text and special text of encoding `name` into a blob: every
/// rank line, then every special line, with the largest id seen as `max_id`.
pub fn build_blob(name: &str, ranks_txt: &str, special_txt: &str) -> (r: Result<VocabBlob, ImportError>)
    ensures
        match parse_lines(lines_from(ranks_txt.spec_bytes(), 0), false) {
            Err(e) => r == Err::<VocabBlob, ImportError>(e),
            Ok(rs) => match parse_lines(lines_from(special_txt.spec_bytes(), 0), true) {
                Err(e) => r == Err::<VocabBlob, ImportError>(e),
                Ok(ss) => r matches Ok(b) && b.name@ == name@ && pairs_view(b.ranks@) == rs
                    && pairs_view(b.specials@) == ss && b.max_id == max_id_of(
                    seq![(Seq::<u8>::empty(), 0u32)] + rs + ss,
                ) && b.grammar == GRAMMAR_UNKNOWN && b.normalizer == 0,
            },
        },
{
    let ranks = match parse_all(ranks_txt.as_bytes(), false) {
        Ok(v) => v,
        Err(e) => {
            return Err(e);
        },
    };
    let m1 = max_over(&ranks, 0);
    let specials = match parse_all(special_txt.as_bytes(), true) {
        Ok(v) => v,
        Err(e) => {
            return Err(e);
        },
    };
    let max_id = max_over(&specials, m1);
    proof {
        let rs = pairs_view(ranks@);
        let ss = pairs_view(specials@);
        lemma_max_id_concat(seq![(Seq::<u8>::empty(), 0u32)] + rs, ss, m1);
    }
    Ok(VocabBlob {
        name: name.to_owned(),
        max_id,
        grammar: GRAMMAR_UNKNOWN,
        normalizer: 0,
        ranks,
        specials,
    })
}

/// The largest id of a concatenation, computed from the first part's largest.
proof fn lemma_max_id_concat(a: Seq<(Seq<u8>, u32)>, b: Seq<(Seq<u8>, u32)>, m: u32)
    requires
        a.len() > 0,
        m == max_id_of(a),
    ensures
        max_id_of(a + b) == max_id_of(seq![(Seq::<u8>::empty(), m)] + b),
    decreases b.len(),
{
    let s0 = seq![(Seq::<u8>::empty(), m)];
    if b.len() > 0 {
        assert((a + b).drop_last() =~= a + b.drop_last());
        assert((s0 + b).drop_last() =~= s0 + b.drop_last());
        assert((a + b).last() == b.last());
        assert((s0 + b).last() == b.last());
        lemma_max_id_concat(a, b.drop_last(), m);
    } else {
        assert(a + b =~= a);
        assert(s0 + b =~= s0);
        assert(s0.drop_last() =~= Seq::<(Seq<u8>, u32)>::empty());
        assert(s0.last() == (Seq::<u8>::empty(), m));
        assert(max_id_of(Seq::<(Seq<u8>, u32)>::empty()) == 0);
        assert(max_id_of(s0) == m);
    }
}

} // verus!
