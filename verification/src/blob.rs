//! sonictok binary vocab blob. Little-endian throughout.
//!
//! layout (v2):
//!   magic:    8 bytes  = b"SONICTK\0"
//!   version:  u16      = 2
//!   flags:    u16      = 0
//!   checksum: u64      = FNV-1a over everything AFTER this field
//!   name_len: u16, name: [u8; name_len]   (encoding name, e.g. "cl100k_base")
//!   n_ranks:  u32
//!   n_special:u32
//!   max_id:   u32      (n_vocab = max_id + 1)
//!   [v2+] grammar: u8  (0=cl100k, 1=o200k, 2=qwen)
//!   [v2+] normalizer: u8 (0=none, 1=NFC)
//!   rank section:    n_ranks * { len: u32, bytes: [u8; len], id: u32 }
//!   special section: n_special * { len: u16, bytes: [u8; len], id: u32 }
use crate::rank::pairs_view;
use vstd::bytes::{
    lemma_auto_spec_u16_to_from_le_bytes, lemma_auto_spec_u32_to_from_le_bytes,
    lemma_auto_spec_u64_to_from_le_bytes, spec_u16_from_le_bytes, spec_u16_to_le_bytes,
    spec_u32_from_le_bytes, spec_u32_to_le_bytes, spec_u64_from_le_bytes, spec_u64_to_le_bytes,
    u16_from_le_bytes, u16_to_le_bytes, u32_from_le_bytes, u32_to_le_bytes, u64_from_le_bytes,
    u64_to_le_bytes,
};
use vstd::prelude::*;
use vstd::string::StringSliceAdditionalSpecFns;
use vstd::utf8::{decode_utf8, encode_utf8, encode_utf8_decode_utf8, encode_utf8_valid_utf8, valid_utf8};
use vstd::wrapping::u64_specs::wrapping_mul;

verus! {

/// The newest format version this library reads and writes.
pub const VERSION: u16 = 2;

/// Grammar carried by v1 blobs (unknown — caller infers from the name).
pub const GRAMMAR_UNKNOWN: u8 = 255;

#[verifier::external_type_specification]
#[verifier::external_body]
pub struct ExIoError(std::io::Error);

/// Why a vocabulary blob could not be loaded.
#[derive(Debug)]
pub enum DataError {
    Io(std::io::Error),
    BadMagic,
    UnsupportedVersion(u16, u16),
    Corrupt(&'static str),
    Checksum { expected: u64, actual: u64 },
    EncodingNotFound(String),
}

/// A decoded vocabulary blob.
#[derive(Debug, Clone)]
pub struct VocabBlob {
    pub name: String,
    pub max_id: u32,
    /// 0=cl100k, 1=o200k, 2=qwen (GRAMMAR_UNKNOWN for legacy v1 blobs).
    pub grammar: u8,
    /// 0=none, 1=NFC.
    pub normalizer: u8,
    pub ranks: Vec<(Vec<u8>, u32)>,
    pub specials: Vec<(Vec<u8>, u32)>,
}

/// What a blob holds, by value: the name as UTF-8 bytes, and the two tables.
pub struct BlobModel {
    pub name: Seq<u8>,
    pub max_id: u32,
    pub grammar: u8,
    pub normalizer: u8,
    pub ranks: Seq<(Seq<u8>, u32)>,
    pub specials: Seq<(Seq<u8>, u32)>,
}

impl VocabBlob {
    pub open spec fn model(&self) -> BlobModel {
        BlobModel {
            name: encode_utf8(self.name@),
            max_id: self.max_id,
            grammar: self.grammar,
            normalizer: self.normalizer,
            ranks: pairs_view(self.ranks@),
            specials: pairs_view(self.specials@),
        }
    }
}

// ---------------------------------------------------------------------------
// Checksum
// ---------------------------------------------------------------------------

pub open spec fn fnv_offset() -> u64 {
    0xcbf2_9ce4_8422_2325
}

pub open spec fn fnv_prime() -> u64 {
    0x0000_0100_0000_01B3
}

/// FNV-1a of a byte string.
pub open spec fn fnv1a_spec(bytes: Seq<u8>) -> u64
    decreases bytes.len(),
{
    if bytes.len() == 0 {
        fnv_offset()
    } else {
        wrapping_mul(fnv1a_spec(bytes.drop_last()) ^ (bytes.last() as u64), fnv_prime())
    }
}

fn fnv1a(bytes: &[u8]) -> (r: u64)
    ensures
        r == fnv1a_spec(bytes@),
{
    let mut h: u64 = 0xcbf2_9ce4_8422_2325;
    let mut i: usize = 0;
    while i < bytes.len()
        invariant
            i <= bytes@.len(),
            h == fnv1a_spec(bytes@.take(i as int)),
        decreases bytes@.len() - i,
    {
        proof {
            assert(bytes@.take(i + 1).drop_last() =~= bytes@.take(i as int));
        }
        h = (h ^ bytes[i] as u64).wrapping_mul(0x0000_0100_0000_01B3);
        i += 1;
    }
    proof {
        assert(bytes@.take(bytes@.len() as int) =~= bytes@);
    }
    h
}

// ---------------------------------------------------------------------------
// Writing
// ---------------------------------------------------------------------------

/// The eight magic bytes `b"SONICTK\0"`.
pub open spec fn magic() -> Seq<u8> {
    seq![0x53u8, 0x4F, 0x4E, 0x49, 0x43, 0x54, 0x4B, 0x00]
}

fn magic_bytes() -> (r: Vec<u8>)
    ensures
        r@ == magic(),
{
    let r = vec![0x53u8, 0x4F, 0x4E, 0x49, 0x43, 0x54, 0x4B, 0x00];
    proof {
        assert(r@ =~= magic());
    }
    r
}

/// One rank record: a 32-bit length, the bytes, the id.
pub open spec fn rank_record(e: (Seq<u8>, u32)) -> Seq<u8> {
    spec_u32_to_le_bytes(e.0.len() as u32) + e.0 + spec_u32_to_le_bytes(e.1)
}

/// One special-token record: a 16-bit length, the bytes, the id.
pub open spec fn special_record(e: (Seq<u8>, u32)) -> Seq<u8> {
    spec_u16_to_le_bytes(e.0.len() as u16) + e.0 + spec_u32_to_le_bytes(e.1)
}

/// Records one after another (`wide`: rank records, else special records).
pub open spec fn records(es: Seq<(Seq<u8>, u32)>, wide: bool) -> Seq<u8>
    decreases es.len(),
{
    if es.len() == 0 {
        Seq::empty()
    } else {
        records(es.drop_last(), wide) + if wide {
            rank_record(es.last())
        } else {
            special_record(es.last())
        }
    }
}

/// Everything after the checksum field.
pub open spec fn blob_body(m: BlobModel) -> Seq<u8> {
    spec_u16_to_le_bytes(m.name.len() as u16) + m.name + spec_u32_to_le_bytes(m.ranks.len() as u32)
        + spec_u32_to_le_bytes(m.specials.len() as u32) + spec_u32_to_le_bytes(m.max_id) + seq![
        m.grammar,
        m.normalizer,
    ] + records(m.ranks, true) + records(m.specials, false)
}

/// The whole file: header, checksum of the body, body.
pub open spec fn blob_file(m: BlobModel) -> Seq<u8> {
    magic() + spec_u16_to_le_bytes(VERSION) + spec_u16_to_le_bytes(0) + spec_u64_to_le_bytes(
        fnv1a_spec(blob_body(m)),
    ) + blob_body(m)
}

fn append(out: &mut Vec<u8>, b: &[u8])
    ensures
        final(out)@ == old(out)@ + b@,
{
    let mut i: usize = 0;
    while i < b.len()
        invariant
            i <= b@.len(),
            out@ == old(out)@ + b@.take(i as int),
        decreases b@.len() - i,
    {
        out.push(b[i]);
        i += 1;
        proof {
            assert(out@ =~= old(out)@ + b@.take(i as int));
        }
    }
    proof {
        assert(b@.take(b@.len() as int) =~= b@);
    }
}

fn append_records(out: &mut Vec<u8>, es: &Vec<(Vec<u8>, u32)>, wide: bool)
    ensures
        final(out)@ == old(out)@ + records(pairs_view(es@), wide),
{
    let mut i: usize = 0;
    proof {
        assert(pairs_view(es@.take(0)) =~= Seq::empty());
        assert(out@ =~= old(out)@ + records(pairs_view(es@.take(0)), wide));
    }
    while i < es.len()
        invariant
            i <= es@.len(),
            out@ == old(out)@ + records(pairs_view(es@.take(i as int)), wide),
        decreases es@.len() - i,
    {
        let b: &Vec<u8> = &es[i].0;
        let id = es[i].1;
        let ghost before = out@;
        if wide {
            let l = u32_to_le_bytes(b.len() as u32);
            append(out, l.as_slice());
        } else {
            let l = u16_to_le_bytes(b.len() as u16);
            append(out, l.as_slice());
        }
        append(out, b.as_slice());
        let idb = u32_to_le_bytes(id);
        append(out, idb.as_slice());
        proof {
            let pv = pairs_view(es@.take(i + 1));
            assert(pv.drop_last() =~= pairs_view(es@.take(i as int)));
            assert(pv.last() == (b@, id));
            let rec = if wide {
                rank_record(pv.last())
            } else {
                special_record(pv.last())
            };
            assert(out@ =~= before + rec);
        }
        i += 1;
    }
    proof {
        assert(es@.take(es@.len() as int) =~= es@);
    }
}

impl VocabBlob {
    pub fn to_bytes(&self) -> (r: Vec<u8>)
        ensures
            r@ == blob_file(self.model()),
    {
        let ghost m = self.model();
        let mut body: Vec<u8> = Vec::new();
        let name = self.name.as_str().as_bytes();
        let l = u16_to_le_bytes(name.len() as u16);
        append(&mut body, l.as_slice());
        append(&mut body, name);
        let l = u32_to_le_bytes(self.ranks.len() as u32);
        append(&mut body, l.as_slice());
        let l = u32_to_le_bytes(self.specials.len() as u32);
        append(&mut body, l.as_slice());
        let l = u32_to_le_bytes(self.max_id);
        append(&mut body, l.as_slice());
        body.push(self.grammar);
        body.push(self.normalizer);
        append_records(&mut body, &self.ranks, true);
        append_records(&mut body, &self.specials, false);
        proof {
            assert(pairs_view(self.ranks@).len() == self.ranks@.len());
            assert(pairs_view(self.specials@).len() == self.specials@.len());
            assert(body@ =~= blob_body(m));
        }
        let checksum = fnv1a(body.as_slice());
        let mut out: Vec<u8> = magic_bytes();
        let v = u16_to_le_bytes(VERSION);
        append(&mut out, v.as_slice());
        let f = u16_to_le_bytes(0);
        append(&mut out, f.as_slice());
        let c = u64_to_le_bytes(checksum);
        append(&mut out, c.as_slice());
        append(&mut out, body.as_slice());
        proof {
            assert(out@ =~= blob_file(m));
        }
        out
    }
}


// ---------------------------------------------------------------------------
// Reading
// ---------------------------------------------------------------------------

/// Where a read of `n` bytes at `pos` of a buffer of `len` bytes ends.
pub open spec fn take_spec(len: int, pos: int, n: int) -> Result<int, DataError> {
    if pos + n > usize::MAX {
        Err(DataError::Corrupt("overflow"))
    } else if pos + n > len {
        Err(DataError::Corrupt("truncated"))
    } else {
        Ok(pos + n)
    }
}

/// One record at `pos`, and where it ends.
pub open spec fn parse_record(buf: Seq<u8>, pos: int, wide: bool) -> Result<
    ((Seq<u8>, u32), int),
    DataError,
> {
    let w: int = if wide {
        4
    } else {
        2
    };
    match take_spec(buf.len() as int, pos, w) {
        Err(e) => Err(e),
        Ok(p1) => {
            let n: int = if wide {
                spec_u32_from_le_bytes(buf.subrange(pos, p1)) as int
            } else {
                spec_u16_from_le_bytes(buf.subrange(pos, p1)) as int
            };
            match take_spec(buf.len() as int, p1, n) {
                Err(e) => Err(e),
                Ok(p2) => match take_spec(buf.len() as int, p2, 4) {
                    Err(e) => Err(e),
                    Ok(p3) => Ok(
                        ((buf.subrange(p1, p2), spec_u32_from_le_bytes(buf.subrange(p2, p3))), p3),
                    ),
                },
            }
        },
    }
}

/// `n` records from `pos`, and where they end.
pub open spec fn parse_records(buf: Seq<u8>, pos: int, n: nat, wide: bool) -> Result<
    (Seq<(Seq<u8>, u32)>, int),
    DataError,
>
    decreases n,
{
    if n == 0 {
        Ok((Seq::empty(), pos))
    } else {
        match parse_records(buf, pos, (n - 1) as nat, wide) {
            Err(e) => Err(e),
            Ok((es, p)) => match parse_record(buf, p, wide) {
                Err(e) => Err(e),
                Ok((e, q)) => Ok((es.push(e), q)),
            },
        }
    }
}

/// The body fields, read from offset 20.
pub open spec fn parse_body(buf: Seq<u8>, version: u16) -> Result<BlobModel, DataError> {
    let len = buf.len() as int;
    match take_spec(len, 20, 2) {
        Err(e) => Err(e),
        Ok(p0) => {
            let name_len = spec_u16_from_le_bytes(buf.subrange(20, p0)) as int;
            match take_spec(len, p0, name_len) {
                Err(e) => Err(e),
                Ok(p1) => if !valid_utf8(buf.subrange(p0, p1)) {
                    Err(DataError::Corrupt("name utf8"))
                } else {
                    match take_spec(len, p1, 12) {
                        Err(e) => Err(e),
                        Ok(p2) => {
                            let n_ranks = spec_u32_from_le_bytes(buf.subrange(p1, p1 + 4));
                            let n_special = spec_u32_from_le_bytes(buf.subrange(p1 + 4, p1 + 8));
                            let max_id = spec_u32_from_le_bytes(buf.subrange(p1 + 8, p2));
                            let gn: Result<(u8, u8, int), DataError> = if version >= 2 {
                                match take_spec(len, p2, 2) {
                                    Err(e) => Err(e),
                                    Ok(p3) => Ok((buf[p2], buf[p2 + 1], p3)),
                                }
                            } else {
                                Ok((GRAMMAR_UNKNOWN, 0u8, p2))
                            };
                            match gn {
                                Err(e) => Err(e),
                                Ok((grammar, normalizer, p3)) => match parse_records(
                                    buf,
                                    p3,
                                    n_ranks as nat,
                                    true,
                                ) {
                                    Err(e) => Err(e),
                                    Ok((ranks, p4)) => match parse_records(
                                        buf,
                                        p4,
                                        n_special as nat,
                                        false,
                                    ) {
                                        Err(e) => Err(e),
                                        Ok((specials, _p5)) => Ok(
                                            BlobModel {
                                                name: buf.subrange(p0, p1),
                                                max_id,
                                                grammar,
                                                normalizer,
                                                ranks,
                                                specials,
                                            },
                                        ),
                                    },
                                },
                            }
                        },
                    }
                },
            }
        },
    }
}

/// What reading a blob gives: the magic, the version, the checksum over the
/// rest of the buffer, then the body; the first failing check decides the
/// error.
pub open spec fn parse_blob(buf: Seq<u8>) -> Result<BlobModel, DataError> {
    if buf.len() < 8 {
        Err(DataError::Corrupt("truncated"))
    } else if buf.subrange(0, 8) != magic() {
        Err(DataError::BadMagic)
    } else if buf.len() < 10 {
        Err(DataError::Corrupt("truncated"))
    } else {
        let version = spec_u16_from_le_bytes(buf.subrange(8, 10));
        if version > VERSION {
            Err(DataError::UnsupportedVersion(version, VERSION))
        } else if buf.len() < 20 {
            Err(DataError::Corrupt("truncated"))
        } else {
            let expected = spec_u64_from_le_bytes(buf.subrange(12, 20));
            let actual = fnv1a_spec(buf.subrange(20, buf.len() as int));
            if actual != expected {
                Err(DataError::Checksum { expected, actual })
            } else {
                parse_body(buf, version)
            }
        }
    }
}

struct Reader<'a> {
    buf: &'a [u8],
    pos: usize,
}

impl<'a> Reader<'a> {
    fn take(&mut self, n: usize) -> (r: Result<&'a [u8], DataError>)
        requires
            old(self).pos <= old(self).buf@.len(),
        ensures
            final(self).buf == old(self).buf,
            final(self).pos <= final(self).buf@.len(),
            match take_spec(old(self).buf@.len() as int, old(self).pos as int, n as int) {
                Ok(end) => r matches Ok(s) && s@ == old(self).buf@.subrange(
                    old(self).pos as int,
                    end,
                ) && final(self).pos == end,
                Err(e) => r == Err::<&'a [u8], DataError>(e),
            },
    {
        let end = match self.pos.checked_add(n) {
            Some(e) => e,
            None => {
                return Err(DataError::Corrupt("overflow"));
            },
        };
        if end > self.buf.len() {
            return Err(DataError::Corrupt("truncated"));
        }
        let s = &self.buf[self.pos..end];
        self.pos = end;
        Ok(s)
    }

    fn u8(&mut self) -> (r: Result<u8, DataError>)
        requires
            old(self).pos <= old(self).buf@.len(),
        ensures
            final(self).buf == old(self).buf,
            final(self).pos <= final(self).buf@.len(),
            match take_spec(old(self).buf@.len() as int, old(self).pos as int, 1) {
                Ok(end) => r == Ok::<u8, DataError>(old(self).buf@[old(self).pos as int])
                    && final(self).pos == end,
                Err(e) => r == Err::<u8, DataError>(e),
            },
    {
        match self.take(1) {
            Ok(s) => Ok(s[0]),
            Err(e) => Err(e),
        }
    }

    fn u16(&mut self) -> (r: Result<u16, DataError>)
        requires
            old(self).pos <= old(self).buf@.len(),
        ensures
            final(self).buf == old(self).buf,
            final(self).pos <= final(self).buf@.len(),
            match take_spec(old(self).buf@.len() as int, old(self).pos as int, 2) {
                Ok(end) => r == Ok::<u16, DataError>(
                    spec_u16_from_le_bytes(old(self).buf@.subrange(old(self).pos as int, end)),
                ) && final(self).pos == end,
                Err(e) => r == Err::<u16, DataError>(e),
            },
    {
        match self.take(2) {
            Ok(s) => Ok(u16_from_le_bytes(s)),
            Err(e) => Err(e),
        }
    }

    fn u32(&mut self) -> (r: Result<u32, DataError>)
        requires
            old(self).pos <= old(self).buf@.len(),
        ensures
            final(self).buf == old(self).buf,
            final(self).pos <= final(self).buf@.len(),
            match take_spec(old(self).buf@.len() as int, old(self).pos as int, 4) {
                Ok(end) => r == Ok::<u32, DataError>(
                    spec_u32_from_le_bytes(old(self).buf@.subrange(old(self).pos as int, end)),
                ) && final(self).pos == end,
                Err(e) => r == Err::<u32, DataError>(e),
            },
    {
        match self.take(4) {
            Ok(s) => Ok(u32_from_le_bytes(s)),
            Err(e) => Err(e),
        }
    }

    fn u64(&mut self) -> (r: Result<u64, DataError>)
        requires
            old(self).pos <= old(self).buf@.len(),
        ensures
            final(self).buf == old(self).buf,
            final(self).pos <= final(self).buf@.len(),
            match take_spec(old(self).buf@.len() as int, old(self).pos as int, 8) {
                Ok(end) => r == Ok::<u64, DataError>(
                    spec_u64_from_le_bytes(old(self).buf@.subrange(old(self).pos as int, end)),
                ) && final(self).pos == end,
                Err(e) => r == Err::<u64, DataError>(e),
            },
    {
        match self.take(8) {
            Ok(s) => Ok(u64_from_le_bytes(s)),
            Err(e) => Err(e),
        }
    }

    /// Read one record (`wide`: 32-bit length, else 16-bit).
    fn record(&mut self, wide: bool) -> (r: Result<(Vec<u8>, u32), DataError>)
        requires
            old(self).pos <= old(self).buf@.len(),
        ensures
            final(self).buf == old(self).buf,
            final(self).pos <= final(self).buf@.len(),
            match parse_record(old(self).buf@, old(self).pos as int, wide) {
                Ok((e, end)) => r matches Ok(v) && (v.0@, v.1) == e && final(self).pos == end,
                Err(e) => r == Err::<(Vec<u8>, u32), DataError>(e),
            },
    {
        let len: usize = if wide {
            match self.u32() {
                Ok(x) => x as usize,
                Err(e) => {
                    return Err(e);
                },
            }
        } else {
            match self.u16() {
                Ok(x) => x as usize,
                Err(e) => {
                    return Err(e);
                },
            }
        };
        let b = match self.take(len) {
            Ok(s) => crate::rank::copy_bytes(s),
            Err(e) => {
                return Err(e);
            },
        };
        let id = match self.u32() {
            Ok(x) => x,
            Err(e) => {
                return Err(e);
            },
        };
        Ok((b, id))
    }

    /// Read `n` records.
    fn records(&mut self, n: usize, wide: bool) -> (r: Result<Vec<(Vec<u8>, u32)>, DataError>)
        requires
            old(self).pos <= old(self).buf@.len(),
        ensures
            final(self).buf == old(self).buf,
            final(self).pos <= final(self).buf@.len(),
            match parse_records(old(self).buf@, old(self).pos as int, n as nat, wide) {
                Ok((es, end)) => r matches Ok(v) && pairs_view(v@) == es && final(self).pos == end,
                Err(e) => r == Err::<Vec<(Vec<u8>, u32)>, DataError>(e),
            },
    {
        let ghost buf = self.buf@;
        let ghost b0 = self.buf;
        let ghost start = self.pos as int;
        let mut out: Vec<(Vec<u8>, u32)> = Vec::new();
        let mut i: usize = 0;
        proof {
            assert(pairs_view(out@) =~= Seq::empty());
        }
        while i < n
            invariant
                i <= n,
                self.buf == b0,
                b0@ == buf,
                old(self).buf == b0,
                start == old(self).pos,
                self.pos <= self.buf@.len(),
                parse_records(buf, start, i as nat, wide) == Ok::<
                    (Seq<(Seq<u8>, u32)>, int),
                    DataError,
                >((pairs_view(out@), self.pos as int)),
            decreases n - i,
        {
            match self.record(wide) {
                Ok(e) => {
                    let ghost before = out@;
                    out.push(e);
                    proof {
                        assert(pairs_view(out@) =~= pairs_view(before).push((e.0@, e.1)));
                    }
                },
                Err(err) => {
                    proof {
                        assert(parse_records(buf, start, (i + 1) as nat, wide) == Err::<
                            (Seq<(Seq<u8>, u32)>, int),
                            DataError,
                        >(err));
                        lemma_records_fail(buf, start, (i + 1) as nat, n as nat, wide);
                    }
                    return Err(err);
                },
            }
            i += 1;
        }
        Ok(out)
    }
}

/// Once reading `k` records fails, reading more fails the same way.
proof fn lemma_records_fail(buf: Seq<u8>, pos: int, k: nat, n: nat, wide: bool)
    requires
        k <= n,
        parse_records(buf, pos, k, wide) is Err,
    ensures
        parse_records(buf, pos, n, wide) == parse_records(buf, pos, k, wide),
    decreases n - k,
{
    if k < n {
        lemma_records_fail(buf, pos, k, (n - 1) as nat, wide);
    }
}

/// `String::from_utf8`: returns a string exactly when the bytes are valid
/// UTF-8, and that string decodes from them.
#[verifier::external_body]
fn string_from_utf8(bytes: Vec<u8>) -> (r: Option<String>)
    ensures
        r is Some <==> valid_utf8(bytes@),
        r matches Some(s) ==> s@ == decode_utf8(bytes@),
{
    String::from_utf8(bytes).ok()
}

impl VocabBlob {
    pub fn from_bytes(buf: &[u8]) -> (r: Result<Self, DataError>)
        ensures
            match parse_blob(buf@) {
                Ok(m) => r matches Ok(b) && b.model() == m,
                Err(e) => r == Err::<VocabBlob, DataError>(e),
            },
    {
        let mut r = Reader { buf, pos: 0 };
        let magic = match r.take(8) {
            Ok(s) => s,
            Err(e) => {
                return Err(e);
            },
        };
        let want = magic_bytes();
        if !crate::rank::bytes_eq(magic, want.as_slice()) {
            return Err(DataError::BadMagic);
        }
        let version = match r.u16() {
            Ok(v) => v,
            Err(e) => {
                return Err(e);
            },
        };
        if version > VERSION {
            return Err(DataError::UnsupportedVersion(version, VERSION));
        }
        let _flags = match r.u16() {
            Ok(v) => v,
            Err(e) => {
                return Err(e);
            },
        };
        let checksum = match r.u64() {
            Ok(v) => v,
            Err(e) => {
                return Err(e);
            },
        };
        let body = &buf[r.pos..buf.len()];
        let actual = fnv1a(body);
        if actual != checksum {
            return Err(DataError::Checksum { expected: checksum, actual });
        }
        let name_len = match r.u16() {
            Ok(v) => v as usize,
            Err(e) => {
                return Err(e);
            },
        };
        let name_bytes = match r.take(name_len) {
            Ok(s) => crate::rank::copy_bytes(s),
            Err(e) => {
                return Err(e);
            },
        };
        let ghost nb = name_bytes@;
        let name = match string_from_utf8(name_bytes) {
            Some(s) => s,
            None => {
                return Err(DataError::Corrupt("name utf8"));
            },
        };
        let ghost p1 = r.pos as int;
        let n_ranks = match r.u32() {
            Ok(v) => v as usize,
            Err(e) => {
                proof {
                    assert(take_spec(buf@.len() as int, p1, 12) == take_spec(
                        buf@.len() as int,
                        p1,
                        4,
                    ));
                }
                return Err(e);
            },
        };
        let n_special = match r.u32() {
            Ok(v) => v as usize,
            Err(e) => {
                return Err(e);
            },
        };
        let max_id = match r.u32() {
            Ok(v) => v,
            Err(e) => {
                return Err(e);
            },
        };
        let (grammar, normalizer) = if version >= 2 {
            let g = match r.u8() {
                Ok(v) => v,
                Err(e) => {
                    return Err(e);
                },
            };
            let nz = match r.u8() {
                Ok(v) => v,
                Err(e) => {
                    return Err(e);
                },
            };
            (g, nz)
        } else {
            (GRAMMAR_UNKNOWN, 0u8)
        };
        let ranks = match r.records(n_ranks, true) {
            Ok(v) => v,
            Err(e) => {
                return Err(e);
            },
        };
        let specials = match r.records(n_special, false) {
            Ok(v) => v,
            Err(e) => {
                return Err(e);
            },
        };
        let b = VocabBlob { name, max_id, grammar, normalizer, ranks, specials };
        proof {
            encode_utf8_decode_utf8(b.name@);
            vstd::utf8::decode_utf8_encode_utf8(nb);
        }
        Ok(b)
    }
}


// ---------------------------------------------------------------------------
// Reading back what was written
// ---------------------------------------------------------------------------

/// The record written for `e`.
pub open spec fn record(e: (Seq<u8>, u32), wide: bool) -> Seq<u8> {
    if wide {
        rank_record(e)
    } else {
        special_record(e)
    }
}

/// Every field of the model fits the width the format gives it.
pub open spec fn fits(m: BlobModel) -> bool {
    &&& m.name.len() <= 0xFFFF
    &&& m.ranks.len() <= 0xFFFF_FFFF
    &&& m.specials.len() <= 0xFFFF_FFFF
    &&& forall|i: int| 0 <= i < m.ranks.len() ==> (#[trigger] m.ranks[i]).0.len() <= 0xFFFF_FFFF
    &&& forall|i: int| 0 <= i < m.specials.len() ==> (#[trigger] m.specials[i]).0.len() <= 0xFFFF
}

proof fn lemma_parse_record(buf: Seq<u8>, p: int, e: (Seq<u8>, u32), wide: bool)
    requires
        0 <= p,
        p + record(e, wide).len() <= buf.len() <= usize::MAX,
        buf.subrange(p, p + record(e, wide).len()) == record(e, wide),
        wide ==> e.0.len() <= 0xFFFF_FFFF,
        !wide ==> e.0.len() <= 0xFFFF,
    ensures
        parse_record(buf, p, wide) == Ok::<((Seq<u8>, u32), int), DataError>(
            (e, p + record(e, wide).len()),
        ),
{
    lemma_auto_spec_u16_to_from_le_bytes();
    lemma_auto_spec_u32_to_from_le_bytes();
    let rec = record(e, wide);
    let w: int = if wide {
        4
    } else {
        2
    };
    let n = e.0.len() as int;
    assert(rec.len() == w + n + 4);
    assert(buf.subrange(p, p + w) =~= rec.subrange(0, w));
    assert(buf.subrange(p + w, p + w + n) =~= rec.subrange(w, w + n));
    assert(buf.subrange(p + w + n, p + w + n + 4) =~= rec.subrange(w + n, w + n + 4));
    if wide {
        assert(rec.subrange(0, w) =~= spec_u32_to_le_bytes(e.0.len() as u32));
    } else {
        assert(rec.subrange(0, w) =~= spec_u16_to_le_bytes(e.0.len() as u16));
    }
    assert(rec.subrange(w, w + n) =~= e.0);
    assert(rec.subrange(w + n, w + n + 4) =~= spec_u32_to_le_bytes(e.1));
}

proof fn lemma_parse_records(buf: Seq<u8>, p: int, es: Seq<(Seq<u8>, u32)>, wide: bool)
    requires
        0 <= p,
        p + records(es, wide).len() <= buf.len() <= usize::MAX,
        buf.subrange(p, p + records(es, wide).len()) == records(es, wide),
        forall|i: int|
            0 <= i < es.len() ==> if wide {
                (#[trigger] es[i]).0.len() <= 0xFFFF_FFFF
            } else {
                es[i].0.len() <= 0xFFFF
            },
    ensures
        parse_records(buf, p, es.len(), wide) == Ok::<(Seq<(Seq<u8>, u32)>, int), DataError>(
            (es, p + records(es, wide).len()),
        ),
    decreases es.len(),
{
    if es.len() > 0 {
        let init = es.drop_last();
        let a = records(init, wide);
        let b = record(es.last(), wide);
        assert(records(es, wide) == a + b);
        assert(buf.subrange(p, p + a.len()) =~= records(es, wide).subrange(0, a.len() as int));
        assert(records(es, wide).subrange(0, a.len() as int) =~= a);
        assert forall|i: int|
            0 <= i < init.len() implies if wide {
                (#[trigger] init[i]).0.len() <= 0xFFFF_FFFF
            } else {
                init[i].0.len() <= 0xFFFF
            } by {
            assert(init[i] == es[i]);
        }
        lemma_parse_records(buf, p, init, wide);
        assert(buf.subrange(p + a.len(), p + a.len() + b.len()) =~= records(es, wide).subrange(
            a.len() as int,
            (a.len() + b.len()) as int,
        ));
        assert(records(es, wide).subrange(a.len() as int, (a.len() + b.len()) as int) =~= b);
        assert(es.last() == es[es.len() - 1]);
        lemma_parse_record(buf, p + a.len(), es.last(), wide);
        assert(init.push(es.last()) =~= es);
    } else {
        assert(es =~= Seq::<(Seq<u8>, u32)>::empty());
    }
}

/// Reading back a written blob gives the same blob, when every length fits
/// its field, the name is UTF-8, and the file fits in memory.
#[verifier::spinoff_prover]
#[verifier::rlimit(80)]
pub proof fn lemma_blob_round_trip(m: BlobModel)
    requires
        fits(m),
        valid_utf8(m.name),
        blob_file(m).len() <= usize::MAX,
    ensures
        parse_blob(blob_file(m)) == Ok::<BlobModel, DataError>(m),
{
    lemma_auto_spec_u16_to_from_le_bytes();
    lemma_auto_spec_u32_to_from_le_bytes();
    lemma_auto_spec_u64_to_from_le_bytes();
    let f = blob_file(m);
    let body = blob_body(m);
    let h = magic() + spec_u16_to_le_bytes(VERSION) + spec_u16_to_le_bytes(0)
        + spec_u64_to_le_bytes(fnv1a_spec(body));
    assert(h.len() == 20);
    assert(f =~= h + body);
    assert(f.subrange(0, 8) =~= magic());
    assert(f.subrange(8, 10) =~= spec_u16_to_le_bytes(VERSION));
    assert(f.subrange(12, 20) =~= spec_u64_to_le_bytes(fnv1a_spec(body)));
    assert(f.subrange(20, f.len() as int) =~= body);
    let nl = m.name.len() as int;
    let p0 = 22;
    let p1 = 22 + nl;
    let p2 = p1 + 12;
    let p3 = p2 + 2;
    let ra = records(m.ranks, true);
    let sa = records(m.specials, false);
    let p4 = p3 + ra.len();
    assert(f.subrange(20, 22) =~= spec_u16_to_le_bytes(m.name.len() as u16));
    assert(f.subrange(p0, p1) =~= m.name);
    assert(f.subrange(p1, p1 + 4) =~= spec_u32_to_le_bytes(m.ranks.len() as u32));
    assert(f.subrange(p1 + 4, p1 + 8) =~= spec_u32_to_le_bytes(m.specials.len() as u32));
    assert(f.subrange(p1 + 8, p2) =~= spec_u32_to_le_bytes(m.max_id));
    assert(f[p2] == m.grammar && f[p2 + 1] == m.normalizer);
    assert(f.subrange(p3, p4) =~= ra);
    assert(f.subrange(p4, p4 + sa.len()) =~= sa);
    assert(f.len() == p4 + sa.len());
    lemma_parse_records(f, p3, m.ranks, true);
    lemma_parse_records(f, p4, m.specials, false);
}

/// A special-token record stands at `p` of `buf`: a 2-byte little-endian
/// length, the bytes, then the id as 4 little-endian bytes.
pub open spec fn special_at(buf: Seq<u8>, p: int, e: (Seq<u8>, u32)) -> bool {
    let n = e.0.len() as int;
    &&& 0 <= p
    &&& p + 2 + n + 4 <= buf.len()
    &&& buf.subrange(p, p + 2) == spec_u16_to_le_bytes(e.0.len() as u16)
    &&& buf.subrange(p + 2, p + 2 + n) == e.0
    &&& buf.subrange(p + 2 + n, p + 2 + n + 4) == spec_u32_to_le_bytes(e.1)
}

/// Some record of `buf` holds `e` in the special-token layout.
pub open spec fn special_stored(buf: Seq<u8>, e: (Seq<u8>, u32)) -> bool {
    exists|p: int| special_at(buf, p, e)
}

/// A written blob with special tokens ends with the record of the last one,
/// laid out with a 2-byte length.
#[verifier::spinoff_prover]
pub proof fn lemma_blob_ends_with_special(m: BlobModel)
    requires
        m.specials.len() > 0,
    ensures
        blob_file(m).len() >= m.specials.last().0.len() + 6,
        special_at(
            blob_file(m),
            blob_file(m).len() - (m.specials.last().0.len() + 6),
            m.specials.last(),
        ),
{
    lemma_auto_spec_u16_to_from_le_bytes();
    lemma_auto_spec_u32_to_from_le_bytes();
    let e = m.specials.last();
    let n = e.0.len() as int;
    let rec = special_record(e);
    assert(rec.len() == n + 6);
    let body = blob_body(m);
    let written = records(m.specials, false);
    assert(written == records(m.specials.drop_last(), false) + rec);
    let t = rec.len() as int;
    assert(written.subrange(written.len() - t, written.len() as int) =~= rec);
    assert(body.subrange(body.len() - t, body.len() as int) =~= written.subrange(
        written.len() - t,
        written.len() as int,
    ));
    let f = blob_file(m);
    assert(f.subrange(f.len() - t, f.len() as int) =~= body.subrange(
        body.len() - t,
        body.len() as int,
    ));
    let p = f.len() - t;
    assert(f.subrange(p, p + 2) =~= rec.subrange(0, 2));
    assert(rec.subrange(0, 2) =~= spec_u16_to_le_bytes(e.0.len() as u16));
    assert(f.subrange(p + 2, p + 2 + n) =~= rec.subrange(2, 2 + n));
    assert(rec.subrange(2, 2 + n) =~= e.0);
    assert(f.subrange(p + 2 + n, p + 2 + n + 4) =~= rec.subrange(2 + n, 6 + n));
    assert(rec.subrange(2 + n, 6 + n) =~= spec_u32_to_le_bytes(e.1));
}

proof fn lemma_parsed_specials_layout(
    buf: Seq<u8>,
    pos: int,
    k: nat,
    es: Seq<(Seq<u8>, u32)>,
    q: int,
)
    requires
        0 <= pos,
        parse_records(buf, pos, k, false) == Ok::<(Seq<(Seq<u8>, u32)>, int), DataError>((es, q)),
    ensures
        forall|i: int| 0 <= i < es.len() ==> special_stored(buf, #[trigger] es[i]),
        q >= pos,
    decreases k,
{
    lemma_auto_spec_u16_to_from_le_bytes();
    lemma_auto_spec_u32_to_from_le_bytes();
    if k > 0 {
        let km = (k - 1) as nat;
        let (es0, p) = parse_records(buf, pos, km, false)->Ok_0;
        lemma_parsed_specials_layout(buf, pos, km, es0, p);
        let (e, q1) = parse_record(buf, p, false)->Ok_0;
        assert(es == es0.push(e) && q == q1);
        let p1 = p + 2;
        let n = spec_u16_from_le_bytes(buf.subrange(p, p1)) as int;
        assert(take_spec(buf.len() as int, p, 2) == Ok::<int, DataError>(p1));
        assert(take_spec(buf.len() as int, p1, n) == Ok::<int, DataError>(p1 + n));
        assert(take_spec(buf.len() as int, p1 + n, 4) == Ok::<int, DataError>(p1 + n + 4));
        assert(q == p1 + n + 4);
        assert(e.1 == spec_u32_from_le_bytes(buf.subrange(p1 + n, q)));
        assert(buf.subrange(p1 + n, q).len() == 4);
        assert(e.0 == buf.subrange(p1, p1 + n));
        assert(e.0.len() == n);
        assert(spec_u16_to_le_bytes(e.0.len() as u16) == spec_u16_to_le_bytes(
            spec_u16_from_le_bytes(buf.subrange(p, p1)),
        ));
        assert(special_at(buf, p, e));
        assert forall|i: int| 0 <= i < es.len() implies special_stored(buf, #[trigger] es[i]) by {
            if i < es0.len() {
                assert(es[i] == es0[i]);
            } else {
                assert(es[i] == e);
            }
        }
    }
}

/// Every special token that reading a blob gives was stored as a record
/// with a 2-byte little-endian length, its bytes and a 4-byte id.
pub proof fn lemma_read_specials_layout(buf: Seq<u8>)
    requires
        parse_blob(buf) is Ok,
    ensures
        forall|i: int|
            0 <= i < parse_blob(buf)->Ok_0.specials.len() ==> special_stored(
                buf,
                #[trigger] parse_blob(buf)->Ok_0.specials[i],
            ),
{
    let version = spec_u16_from_le_bytes(buf.subrange(8, 10));
    let len = buf.len() as int;
    let p0 = 22int;
    let name_len = spec_u16_from_le_bytes(buf.subrange(20, p0)) as int;
    let p1 = p0 + name_len;
    let p2 = p1 + 12;
    let n_ranks = spec_u32_from_le_bytes(buf.subrange(p1, p1 + 4));
    let n_special = spec_u32_from_le_bytes(buf.subrange(p1 + 4, p1 + 8));
    let p3 = if version >= 2 {
        p2 + 2
    } else {
        p2
    };
    let p4 = parse_records(buf, p3, n_ranks as nat, true)->Ok_0.1;
    lemma_ranks_end_after(buf, p3, n_ranks as nat);
    let (es, q) = parse_records(buf, p4, n_special as nat, false)->Ok_0;
    lemma_parsed_specials_layout(buf, p4, n_special as nat, es, q);
    assert(parse_blob(buf)->Ok_0.specials == es);
}

proof fn lemma_ranks_end_after(buf: Seq<u8>, pos: int, k: nat)
    requires
        0 <= pos,
    ensures
        parse_records(buf, pos, k, true) is Ok ==> parse_records(buf, pos, k, true)->Ok_0.1 >= pos,
    decreases k,
{
    if k > 0 {
        lemma_ranks_end_after(buf, pos, (k - 1) as nat);
    }
}

/// A rank record stands at `p` of `buf`: a 4-byte little-endian length, the
/// bytes, then the rank as 4 little-endian bytes.
pub open spec fn rank_at(buf: Seq<u8>, p: int, e: (Seq<u8>, u32)) -> bool {
    let n = e.0.len() as int;
    &&& 0 <= p
    &&& p + 4 + n + 4 <= buf.len()
    &&& buf.subrange(p, p + 4) == spec_u32_to_le_bytes(e.0.len() as u32)
    &&& buf.subrange(p + 4, p + 4 + n) == e.0
    &&& buf.subrange(p + 4 + n, p + 4 + n + 4) == spec_u32_to_le_bytes(e.1)
}

/// Some record of `buf` holds `e` in the rank layout.
pub open spec fn rank_stored(buf: Seq<u8>, e: (Seq<u8>, u32)) -> bool {
    exists|p: int| rank_at(buf, p, e)
}

proof fn lemma_parsed_ranks_layout(
    buf: Seq<u8>,
    pos: int,
    k: nat,
    es: Seq<(Seq<u8>, u32)>,
    q: int,
)
    requires
        0 <= pos,
        parse_records(buf, pos, k, true) == Ok::<(Seq<(Seq<u8>, u32)>, int), DataError>((es, q)),
    ensures
        forall|i: int| 0 <= i < es.len() ==> rank_stored(buf, #[trigger] es[i]),
        q >= pos,
    decreases k,
{
    lemma_auto_spec_u32_to_from_le_bytes();
    if k > 0 {
        let km = (k - 1) as nat;
        let (es0, p) = parse_records(buf, pos, km, true)->Ok_0;
        lemma_parsed_ranks_layout(buf, pos, km, es0, p);
        let (e, q1) = parse_record(buf, p, true)->Ok_0;
        assert(es == es0.push(e) && q == q1);
        let p1 = p + 4;
        let n = spec_u32_from_le_bytes(buf.subrange(p, p1)) as int;
        assert(take_spec(buf.len() as int, p, 4) == Ok::<int, DataError>(p1));
        assert(take_spec(buf.len() as int, p1, n) == Ok::<int, DataError>(p1 + n));
        assert(take_spec(buf.len() as int, p1 + n, 4) == Ok::<int, DataError>(p1 + n + 4));
        assert(q == p1 + n + 4);
        assert(e.1 == spec_u32_from_le_bytes(buf.subrange(p1 + n, q)));
        assert(buf.subrange(p1 + n, q).len() == 4);
        assert(e.0 == buf.subrange(p1, p1 + n));
        assert(e.0.len() == n);
        assert(spec_u32_to_le_bytes(e.0.len() as u32) == spec_u32_to_le_bytes(
            spec_u32_from_le_bytes(buf.subrange(p, p1)),
        ));
        assert(rank_at(buf, p, e));
        assert forall|i: int| 0 <= i < es.len() implies rank_stored(buf, #[trigger] es[i]) by {
            if i < es0.len() {
                assert(es[i] == es0[i]);
            } else {
                assert(es[i] == e);
            }
        }
    }
}

/// Every rank entry that reading a blob gives was stored as a record with a
/// 4-byte little-endian length, its bytes and a 4-byte rank.
pub proof fn lemma_read_ranks_layout(buf: Seq<u8>)
    requires
        parse_blob(buf) is Ok,
    ensures
        forall|i: int|
            0 <= i < parse_blob(buf)->Ok_0.ranks.len() ==> rank_stored(
                buf,
                #[trigger] parse_blob(buf)->Ok_0.ranks[i],
            ),
{
    let version = spec_u16_from_le_bytes(buf.subrange(8, 10));
    let p0 = 22int;
    let name_len = spec_u16_from_le_bytes(buf.subrange(20, p0)) as int;
    let p1 = p0 + name_len;
    let p2 = p1 + 12;
    let n_ranks = spec_u32_from_le_bytes(buf.subrange(p1, p1 + 4));
    let p3 = if version >= 2 {
        p2 + 2
    } else {
        p2
    };
    let (es, q) = parse_records(buf, p3, n_ranks as nat, true)->Ok_0;
    lemma_parsed_ranks_layout(buf, p3, n_ranks as nat, es, q);
    assert(parse_blob(buf)->Ok_0.ranks == es);
}

/// A written blob starts with the eight bytes `SONICTK\0`, the version 2 and
/// zero flags as 2-byte little-endian numbers, and the FNV-1a checksum of
/// everything after it as 8 bytes; then come the name's length as 2 bytes,
/// the name, the numbers of rank and special records and the largest id as
/// 4 bytes each, and the grammar and normalizer bytes.
#[verifier::spinoff_prover]
pub proof fn lemma_blob_header_layout(m: BlobModel)
    ensures
        ({
            let f = blob_file(m);
            let nl = m.name.len() as int;
            &&& f.len() >= 36 + nl
            &&& f.subrange(0, 8) == seq![0x53u8, 0x4F, 0x4E, 0x49, 0x43, 0x54, 0x4B, 0x00]
            &&& f.subrange(8, 10) == spec_u16_to_le_bytes(2u16)
            &&& f.subrange(10, 12) == spec_u16_to_le_bytes(0u16)
            &&& f.subrange(12, 20) == spec_u64_to_le_bytes(fnv1a_spec(f.subrange(20, f.len() as int)))
            &&& f.subrange(20, 22) == spec_u16_to_le_bytes(m.name.len() as u16)
            &&& f.subrange(22, 22 + nl) == m.name
            &&& f.subrange(22 + nl, 26 + nl) == spec_u32_to_le_bytes(m.ranks.len() as u32)
            &&& f.subrange(26 + nl, 30 + nl) == spec_u32_to_le_bytes(m.specials.len() as u32)
            &&& f.subrange(30 + nl, 34 + nl) == spec_u32_to_le_bytes(m.max_id)
            &&& f[34 + nl] == m.grammar
            &&& f[35 + nl] == m.normalizer
        }),
{
    lemma_auto_spec_u16_to_from_le_bytes();
    lemma_auto_spec_u32_to_from_le_bytes();
    lemma_auto_spec_u64_to_from_le_bytes();
    let f = blob_file(m);
    let body = blob_body(m);
    let nl = m.name.len() as int;
    let h = magic() + spec_u16_to_le_bytes(VERSION) + spec_u16_to_le_bytes(0)
        + spec_u64_to_le_bytes(fnv1a_spec(body));
    assert(h.len() == 20);
    assert(f =~= h + body);
    assert(f.subrange(0, 8) =~= magic());
    assert(f.subrange(8, 10) =~= spec_u16_to_le_bytes(VERSION));
    assert(f.subrange(10, 12) =~= spec_u16_to_le_bytes(0));
    assert(f.subrange(12, 20) =~= spec_u64_to_le_bytes(fnv1a_spec(body)));
    assert(f.subrange(20, f.len() as int) =~= body);
    assert(f.subrange(20, 22) =~= spec_u16_to_le_bytes(m.name.len() as u16));
    assert(f.subrange(22, 22 + nl) =~= m.name);
    assert(f.subrange(22 + nl, 26 + nl) =~= spec_u32_to_le_bytes(m.ranks.len() as u32));
    assert(f.subrange(26 + nl, 30 + nl) =~= spec_u32_to_le_bytes(m.specials.len() as u32));
    assert(f.subrange(30 + nl, 34 + nl) =~= spec_u32_to_le_bytes(m.max_id));
}

} // verus!
