use sonictok::rank::Rank;
use sonictok::vocab::Vocab;

fn enc(v: &Vocab, piece: &[u8]) -> Vec<u32> {
    let mut out = Vec::new();
    v.encode(piece, &mut out);
    out
}

fn toy() -> Vocab {
    // Ranks must be contiguous 0..n-1 (as in tiktoken). bytes 0..256 = id b;
    // merges "ab"=256, "abc"=257.
    let mut pairs: Vec<(Vec<u8>, Rank)> =
        (0u16..256).map(|b| (vec![b as u8], b as Rank)).collect();
    pairs.push((b"ab".to_vec(), 256));
    pairs.push((b"abc".to_vec(), 257));
    Vocab::from_pairs(pairs)
}

#[test]
fn vocab_single_byte() {
    assert_eq!(enc(&toy(), b"a"), vec![b'a' as u32]);
}
#[test]
fn whole_token() {
    assert_eq!(enc(&toy(), b"abc"), vec![257]);
}
#[test]
fn longest_match() {
    // "abx": greedy longest-match "ab"(256) then "x"
    assert_eq!(enc(&toy(), b"abx"), vec![256, b'x' as u32]);
}
#[test]
fn no_merge() {
    assert_eq!(enc(&toy(), b"xy"), vec![b'x' as u32, b'y' as u32]);
}

#[test]
fn vocab_counts_tokens_and_empty_piece() {
    let v = toy();
    assert_eq!(v.n_tokens(), 258);
    assert_eq!(enc(&v, b""), Vec::<u32>::new());
}

#[test]
fn backtracks_from_invalid_greedy_pair() {
    // bytes; "bc"=256, "ab"=257, "abc" not a token. BPE merges "bc" first
    // (lower rank): "abc" -> ["a", "bc"], while greedy longest match would
    // take "ab" then "c", an invalid pair ("ab" is made after "bc").
    let mut pairs: Vec<(Vec<u8>, Rank)> =
        (0u16..256).map(|b| (vec![b as u8], b as Rank)).collect();
    pairs.push((b"bc".to_vec(), 256));
    pairs.push((b"ab".to_vec(), 257));
    let v = Vocab::from_pairs(pairs);
    assert_eq!(enc(&v, b"abc"), vec![b'a' as u32, 256]);
}

#[test]
fn pair_order_does_not_change_the_encoder() {
    let mut pairs: Vec<(Vec<u8>, Rank)> =
        (0u16..256).map(|b| (vec![b as u8], b as Rank)).collect();
    pairs.push((b"ab".to_vec(), 256));
    pairs.push((b"abc".to_vec(), 257));
    let mut rev = pairs.clone();
    rev.reverse();
    let (a, b) = (Vocab::from_pairs(pairs), Vocab::from_pairs(rev));
    for piece in [&b"abc"[..], b"abx", b"xabcab", b"a"] {
        assert_eq!(enc(&a, piece), enc(&b, piece));
    }
}
