use sonictok::bpe::byte_pair_encode;
use sonictok::rank::{Rank, RankMap};

// A toy vocab where bytes are 0..=255 and a few merges exist.
fn toy() -> RankMap {
    let mut pairs: Vec<(Vec<u8>, Rank)> =
        (0u16..256).map(|b| (vec![b as u8], b as Rank)).collect();
    // merges (rank order matters): "ab"=300 (lowest non-byte), "abc"=301
    pairs.push((b"ab".to_vec(), 300));
    pairs.push((b"abc".to_vec(), 301));
    RankMap::from_pairs(pairs)
}

#[test]
fn bpe_single_byte() {
    let v = toy();
    let mut out = vec![];
    byte_pair_encode(b"a", &v, &mut Vec::new(), &mut out);
    assert_eq!(out, vec![b'a' as Rank]);
}

#[test]
fn whole_piece_shortcut() {
    let v = toy();
    let mut out = vec![];
    byte_pair_encode(b"abc", &v, &mut Vec::new(), &mut out);
    assert_eq!(out, vec![301]); // "abc" is a single token
}

#[test]
fn merges_lowest_rank_first() {
    let v = toy();
    let mut out = vec![];
    // "abx": "ab"(300) merges, then "abx" not a token -> ["ab","x"]
    byte_pair_encode(b"abx", &v, &mut Vec::new(), &mut out);
    assert_eq!(out, vec![300, b'x' as Rank]);
}

#[test]
fn no_merges_falls_back_to_bytes() {
    let v = toy();
    let mut out = vec![];
    byte_pair_encode(b"xy", &v, &mut Vec::new(), &mut out);
    assert_eq!(out, vec![b'x' as Rank, b'y' as Rank]);
}

#[test]
fn leftmost_tie_break() {
    // Two equal-rank pairs; leftmost must merge first.
    let mut pairs: Vec<(Vec<u8>, Rank)> =
        (0u16..256).map(|b| (vec![b as u8], b as Rank)).collect();
    pairs.push((b"aa".to_vec(), 300)); // both "aa" pairs in "aaa" share rank 300
    let v = RankMap::from_pairs(pairs);
    let mut out = vec![];
    byte_pair_encode(b"aaa", &v, &mut Vec::new(), &mut out);
    // leftmost merge: ["aa","a"]
    assert_eq!(out, vec![300, b'a' as Rank]);
}

#[test]
fn lower_rank_merges_before_leftmost() {
    // "bc" (rank 260) beats "ab" (rank 270) although "ab" is further left.
    let mut pairs: Vec<(Vec<u8>, Rank)> =
        (0u16..256).map(|b| (vec![b as u8], b as Rank)).collect();
    pairs.push((b"bc".to_vec(), 260));
    pairs.push((b"ab".to_vec(), 270));
    let v = RankMap::from_pairs(pairs);
    let mut out = vec![];
    byte_pair_encode(b"abc", &v, &mut Vec::new(), &mut out);
    assert_eq!(out, vec![b'a' as Rank, 260]);
}

#[test]
fn output_appends_to_existing_ids() {
    let v = toy();
    let mut out = vec![7, 8];
    byte_pair_encode(b"xab", &v, &mut Vec::new(), &mut out);
    assert_eq!(out, vec![7, 8, b'x' as Rank, 300]);
}
