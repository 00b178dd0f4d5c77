use sonictok::hash::{hash_key, FxHasher, K};
use sonictok::rank::{Rank, RankLookup, RankMap, RANK_MAX};

#[test]
fn lookup_all_lengths() {
    let m = RankMap::from_pairs(vec![
        (b"a".to_vec(), 1),
        (b"ab".to_vec(), 2),
        (b"abc".to_vec(), 3),
        (b"abcdefg".to_vec(), 7),      // len 7 (short max)
        (b"abcdefgh".to_vec(), 8),     // len 8 (long)
        (b"abcdefghijk".to_vec(), 11), // long
    ]);
    assert_eq!(m.get(b"a"), Some(1));
    assert_eq!(m.get(b"ab"), Some(2));
    assert_eq!(m.get(b"abc"), Some(3));
    assert_eq!(m.get(b"abcdefg"), Some(7));
    assert_eq!(m.get(b"abcdefgh"), Some(8));
    assert_eq!(m.get(b"abcdefghijk"), Some(11));
    assert_eq!(m.get(b"zzz"), None);
    assert_eq!(m.get(b""), None);
    assert_eq!(m.get_pair(b'a', b'b'), 2);
    assert_eq!(m.get_pair(b'b', b'a'), RANK_MAX);
    assert_eq!(m.len(), 6);
}

#[test]
fn reverse_lookup() {
    let m = RankMap::from_pairs(vec![(b"ab".to_vec(), 7), (b"hello".to_vec(), 9)]);
    assert_eq!(m.bytes_for(7).as_deref(), Some(&b"ab"[..]));
    assert_eq!(m.bytes_for(9).as_deref(), Some(&b"hello"[..]));
    assert_eq!(m.bytes_for(42), None);
}

#[test]
fn short_table_many() {
    let pairs: Vec<(Vec<u8>, Rank)> = (0u32..6000)
        .map(|i| (format!("t{i}").into_bytes(), i))
        .collect();
    let m = RankMap::from_pairs(pairs.clone());
    for (k, v) in &pairs {
        assert_eq!(m.get(k), Some(*v));
    }
    assert_eq!(m.get(b"t999999"), None);
}

#[test]
fn duplicate_keys_follow_load_order() {
    // one and two bytes: the last rank written; 3..=7 bytes: the first; 8+: the last.
    let m = RankMap::from_pairs(vec![
        (b"q".to_vec(), 1),
        (b"q".to_vec(), 2),
        (b"xyz".to_vec(), 3),
        (b"xyz".to_vec(), 4),
        (b"longer-key".to_vec(), 5),
        (b"longer-key".to_vec(), 6),
    ]);
    assert_eq!(m.get(b"q"), Some(2));
    assert_eq!(m.get(b"xyz"), Some(3));
    assert_eq!(m.get(b"longer-key"), Some(6));
    assert_eq!(m.len(), 6);
}

#[test]
fn sentinel_rank_reads_as_absent_for_short_keys() {
    let m = RankMap::from_pairs(vec![(b"z".to_vec(), RANK_MAX), (b"zz".to_vec(), RANK_MAX)]);
    assert_eq!(m.get(b"z"), None);
    assert_eq!(m.get(b"zz"), None);
    assert_eq!(m.get_pair(b'z', b'z'), RANK_MAX);
}

#[test]
fn empty_and_default_maps() {
    let m = RankMap::from_pairs(vec![]);
    assert!(m.is_empty());
    assert_eq!(m.get(b"abc"), None);
    let d = RankMap::default();
    assert_eq!(d.len(), 0);
    assert_eq!(d.get(b"a"), None);
    assert_eq!(d.get(b"abcdefghij"), None);
}

#[test]
fn reverse_lookup_prefers_single_bytes_in_byte_order() {
    let m = RankMap::from_pairs(vec![(b"d".to_vec(), 4), (b"c".to_vec(), 4), (b"ab".to_vec(), 4)]);
    assert_eq!(m.bytes_for(4), Some(b"c".to_vec()));
    let long = RankMap::from_pairs(vec![(b"0123456789".to_vec(), 12)]);
    assert_eq!(long.bytes_for(12), Some(b"0123456789".to_vec()));
}

#[test]
fn hasher_matches_bytewise_fx_steps() {
    let mut h = FxHasher::new();
    h.write_usize(3);
    h.write_u8(b'a');
    h.write_u8(b'b');
    h.write_u8(b'c');
    assert_eq!(hash_key(b"abc"), h.finish());
    let step = |h: u64, i: u64| (h.rotate_left(5) ^ i).wrapping_mul(K);
    assert_eq!(hash_key(b""), step(0, 0));
    let _ = Rank::MAX;
}

#[test]
fn reverse_lookup_of_rank_max_is_none() {
    let m = RankMap::from_pairs(vec![(b"a".to_vec(), 0), (b"bc".to_vec(), 1)]);
    assert_eq!(m.bytes_for(RANK_MAX), None);
    assert_eq!(RankMap::default().bytes_for(RANK_MAX), None);
}
