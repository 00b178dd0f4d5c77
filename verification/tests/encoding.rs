use sonictok::encoding::{DisallowedSpecial, Engine, InvalidToken};
use sonictok::pretok::Grammar;
use sonictok::rank::{Rank, RankMap};
use sonictok::specials::{IdFilter, SpecialTokens};
use sonictok::tokenizer::DenseDecoder;

// Build a byte-only vocab (ids 0..256 == bytes) + decoder for round-trip.
fn byte_vocab() -> (RankMap, DenseDecoder) {
    let pairs: Vec<(Vec<u8>, Rank)> = (0u16..256).map(|b| (vec![b as u8], b as Rank)).collect();
    let dec: Vec<Option<Vec<u8>>> = (0u16..256).map(|b| Some(vec![b as u8])).collect();
    (RankMap::from_pairs(pairs), DenseDecoder::new(dec))
}

#[test]
fn ordinary_roundtrip() {
    let (v, d) = byte_vocab();
    let sp = SpecialTokens::new(vec![]);
    let eng = Engine::new(&v, &d, &sp, Grammar::Cl100k);
    let mut ids = vec![];
    eng.encode_ordinary_into("hello world", &mut ids);
    let mut back = vec![];
    eng.decode_into(&ids, &mut back).unwrap();
    assert_eq!(back, b"hello world");
}

#[test]
fn count_matches_len() {
    let (v, d) = byte_vocab();
    let sp = SpecialTokens::new(vec![]);
    let eng = Engine::new(&v, &d, &sp, Grammar::Cl100k);
    let mut ids = vec![];
    eng.encode_ordinary_into("abc 123", &mut ids);
    assert_eq!(eng.count("abc 123"), ids.len());
}

#[test]
fn disallowed_special_errors() {
    let (v, d) = byte_vocab();
    let sp = SpecialTokens::new(vec![(b"<|endoftext|>".to_vec(), 100257)]);
    let eng = Engine::new(&v, &d, &sp, Grammar::Cl100k);
    let mut ids = vec![];
    let deny_all = IdFilter::Nothing;
    let err = eng
        .encode_into("a<|endoftext|>b", &deny_all, &mut ids)
        .unwrap_err();
    assert_eq!(err.offset, 1);
    assert_eq!(err.token, b"<|endoftext|>");
}

#[test]
fn with_special_emits_id() {
    let (v, d) = byte_vocab();
    let sp = SpecialTokens::new(vec![(b"<|endoftext|>".to_vec(), 100257)]);
    let eng = Engine::new(&v, &d, &sp, Grammar::Cl100k);
    let mut ids = vec![];
    eng.encode_with_special_into("a<|endoftext|>", &mut ids);
    assert_eq!(*ids.last().unwrap(), 100257);
    let mut back = vec![];
    eng.decode_into(&ids, &mut back).unwrap();
    assert_eq!(back, b"a<|endoftext|>");
}

#[test]
fn allowed_special_splits_text() {
    let (v, d) = byte_vocab();
    let sp = SpecialTokens::new(vec![(b"<|x|>".to_vec(), 9000)]);
    let eng = Engine::new(&v, &d, &sp, Grammar::Cl100k);
    let mut ids = vec![];
    let only = IdFilter::Only(vec![9000]);
    eng.encode_into("ab<|x|>c", &only, &mut ids).unwrap();
    assert_eq!(ids, vec![b'a' as Rank, b'b' as Rank, 9000, b'c' as Rank]);
}

#[test]
fn disallowed_check_comes_first() {
    // A disallowed special anywhere fails the call and leaves the output alone.
    let (v, d) = byte_vocab();
    let sp = SpecialTokens::new(vec![(b"<a>".to_vec(), 9001), (b"<b>".to_vec(), 9002)]);
    let eng = Engine::new(&v, &d, &sp, Grammar::Cl100k);
    let mut ids = vec![5];
    let only_a = IdFilter::Only(vec![9001]);
    let err = eng.encode_into("<a>x<b>", &only_a, &mut ids).unwrap_err();
    assert_eq!(err, DisallowedSpecial { token: b"<b>".to_vec(), offset: 4 });
    assert_eq!(ids, vec![5]);
}

#[test]
fn decode_reports_first_invalid_id() {
    let (v, d) = byte_vocab();
    let sp = SpecialTokens::new(vec![(b"<s>".to_vec(), 500)]);
    let eng = Engine::new(&v, &d, &sp, Grammar::Cl100k);
    let mut back = vec![];
    let r = eng.decode_into(&[b'o' as Rank, 500, 777, 888], &mut back);
    assert_eq!(r, Err(InvalidToken(777)));
    assert_eq!(back, b"o<s>");
}

#[test]
fn pieces_are_encoded_separately() {
    // "ab" merges inside a word but never across the piece boundary " b".
    let mut pairs: Vec<(Vec<u8>, Rank)> = (0u16..256).map(|b| (vec![b as u8], b as Rank)).collect();
    pairs.push((b"a b".to_vec(), 300));
    pairs.push((b" b".to_vec(), 301));
    let v = RankMap::from_pairs(pairs);
    let d = DenseDecoder::new(vec![]);
    let sp = SpecialTokens::new(vec![]);
    let eng = Engine::new(&v, &d, &sp, Grammar::Cl100k);
    let mut ids = vec![];
    eng.encode_ordinary_into("a b", &mut ids);
    assert_eq!(ids, vec![b'a' as Rank, 301]);
}
