use sonictok::encoding::Engine;
use sonictok::oracle::{Oracle, CL100K_PAT, O200K_PAT};
use sonictok::pretok::Grammar;
use sonictok::rank::{Rank, RankMap};
use sonictok::specials::SpecialTokens;
use sonictok::tokenizer::DenseDecoder;

fn vocab() -> Vec<(Vec<u8>, Rank)> {
    let mut pairs: Vec<(Vec<u8>, Rank)> = (0u16..256).map(|b| (vec![b as u8], b as Rank)).collect();
    for (i, t) in ["he", "ll", "hell", "hello", " w", "or", " wor", " world", "12", "'s"].iter().enumerate() {
        pairs.push((t.as_bytes().to_vec(), 256 + i as Rank));
    }
    pairs
}

fn engine_ids(g: Grammar, text: &str) -> Vec<Rank> {
    let m = RankMap::from_pairs(vocab());
    let d = DenseDecoder::new(vec![]);
    let sp = SpecialTokens::new(vec![]);
    let eng = Engine::new(&m, &d, &sp, g);
    let mut out = vec![];
    eng.encode_ordinary_into(text, &mut out);
    out
}

#[test]
fn oracle_agrees_with_scanner_cl100k() {
    let o = Oracle::from(CL100K_PAT, vocab()).unwrap();
    for s in ["hello world", "it's 1234 words!\n\n  x", "日本語 test", "  a   b  "] {
        assert_eq!(o.encode_ordinary(s).unwrap(), engine_ids(Grammar::Cl100k, s), "{s:?}");
    }
}

#[test]
fn oracle_agrees_with_scanner_o200k() {
    let o = Oracle::from(O200K_PAT, vocab()).unwrap();
    for s in ["hello world", "camelCase HTTPS a/b/c", "don't 99999"] {
        assert_eq!(o.encode_ordinary(s).unwrap(), engine_ids(Grammar::O200k, s), "{s:?}");
    }
}

#[test]
fn bad_pattern_gives_no_oracle() {
    assert!(Oracle::from("(", vocab()).is_none());
}

#[test]
fn oracle_encodes_given_spans() {
    let o = Oracle::from(CL100K_PAT, vocab()).unwrap();
    assert_eq!(o.encode_spans("hello world", &[(0, 5), (5, 5), (5, 11)]), vec![259, 263]);
    assert_eq!(o.encode_spans("hello world", &[(0, 2), (2, 4)]), vec![256, 257]);
    assert_eq!(o.encode_spans("hello", &[]), Vec::<Rank>::new());
    assert_eq!(o.encode_ordinary("hello world").unwrap(), vec![259, 263]);
}
