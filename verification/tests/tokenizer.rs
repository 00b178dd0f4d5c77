use sonictok::blob::VocabBlob;
use sonictok::tokenizer::{encoding_supported, Allowed, DecodeError, EncodeError, Tokenizer};

fn toy_blob() -> VocabBlob {
    let mut ranks: Vec<(Vec<u8>, u32)> = (0u16..256).map(|b| (vec![b as u8], b as u32)).collect();
    ranks.push((b"he".to_vec(), 256));
    ranks.push((b"ll".to_vec(), 257));
    ranks.push((b"hell".to_vec(), 258));
    ranks.push((b"hello".to_vec(), 259));
    VocabBlob {
        name: "toy".into(),
        max_id: 300,
        grammar: 0,
        normalizer: 0,
        ranks,
        specials: vec![(b"<|end|>".to_vec(), 300)],
    }
}

#[test]
fn tokenizer_round_trip_and_sizes() {
    let t = Tokenizer::from_blob(toy_blob());
    assert!(t.is_complete());
    assert!(t.specials_are_utf8());
    let ids = t.encode_ordinary("hello world");
    assert_eq!(ids[0], 259);
    assert_eq!(t.decode(&ids).unwrap(), "hello world");
    assert_eq!(t.count("hello world"), ids.len());
    assert_eq!(t.vocab_size(), 260);
    assert_eq!(t.n_vocab(), 301);
    assert_eq!(t.encoding(), "toy");
}

#[test]
fn tokenizer_special_semantics() {
    let t = Tokenizer::from_blob(toy_blob());
    let err = t.encode("a<|end|>", Allowed::Nothing).unwrap_err();
    assert_eq!(err, EncodeError { token: "<|end|>".to_string(), offset: 1 });
    let ids = t.encode("a<|end|>", Allowed::All).unwrap();
    assert_eq!(*ids.last().unwrap(), 300);
    let names = ["<|end|>"];
    let ids = t.encode("a<|end|>", Allowed::Names(&names)).unwrap();
    assert_eq!(ids, vec![b'a' as u32, 300]);
    assert_eq!(t.encode_with_special("<|end|>"), vec![300]);
    assert_eq!(t.decode_bytes(&[300]).unwrap(), b"<|end|>");
    assert_eq!(t.special_tokens(), vec![("<|end|>".to_string(), 300)]);
}

#[test]
fn tokenizer_decode_errors_and_lossy_text() {
    let t = Tokenizer::from_blob(toy_blob());
    assert_eq!(t.decode(&[b'a' as u32, 299]), Err(DecodeError(299)));
    assert_eq!(t.decode(&[0xFF]).unwrap(), "\u{FFFD}");
}

#[test]
fn tokenizer_loads_from_blob_bytes() {
    let bytes = toy_blob().to_bytes();
    let t = Tokenizer::from_blob_bytes(&bytes).unwrap();
    assert_eq!(t.encode_ordinary("hell"), vec![258]);
    assert!(Tokenizer::from_blob_bytes(&bytes[..10]).is_err());
    assert!(encoding_supported("cl100k_base"));
    assert!(encoding_supported("o200k_base"));
    assert!(encoding_supported("o200k_harmony"));
    assert!(!encoding_supported("qwen3"));
}

#[test]
fn tokenizer_special_round_trip() {
    let t = Tokenizer::from_blob(toy_blob());
    let text = "hello<|end|> world<|end|><|end|>!";
    let ids = t.encode_with_special(text);
    assert_eq!(ids.iter().filter(|&&i| i == 300).count(), 3);
    assert_eq!(t.decode(&ids).unwrap(), text);
    let ids = t.encode(text, Allowed::All).unwrap();
    assert_eq!(t.decode(&ids).unwrap(), text);
}

#[test]
fn tokenizer_refuses_ids_above_max_id() {
    let mut blob = toy_blob();
    blob.max_id = 10;
    let bytes = blob.to_bytes();
    let r = Tokenizer::from_blob_bytes(&bytes);
    assert!(matches!(
        r,
        Err(sonictok::tokenizer::Error::Data(sonictok::blob::DataError::Corrupt(_)))
    ));
}

#[test]
fn tokenizer_uses_the_blob_grammar() {
    let mut blob = toy_blob();
    blob.ranks.push((b"lC".to_vec(), 260));
    let cl = Tokenizer::from_blob(blob.clone());
    assert!(cl.encode_ordinary("camelCase").contains(&260));
    blob.grammar = 1;
    let o2 = Tokenizer::from_blob(blob.clone());
    assert!(!o2.encode_ordinary("camelCase").contains(&260));
    blob.grammar = 255;
    blob.name = "o200k_base".into();
    let o2 = Tokenizer::from_blob(blob);
    assert!(!o2.encode_ordinary("camelCase").contains(&260));
}
