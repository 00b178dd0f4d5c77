use sonictok::blob::{DataError, VocabBlob};

fn sample() -> VocabBlob {
    VocabBlob {
        name: "cl100k_base".into(),
        max_id: 100276,
        grammar: 2,
        normalizer: 1,
        ranks: vec![(b"a".to_vec(), 0), (b"ab".to_vec(), 1)],
        specials: vec![(b"<|endoftext|>".to_vec(), 100257)],
    }
}

#[test]
fn round_trip() {
    let b = sample();
    let bytes = b.to_bytes();
    let got = VocabBlob::from_bytes(&bytes).unwrap();
    assert_eq!(got.name, "cl100k_base");
    assert_eq!(got.max_id, 100276);
    assert_eq!(got.grammar, 2);
    assert_eq!(got.normalizer, 1);
    assert_eq!(got.ranks, b.ranks);
    assert_eq!(got.specials, b.specials);
}

#[test]
fn bad_magic() {
    let mut bytes = sample().to_bytes();
    bytes[0] = b'X';
    assert!(matches!(
        VocabBlob::from_bytes(&bytes),
        Err(DataError::BadMagic)
    ));
}

#[test]
fn checksum_detects_corruption() {
    let mut bytes = sample().to_bytes();
    let n = bytes.len();
    bytes[n - 1] ^= 0xFF; // flip a body byte
    assert!(matches!(
        VocabBlob::from_bytes(&bytes),
        Err(DataError::Checksum { .. })
    ));
}

#[test]
fn truncated() {
    let bytes = sample().to_bytes();
    assert!(matches!(
        VocabBlob::from_bytes(&bytes[..bytes.len() - 3]),
        Err(DataError::Checksum { .. }) | Err(DataError::Corrupt(_))
    ));
}

#[test]
fn header_layout() {
    let bytes = sample().to_bytes();
    assert_eq!(&bytes[0..8], b"SONICTK\0");
    assert_eq!(&bytes[8..10], &[2, 0]);
    assert_eq!(&bytes[10..12], &[0, 0]);
    // name length, then the name
    assert_eq!(&bytes[20..22], &[11, 0]);
    assert_eq!(&bytes[22..33], b"cl100k_base");
}

#[test]
fn newer_version_refused() {
    let mut bytes = sample().to_bytes();
    bytes[8] = 3;
    assert!(matches!(
        VocabBlob::from_bytes(&bytes),
        Err(DataError::UnsupportedVersion(3, 2))
    ));
}

#[test]
fn short_buffers_are_truncated() {
    assert!(matches!(VocabBlob::from_bytes(b"SONI"), Err(DataError::Corrupt("truncated"))));
    assert!(matches!(VocabBlob::from_bytes(b""), Err(DataError::Corrupt("truncated"))));
}

#[test]
fn checksum_values_are_reported() {
    let mut bytes = sample().to_bytes();
    bytes[12] ^= 1; // corrupt the stored checksum itself
    match VocabBlob::from_bytes(&bytes) {
        Err(DataError::Checksum { expected, actual }) => assert_eq!(expected ^ 1, actual),
        _ => panic!("expected a checksum error"),
    }
}

#[test]
fn version_one_blob_has_unknown_grammar() {
    // Rebuild a v1 blob by hand: no grammar/normalizer bytes.
    let mut body: Vec<u8> = Vec::new();
    body.extend_from_slice(&2u16.to_le_bytes());
    body.extend_from_slice(b"v1");
    body.extend_from_slice(&1u32.to_le_bytes());
    body.extend_from_slice(&0u32.to_le_bytes());
    body.extend_from_slice(&5u32.to_le_bytes());
    body.extend_from_slice(&1u32.to_le_bytes());
    body.push(b'z');
    body.extend_from_slice(&5u32.to_le_bytes());
    let mut h: u64 = 0xcbf2_9ce4_8422_2325;
    for &b in &body {
        h ^= b as u64;
        h = h.wrapping_mul(0x0000_0100_0000_01B3);
    }
    let mut bytes = b"SONICTK\0".to_vec();
    bytes.extend_from_slice(&1u16.to_le_bytes());
    bytes.extend_from_slice(&0u16.to_le_bytes());
    bytes.extend_from_slice(&h.to_le_bytes());
    bytes.extend_from_slice(&body);
    let got = VocabBlob::from_bytes(&bytes).unwrap();
    assert_eq!(got.name, "v1");
    assert_eq!(got.grammar, 255);
    assert_eq!(got.normalizer, 0);
    assert_eq!(got.max_id, 5);
    assert_eq!(got.ranks, vec![(b"z".to_vec(), 5)]);
}
