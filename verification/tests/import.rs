use sonictok::blob::VocabBlob;
use sonictok::import::{build_blob, parse_rank_line, parse_special_line, parse_u32, ImportError};

#[test]
fn rank_lines_decode_base64() {
    assert_eq!(parse_rank_line(b"YWI= 7"), Ok((b"ab".to_vec(), 7)));
    assert_eq!(parse_rank_line(b"IQ== 0"), Ok((b"!".to_vec(), 0)));
    assert_eq!(parse_rank_line(b"YWI=7"), Err(ImportError::MalformedRankLine));
    assert_eq!(parse_rank_line(b"@@@@ 7"), Err(ImportError::BadBase64));
    assert_eq!(parse_rank_line(b"YWI= x"), Err(ImportError::BadRank));
}

#[test]
fn special_lines_split_at_last_space() {
    assert_eq!(
        parse_special_line(b"<|a b|> 100257"),
        Ok((b"<|a b|>".to_vec(), 100257))
    );
    assert_eq!(parse_special_line(b"nospace"), Err(ImportError::MalformedSpecialLine));
    assert_eq!(parse_special_line(b"x -1"), Err(ImportError::BadSpecialId));
}

#[test]
fn u32_parsing_matches_std() {
    for s in ["0", "42", "+7", "4294967295", "4294967296", "", "+", "-1", "1a", " 1", "007"] {
        assert_eq!(parse_u32(s.as_bytes()), s.parse::<u32>().ok(), "{s:?}");
    }
}

#[test]
fn build_blob_packs_both_files() {
    let ranks = "YQ== 0\r\nYg== 1\nYWI= 2\n";
    let specials = "<|end|> 9\n";
    let b: VocabBlob = build_blob("toy", ranks, specials).unwrap();
    assert_eq!(b.name, "toy");
    assert_eq!(b.max_id, 9);
    assert_eq!(
        b.ranks,
        vec![(b"a".to_vec(), 0), (b"b".to_vec(), 1), (b"ab".to_vec(), 2)]
    );
    assert_eq!(b.specials, vec![(b"<|end|>".to_vec(), 9)]);
    assert_eq!(b.grammar, 255);
    // and the blob reads back
    let back = VocabBlob::from_bytes(&b.to_bytes()).unwrap();
    assert_eq!(back.ranks, b.ranks);
}

#[test]
fn build_blob_stops_at_first_bad_line() {
    assert_eq!(
        build_blob("x", "YQ== 0\nbroken\n", "").unwrap_err(),
        ImportError::MalformedRankLine
    );
    assert_eq!(build_blob("x", "YQ== 0", "s q").unwrap_err(), ImportError::BadSpecialId);
    let empty = build_blob("x", "", "").unwrap();
    assert_eq!(empty.max_id, 0);
    assert!(empty.ranks.is_empty());
}
