use sonictok::pretok::cl100k::{piece_end, Cl100kPretokenizer};
use sonictok::pretok::o200k::O200kPretokenizer;
use sonictok::pretok::Pretokenizer;

fn cl100k_pieces(s: &str) -> Vec<&str> {
    let b = s.as_bytes();
    let mut p = Cl100kPretokenizer::new();
    let mut out = vec![];
    while let Some((a, z)) = p.next_piece(b) {
        assert!(z > a, "piece must make progress");
        out.push(std::str::from_utf8(&b[a..z]).unwrap());
    }
    out
}

fn o200k_pieces(s: &str) -> Vec<&str> {
    let b = s.as_bytes();
    let mut p = O200kPretokenizer::new();
    let mut out = vec![];
    while let Some((a, z)) = p.next_piece(b) {
        assert!(z > a, "piece must make progress");
        out.push(std::str::from_utf8(&b[a..z]).unwrap());
    }
    out
}

#[test]
fn cl100k_words_and_spaces() {
    assert_eq!(cl100k_pieces("hello world"), vec!["hello", " world"]);
}
#[test]
fn contractions() {
    assert_eq!(cl100k_pieces("I'm don't"), vec!["I", "'m", " don", "'t"]);
}
#[test]
fn cl100k_numbers_triples() {
    assert_eq!(cl100k_pieces("1234"), vec!["123", "4"]);
}
#[test]
fn punct_and_newlines() {
    assert_eq!(cl100k_pieces("a!!\n"), vec!["a", "!!\n"]);
}
#[test]
fn leading_space_run() {
    assert_eq!(cl100k_pieces("a   b"), vec!["a", "  ", " b"]);
}
#[test]
fn cl100k_covers_whole_input() {
    for s in ["", "x", "  ", "日本語 test 99", "\n\n\t  end"] {
        let total: usize = cl100k_pieces(s).iter().map(|p| p.len()).sum();
        assert_eq!(total, s.len(), "input {s:?} not fully covered");
    }
}

#[test]
fn o200k_words_and_spaces() {
    assert_eq!(o200k_pieces("hello world"), vec!["hello", " world"]);
}
#[test]
fn camel_case_splits() {
    assert_eq!(o200k_pieces("camelCase"), vec!["camel", "Case"]);
}
#[test]
fn upper_run() {
    assert_eq!(o200k_pieces("ABC"), vec!["ABC"]);
}
#[test]
fn contraction_attaches() {
    // o200k keeps contractions attached (unlike cl100k's separate alt).
    assert_eq!(o200k_pieces("don't"), vec!["don't"]);
    assert_eq!(o200k_pieces("I'm"), vec!["I'm"]);
}
#[test]
fn o200k_numbers_triples() {
    assert_eq!(o200k_pieces("1234"), vec!["123", "4"]);
}
#[test]
fn o200k_covers_whole_input() {
    for s in [
        "",
        "x",
        "  ",
        "日本語 test 99",
        "\n\n\t  end",
        "HTTPSConnection",
        "a/b/c",
    ] {
        let total: usize = o200k_pieces(s).iter().map(|p| p.len()).sum();
        assert_eq!(total, s.len(), "input {s:?} not fully covered");
    }
}

#[test]
fn cl100k_piece_end_direct() {
    let b = "hello world".as_bytes();
    assert_eq!(piece_end(b, 0), 5);
    assert_eq!(piece_end(b, 5), 11);
}

#[test]
fn reset_starts_over() {
    let b = "ab cd".as_bytes();
    let mut p = Cl100kPretokenizer::new();
    assert_eq!(p.next_piece(b), Some((0, 2)));
    p.reset();
    assert_eq!(p.next_piece(b), Some((0, 2)));
    assert_eq!(p.next_piece(b), Some((2, 5)));
    assert_eq!(p.next_piece(b), None);
}

#[test]
fn o200k_slash_tail_and_space_before_word() {
    assert_eq!(o200k_pieces("a/b"), vec!["a", "/b"]);
    assert_eq!(o200k_pieces("x  y"), vec!["x", " ", " y"]);
}

#[test]
fn contraction_folds_long_s() {
    let s = "'\u{17F}a";
    assert_eq!(piece_end(s.as_bytes(), 0), 3);
    assert_eq!(sonictok::pretok::common::match_contraction(s.as_bytes(), 0), Some(3));
    assert_eq!(cl100k_pieces("it'\u{17F} x"), vec!["it", "'\u{17F}", " x"]);
    assert_eq!(sonictok::pretok::o200k::piece_end("it'\u{17F} x".as_bytes(), 0), 5);
}

#[test]
fn pieces_cover_the_input() {
    for s in ["hello world", "  a\n\n b 1234!?", "日本語 it's CamelCase", ""] {
        assert_eq!(cl100k_pieces(s).concat(), s);
        assert_eq!(o200k_pieces(s).concat(), s);
    }
}
