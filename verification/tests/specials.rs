use sonictok::specials::{find_sub, IdFilter, SpecialTokens};

fn specials() -> SpecialTokens {
    SpecialTokens::new(vec![
        (b"<|endoftext|>".to_vec(), 100257),
        (b"<|endofprompt|>".to_vec(), 100276),
    ])
}

#[test]
fn lookup() {
    let s = specials();
    assert_eq!(s.id_of(b"<|endoftext|>"), Some(100257));
    assert_eq!(s.name_of(100276), Some(&b"<|endofprompt|>"[..]));
}

#[test]
fn find_first_allowed() {
    let s = specials();
    let input = b"a<|endoftext|>b<|endofprompt|>";
    let all = IdFilter::All;
    assert_eq!(s.find_next(input, 0, &all), Some((1, 14, 100257)));
}

#[test]
fn respects_allowed_set() {
    let s = specials();
    let input = b"a<|endoftext|>b<|endofprompt|>";
    let only_prompt = IdFilter::Only(vec![100276]);
    assert_eq!(s.find_next(input, 0, &only_prompt), Some((15, 30, 100276)));
}

#[test]
fn longest_special_wins_at_same_start() {
    let s = SpecialTokens::new(vec![(b"<a".to_vec(), 1), (b"<ab>".to_vec(), 2)]);
    assert_eq!(s.find_next(b"x<ab>", 0, &IdFilter::All), Some((1, 5, 2)));
    assert_eq!(s.find_next(b"x<ab>", 0, &IdFilter::Except(vec![2])), Some((1, 3, 1)));
    assert_eq!(s.find_next(b"x<ab>", 2, &IdFilter::All), None);
    assert_eq!(s.find_next(b"x<ab>", 0, &IdFilter::Nothing), None);
}

#[test]
fn registry_order_is_longest_first_then_bytes() {
    let s = SpecialTokens::new(vec![
        (b"bb".to_vec(), 1),
        (b"ccc".to_vec(), 2),
        (b"aa".to_vec(), 3),
        (b"aa".to_vec(), 4),
    ]);
    let order: Vec<(Vec<u8>, u32)> = s.iter();
    assert_eq!(
        order,
        vec![
            (b"ccc".to_vec(), 2),
            (b"aa".to_vec(), 3),
            (b"aa".to_vec(), 4),
            (b"bb".to_vec(), 1)
        ]
    );
    assert_eq!(s.id_of(b"aa"), Some(3));
    assert!(!s.is_empty());
    assert!(SpecialTokens::new(vec![]).is_empty());
    assert_eq!(s.name_of(99), None);
}

#[test]
fn substring_search() {
    assert_eq!(find_sub(b"hello", b"ll"), Some(2));
    assert_eq!(find_sub(b"hello", b""), None);
    assert_eq!(find_sub(b"hi", b"high"), None);
    assert_eq!(find_sub(b"aaab", b"ab"), Some(2));
}

#[test]
fn filter_complement() {
    let f = IdFilter::Only(vec![1, 2]);
    let c = f.complement();
    assert!(f.allows(1) && !f.allows(3));
    assert!(!c.allows(1) && c.allows(3));
    assert!(IdFilter::All.complement().allows(5) == false);
}
