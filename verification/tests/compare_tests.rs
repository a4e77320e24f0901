use quicktest::compare::{
    bytes_equal, compare_outputs, first_token_difference, tokenize, Comparison,
};

#[test]
fn identical_file_matches_in_token_mode() {
    let f: Vec<u8> = b"1 2 3\nhello world\n".to_vec();
    assert_eq!(compare_outputs(&f, &f, false), Comparison::Match);
}

#[test]
fn identical_file_matches_in_strict_mode() {
    let f: Vec<u8> = b"1 2 3\nhello world\n".to_vec();
    assert_eq!(compare_outputs(&f, &f, true), Comparison::Match);
}

#[test]
fn whitespace_amount_is_ignored_in_token_mode() {
    let expected: Vec<u8> = b"1 2 3\n".to_vec();
    let actual: Vec<u8> = b"1  2 3".to_vec();
    assert_eq!(compare_outputs(&expected, &actual, false), Comparison::Match);
}

#[test]
fn reordered_tokens_mismatch() {
    let expected: Vec<u8> = b"1 2 3".to_vec();
    let actual: Vec<u8> = b"1 3 2".to_vec();
    assert_eq!(compare_outputs(&expected, &actual, false), Comparison::Mismatch);
}

#[test]
fn strict_mode_sees_trailing_newline() {
    let expected: Vec<u8> = b"1 2 3\n".to_vec();
    let actual: Vec<u8> = b"1 2 3".to_vec();
    assert_eq!(compare_outputs(&expected, &actual, true), Comparison::Mismatch);
    assert_eq!(compare_outputs(&expected, &actual, false), Comparison::Match);
}

#[test]
fn empty_outputs_match() {
    let a: Vec<u8> = Vec::new();
    let b: Vec<u8> = Vec::new();
    assert_eq!(compare_outputs(&a, &b, false), Comparison::Match);
    assert_eq!(compare_outputs(&a, &b, true), Comparison::Match);
}

#[test]
fn all_whitespace_equals_empty_in_token_mode() {
    let a: Vec<u8> = b" \t\r\n".to_vec();
    let b: Vec<u8> = Vec::new();
    assert_eq!(compare_outputs(&a, &b, false), Comparison::Match);
    assert_eq!(compare_outputs(&a, &b, true), Comparison::Mismatch);
}

#[test]
fn tokenize_splits_on_whitespace_runs() {
    let s: Vec<u8> = b"  a bb\t\tccc\n".to_vec();
    let toks = tokenize(&s);
    assert_eq!(toks.len(), 3);
    assert_eq!(toks[0], b"a".to_vec());
    assert_eq!(toks[1], b"bb".to_vec());
    assert_eq!(toks[2], b"ccc".to_vec());
}

#[test]
fn tokenize_empty_is_empty() {
    let s: Vec<u8> = Vec::new();
    assert_eq!(tokenize(&s).len(), 0);
}

#[test]
fn first_difference_points_at_the_token() {
    assert_eq!(first_token_difference(&b"1 2 3".to_vec(), &b"1  2 3\n".to_vec()), None);
    assert_eq!(first_token_difference(&b"1 2 3".to_vec(), &b"1 3 2".to_vec()), Some(1));
    assert_eq!(first_token_difference(&b"a b".to_vec(), &b"a b c".to_vec()), Some(2));
    assert_eq!(first_token_difference(&b"a b c".to_vec(), &b"a".to_vec()), Some(1));
}

#[test]
fn bytes_equal_compares_content() {
    assert!(bytes_equal(&b"abc".to_vec(), &b"abc".to_vec()));
    assert!(!bytes_equal(&b"abc".to_vec(), &b"abd".to_vec()));
    assert!(!bytes_equal(&b"abc".to_vec(), &b"ab".to_vec()));
}
