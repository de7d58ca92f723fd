use playfair_core::loader::{digest_matches, find_first, find_last, same_bytes};
use playfair_core::{relative_import, rewrite_import, wrapper_is_genuine};

#[test]
fn wrapper_fingerprint_is_sha256_in_upper_case_hex() {
    let expected = b"BA7816BF8F01CFEA414140DE5DAE2223B00361A396177A9CB410FF61F20015AD";
    assert!(wrapper_is_genuine(b"abc", expected));
    assert!(!wrapper_is_genuine(b"abd", expected));
    assert!(!wrapper_is_genuine(b"abc", &expected.to_ascii_lowercase()));
    assert!(!wrapper_is_genuine(b"abc", &expected[..63]));
    assert!(!wrapper_is_genuine(b"abc", b""));
    assert!(!wrapper_is_genuine(b"abc", b"abc"));
    let empty = b"E3B0C44298FC1C149AFBF4C8996FB92427AE41E4649B934CA495991B7852B855";
    assert!(wrapper_is_genuine(b"", empty));
}

#[test]
fn digest_is_compared_in_upper_case_hex() {
    assert!(digest_matches(&[0x00, 0x9A, 0xBC, 0xFF], b"009ABCFF"));
    assert!(!digest_matches(&[0x00, 0x9A, 0xBC, 0xFF], b"009abcff"));
    assert!(!digest_matches(&[0x00, 0x9A, 0xBC, 0xFF], b"009ABCF"));
    assert!(digest_matches(&[], b""));
    assert!(same_bytes(b"abc", b"abc"));
    assert!(!same_bytes(b"abc", b"abd"));
    assert!(!same_bytes(b"abc", b"ab"));
}

#[test]
fn first_and_last_occurrence_are_found() {
    assert_eq!(find_first(b"a'b'c'", b'\''), Some(1));
    assert_eq!(find_last(b"a'b'c'", b'\''), Some(5));
    assert_eq!(find_first(b"abc", b'\''), None);
    assert_eq!(find_last(b"abc", b'\''), None);
    assert_eq!(find_first(b"", b'a'), None);
    assert_eq!(find_last(b"a", b'a'), Some(0));
}

#[test]
fn relative_imports_are_found() {
    assert_eq!(relative_import(b"import x from './x.js';"), Some((14, 21)));
    assert_eq!(relative_import(b"import{a} from \"./a.js\""), Some((15, 22)));
    assert_eq!(relative_import(b"import { a } from '../lib/a.js';"), Some((18, 30)));
    assert_eq!(relative_import(b"import './a'"), Some((7, 11)));
}

#[test]
fn other_lines_are_left_alone() {
    assert_eq!(relative_import(b"import fs from 'node:fs';"), None);
    assert_eq!(relative_import(b"const x = './y';"), None);
    assert_eq!(relative_import(b"imports './x.js'"), None);
    assert_eq!(relative_import(b"import"), None);
    assert_eq!(relative_import(b"import "), None);
    assert_eq!(relative_import(b""), None);
    assert_eq!(relative_import(b"import x from './x"), None);
    assert_eq!(relative_import(b"import x from ''"), None);
    assert_eq!(relative_import(b"import x from \"./it's.js\""), None);
    assert_eq!(relative_import(b"import x from y;"), None);
    assert_eq!(relative_import(b"export x from './x.js';"), None);
}

#[test]
fn single_quote_is_looked_for_first() {
    assert_eq!(relative_import(b"import \"a\" + './b'"), Some((13, 17)));
}

#[test]
fn import_is_rewritten_between_its_quotes() {
    let line = b"import x from './x.js';";
    let (start, end) = relative_import(line).unwrap();
    assert_eq!(&line[start + 1..end], b"./x.js");
    assert_eq!(
        rewrite_import(line, start, end, b"file:///work/x.js"),
        b"import x from 'file:///work/x.js';".to_vec()
    );
    assert_eq!(rewrite_import(b"'a'", 0, 2, b""), b"''".to_vec());
}
