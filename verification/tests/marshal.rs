use wasi_ext_lib::marshal::{check_nul_free, cstr_bytes, find_nul};
use wasi_ext_lib::ConstructionError;

#[test]
fn clean_string_passes_the_check() {
    assert!(check_nul_free("abc"));
    assert!(check_nul_free(""));
    assert!(!check_nul_free("a\0c"));
    assert!(!check_nul_free("\0"));
}

#[test]
fn encoding_appends_one_terminator() {
    assert_eq!(cstr_bytes("hi"), Ok(b"hi\0".to_vec()));
    assert_eq!(cstr_bytes(""), Ok(b"\0".to_vec()));
}

#[test]
fn embedded_terminator_cannot_be_encoded() {
    assert_eq!(cstr_bytes("a\0b"), Err(ConstructionError));
}

#[test]
fn first_terminator_position_is_found() {
    assert_eq!(find_nul(b"abc"), None);
    assert_eq!(find_nul(b"ab\0c\0"), Some(2));
    assert_eq!(find_nul(b"\0"), Some(0));
}
