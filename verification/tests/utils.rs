use rvvm::error::CCharsCreateFailure;
use rvvm::utils::CChars;

#[test]
fn test_c_chars_macro() {
    let chars = CChars::new_terminated(b"NVME".to_vec()).unwrap();
    assert_eq!(chars.content_bytes(), b"NVME".to_vec());
}

#[test]
fn test_c_chars_preserve_contents() {
    let chars = CChars::new(b"Hello world\0".to_vec());
    assert_eq!(chars.content_bytes(), b"Hello world".to_vec());
}

#[test]
fn test_c_chars_nul_check() {
    assert!(CChars::try_new(b"Hello world".to_vec()).is_err());
    assert!(CChars::try_new(b"Hello world\0".to_vec()).is_ok());
}

#[test]
fn c_chars_missing_terminator_error() {
    match CChars::try_new(b"abc".to_vec()) {
        Err(e) => assert_eq!(e, CCharsCreateFailure::NoNulTerminator),
        Ok(_) => panic!("byte string without nul was accepted"),
    }
}

#[test]
fn c_chars_interior_nul_error() {
    match CChars::new_terminated(b"ab\0c".to_vec()) {
        Err(e) => assert_eq!(e, CCharsCreateFailure::InteriorNul),
        Ok(_) => panic!("name with interior nul was accepted"),
    }
}

#[test]
fn c_chars_terminated_appends_nul() {
    let chars = CChars::new_terminated(b"UART".to_vec()).unwrap();
    assert_eq!(chars.as_bytes().clone(), b"UART\0".to_vec());
    assert_eq!(chars.len(), 5);
}

#[test]
fn c_chars_content_stops_at_first_nul() {
    let chars = CChars::new(b"ab\0cd\0".to_vec());
    assert_eq!(chars.content_bytes(), b"ab".to_vec());
}
