use kristforge::extensions::{contains_bytes, uses_board_name};

#[test]
fn board_name_goes_by_the_extension() {
    assert!(uses_board_name("cl_amd_device_attribute_query"));
    assert!(uses_board_name("cl_khr_fp64 cl_amd_device_attribute_query cl_khr_icd"));
    assert!(!uses_board_name("cl_khr_fp64 cl_khr_icd"));
    assert!(!uses_board_name("cl_amd_device_attribute_quer"));
    assert!(!uses_board_name(""));
}

#[test]
fn bytes_within_bytes() {
    assert!(contains_bytes(b"abcabd", b"abd"));
    assert!(contains_bytes(b"abcabd", b"abc"));
    assert!(contains_bytes(b"abcabd", b""));
    assert!(contains_bytes(b"", b""));
    assert!(contains_bytes(b"aab", b"ab"));
    assert!(!contains_bytes(b"abcabd", b"abe"));
    assert!(!contains_bytes(b"ab", b"abc"));
    assert!(!contains_bytes(b"", b"a"));
}
