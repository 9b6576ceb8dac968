use kristforge::common::{Address, Solution, Target};
use kristforge::error::KristforgeError;

#[test]
fn address_of_ten_bytes_round_trips() {
    let a = Address::from_str("kabcdefghi").unwrap();
    assert_eq!(a.0, *b"kabcdefghi");
    assert_eq!(a.to_bytes(), b"kabcdefghi".to_vec());
    assert_eq!(a, Address(*b"kabcdefghi"));
}

#[test]
fn address_of_another_length_is_refused_with_the_length() {
    assert!(matches!(Address::from_str(""), Err(KristforgeError::InvalidAddressLength(0))));
    assert!(matches!(
        Address::from_str("kabcdefgh"),
        Err(KristforgeError::InvalidAddressLength(9))
    ));
    assert!(matches!(
        Address::from_str("kabcdefghij"),
        Err(KristforgeError::InvalidAddressLength(11))
    ));
}

#[test]
fn address_length_counts_bytes() {
    let five_letters = "\u{e9}\u{e9}\u{e9}\u{e9}\u{e9}";
    let a = Address::from_str(five_letters).unwrap();
    assert_eq!(a.to_bytes(), five_letters.as_bytes().to_vec());
    let ten_letters = "\u{e9}\u{e9}\u{e9}\u{e9}\u{e9}\u{e9}\u{e9}\u{e9}\u{e9}\u{e9}";
    assert!(matches!(
        Address::from_str(ten_letters),
        Err(KristforgeError::InvalidAddressLength(20))
    ));
}

#[test]
fn address_from_bytes() {
    let a = Address::from_bytes(&[0, 1, 2, 3, 4, 5, 6, 7, 8, 255]).unwrap();
    assert_eq!(a.0, [0, 1, 2, 3, 4, 5, 6, 7, 8, 255]);
    assert!(matches!(
        Address::from_bytes(&[1, 2, 3]),
        Err(KristforgeError::InvalidAddressLength(3))
    ));
}

#[test]
fn lengths_of_the_fixed_fields() {
    assert_eq!(Address::LENGTH, 10);
    assert_eq!(Target::BLOCK_LEN, 12);
    assert_eq!(Solution::NONCE_LEN, 15);
}
