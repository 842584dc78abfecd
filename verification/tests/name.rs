use memcard::name::{FileName, CARD_FILENAME_MAX};

#[test]
fn a_name_is_stored_with_its_terminator() {
    let name = FileName::new("SAVE01").unwrap();
    assert_eq!(name.as_bytes(), b"SAVE01\0");
}

#[test]
fn the_empty_name_is_just_the_terminator() {
    let name = FileName::new("").unwrap();
    assert_eq!(name.as_bytes(), b"\0");
}

#[test]
fn a_name_of_the_maximal_length_is_kept_whole() {
    let text = "ABCDEFGHIJKLMNOPQRSTUVWXYZ012345";
    assert_eq!(text.len(), CARD_FILENAME_MAX);
    let name = FileName::new(text).unwrap();
    assert_eq!(name.as_bytes().len(), 33);
    assert_eq!(&name.as_bytes()[..32], text.as_bytes());
    assert_eq!(name.as_bytes()[32], 0);
}

#[test]
fn a_name_one_byte_too_long_is_refused() {
    let text = "ABCDEFGHIJKLMNOPQRSTUVWXYZ0123456";
    assert_eq!(text.len(), 33);
    assert!(FileName::new(text).is_none());
}

#[test]
fn the_length_of_a_name_is_counted_in_bytes() {
    let ten = "\u{20ac}".repeat(10);
    let eleven = "\u{20ac}".repeat(11);
    assert_eq!(ten.len(), 30);
    assert_eq!(eleven.len(), 33);
    let name = FileName::new(&ten).unwrap();
    assert_eq!(&name.as_bytes()[..30], ten.as_bytes());
    assert_eq!(name.as_bytes()[30], 0);
    assert!(FileName::new(&eleven).is_none());
}

#[test]
fn equal_names_compare_equal() {
    assert_eq!(FileName::new("SAVE01"), FileName::new("SAVE01"));
    assert_ne!(FileName::new("SAVE01"), FileName::new("SAVE02"));
}
