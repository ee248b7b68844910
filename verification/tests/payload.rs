use meta_baby::payload::concat_contents;

#[test]
fn payload_is_the_utf8_bytes_joined() {
    assert_eq!(concat_contents(&vec![String::from("A"), String::from("B")]), b"AB");
    assert_eq!(concat_contents(&vec![String::from("AB")]), b"AB");
    assert_eq!(concat_contents(&vec![String::from("ab"), String::new(), String::from("c d")]), b"abc d");
}

#[test]
fn payload_of_nothing_is_empty() {
    assert_eq!(concat_contents(&Vec::new()), Vec::<u8>::new());
    assert_eq!(concat_contents(&vec![String::new()]), Vec::<u8>::new());
}

#[test]
fn payload_encodes_characters_as_utf8() {
    assert_eq!(concat_contents(&vec![String::from("\u{e9}")]), vec![0xc3, 0xa9]);
    assert_eq!(
        concat_contents(&vec![String::from("\u{20ac}"), String::from("\u{1f680}")]),
        vec![0xe2, 0x82, 0xac, 0xf0, 0x9f, 0x9a, 0x80]
    );
}
