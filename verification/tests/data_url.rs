use meta_baby::data_url::{fits_data_url, vec_to_data_url};

#[test]
fn data_url_has_mime_type_marker_and_payload() {
    assert_eq!(vec_to_data_url(b"hello".to_vec(), "image/png"), "data:image/png;base64,aGVsbG8=");
    assert_eq!(vec_to_data_url(b"hello".to_vec(), "text/plain"), "data:text/plain;base64,aGVsbG8=");
    assert_eq!(vec_to_data_url(Vec::new(), ""), "data:;base64,");
}

#[test]
fn base64_pads_to_groups_of_four() {
    let encode = |data: &[u8]| vec_to_data_url(data.to_vec(), "x").split_off(14);
    assert_eq!(encode(b""), "");
    assert_eq!(encode(b"f"), "Zg==");
    assert_eq!(encode(b"fo"), "Zm8=");
    assert_eq!(encode(b"foo"), "Zm9v");
    assert_eq!(encode(b"foob"), "Zm9vYg==");
    assert_eq!(encode(b"fooba"), "Zm9vYmE=");
    assert_eq!(encode(b"foobar"), "Zm9vYmFy");
}

#[test]
fn base64_uses_the_standard_alphabet() {
    let encode = |data: &[u8]| vec_to_data_url(data.to_vec(), "x").split_off(14);
    assert_eq!(encode(&[0xfb, 0xff, 0xbf]), "+/+/");
    assert_eq!(encode(&[0x00, 0x00, 0x00]), "AAAA");
    assert_eq!(encode(&[0xff, 0xff, 0xff]), "////");
    assert_eq!(encode(&[0x00, 0x10, 0x83, 0x10, 0x51, 0x87]), "ABCDEFGH");
    assert_eq!(encode(&[0x69, 0xb7, 0x1d, 0x79, 0xf8, 0x21]), "abcdefgh");
    assert_eq!(encode(&[0xd3, 0x5d, 0xb7, 0xe3, 0x9e, 0xbb, 0xf3, 0xdf, 0xbf]), "0123456789+/");
}

#[test]
fn data_url_length_must_fit_the_machine() {
    assert!(fits_data_url(0));
    assert!(fits_data_url(1));
    assert!(fits_data_url(1 << 20));
    assert!(fits_data_url(usize::MAX / 4 * 3));
    assert!(!fits_data_url(usize::MAX / 4 * 3 + 1));
    assert!(!fits_data_url(usize::MAX));
}
