use connext::error::Error;
use connext::text::NativeString;

#[test]
fn a_text_is_encoded_with_a_final_nul() {
    let encoded = NativeString::new("abc").unwrap();
    assert_eq!(encoded.as_bytes_with_nul(), b"abc\0");
    assert_eq!(encoded.as_bytes(), b"abc");
}

#[test]
fn the_empty_text_is_a_single_nul() {
    let encoded = NativeString::new("").unwrap();
    assert_eq!(encoded.as_bytes_with_nul(), &[0u8][..]);
    assert_eq!(encoded.as_bytes(), &[0u8; 0][..]);
}

#[test]
fn a_text_is_encoded_as_utf8() {
    let encoded = NativeString::new("h\u{e9}\u{20ac}").unwrap();
    assert_eq!(encoded.as_bytes_with_nul(), &[0x68, 0xc3, 0xa9, 0xe2, 0x82, 0xac, 0x00][..]);
}

#[test]
fn a_nul_in_the_text_is_an_encoding_error() {
    assert_eq!(NativeString::new("a\0b").unwrap_err(), Error::Encoding { position: 1 });
    assert_eq!(NativeString::new("\0").unwrap_err(), Error::Encoding { position: 0 });
    assert_eq!(NativeString::new("abc\0").unwrap_err(), Error::Encoding { position: 3 });
}

#[test]
fn the_first_nul_is_reported_by_its_byte() {
    assert_eq!(NativeString::new("\u{e9}\0x\0").unwrap_err(), Error::Encoding { position: 2 });
}

#[test]
fn encoding_errors_are_local() {
    let error = NativeString::new("\0").unwrap_err();
    assert!(error.is_local());
    assert!(!error.is_expected());
}

#[test]
fn a_copy_of_a_native_string_has_the_same_bytes() {
    let encoded = NativeString::new("MySubscriber::MySquareReader").unwrap();
    let copy = encoded.clone();
    assert_eq!(copy, encoded);
    assert_eq!(copy.as_bytes_with_nul(), b"MySubscriber::MySquareReader\0");
}

#[test]
fn native_bytes_are_read_as_text() {
    assert_eq!(NativeString::decode(b"{\"x\":1}"), "{\"x\":1}");
    assert_eq!(NativeString::decode(b""), "");
    assert_eq!(NativeString::decode(&[0x68, 0xc3, 0xa9]), "h\u{e9}");
}

#[test]
fn malformed_native_bytes_are_replaced() {
    assert_eq!(NativeString::decode(&[0x66, 0xff, 0x6f]), "f\u{fffd}o");
    assert_eq!(NativeString::decode(&[0xc3]), "\u{fffd}");
}

#[test]
fn an_encoded_text_is_read_back_unchanged() {
    for text in ["", "abc", "{\"color\":\"BLUE\",\"x\":1}", "h\u{e9}\u{20ac}\u{1f600}"] {
        let encoded = NativeString::new(text).unwrap();
        assert_eq!(NativeString::decode(encoded.as_bytes()), text);
    }
}
