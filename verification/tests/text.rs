use libappindicator::Error;
use libappindicator::ErrorReason;
use libappindicator::cstr_to_string;
use libappindicator::is_valid_utf8;

#[test]
fn null_pointer_is_a_typed_error() {
    let e = cstr_to_string(None).expect_err("a null native string must be an error");
    assert_eq!(e, Error::null_ptr());
    assert_eq!(e.reason(), ErrorReason::NullPtr);
    assert_eq!(e.message(), "null string pointer");
}

#[test]
fn ascii_bytes_decode_to_themselves() {
    let r = cstr_to_string(Some(b"hello".to_vec()));
    assert_eq!(r, Ok("hello".to_string()));
}

#[test]
fn multibyte_utf8_decodes() {
    // U+00E9, U+20AC and U+1F496 take two, three and four bytes.
    let text = "caf\u{00e9} \u{20ac} \u{1f496}";
    let r = cstr_to_string(Some(text.as_bytes().to_vec()));
    let s = r.expect("well-formed UTF-8 must decode");
    assert_eq!(s, text);
    assert_eq!(s.chars().count(), 8);
}

#[test]
fn invalid_bytes_are_a_typed_error() {
    let e = cstr_to_string(Some(vec![0xFF, 0xFE])).expect_err("not UTF-8");
    assert_eq!(e, Error::utf8_error());
    assert_eq!(e.reason(), ErrorReason::Utf8Error);
    assert_eq!(e.message(), "utf8 conversion error");
}

#[test]
fn empty_bytes_decode_to_the_empty_string() {
    assert_eq!(cstr_to_string(Some(Vec::new())), Ok(String::new()));
}

#[test]
fn validator_accepts_well_formed_sequences() {
    let valid: &[&[u8]] = &[
        b"",
        b"plain ascii",
        &[0x7F],
        &[0xC2, 0x80],             // U+0080, smallest two-byte scalar
        &[0xDF, 0xBF],             // U+07FF, largest two-byte scalar
        &[0xE0, 0xA0, 0x80],       // U+0800, smallest three-byte scalar
        &[0xED, 0x9F, 0xBF],       // U+D7FF, just below the surrogates
        &[0xEE, 0x80, 0x80],       // U+E000, just above the surrogates
        &[0xEF, 0xBF, 0xBF],       // U+FFFF
        &[0xF0, 0x90, 0x80, 0x80], // U+10000, smallest four-byte scalar
        &[0xF4, 0x8F, 0xBF, 0xBF], // U+10FFFF, the last scalar value
        &[0x61, 0xC3, 0xA9, 0xE2, 0x82, 0xAC, 0xF0, 0x9F, 0x92, 0x96],
    ];
    for bytes in valid {
        let v = bytes.to_vec();
        assert!(is_valid_utf8(&v), "rejected {:?}", v);
        assert!(std::str::from_utf8(&v).is_ok(), "disagrees with std on {:?}", v);
    }
}

#[test]
fn validator_rejects_ill_formed_sequences() {
    let invalid: &[&[u8]] = &[
        &[0x80],                   // stray continuation byte
        &[0xBF],                   // stray continuation byte
        &[0xC0, 0x80],             // overlong two-byte form
        &[0xC1, 0xBF],             // overlong two-byte form
        &[0xC2, 0x41],             // second byte is not a continuation
        &[0xE0, 0x9F, 0xBF],       // overlong three-byte form
        &[0xED, 0xA0, 0x80],       // encoded surrogate U+D800
        &[0xED, 0xBF, 0xBF],       // encoded surrogate U+DFFF
        &[0xF0, 0x8F, 0xBF, 0xBF], // overlong four-byte form
        &[0xF4, 0x90, 0x80, 0x80], // above U+10FFFF
        &[0xF5, 0x80, 0x80, 0x80], // lead byte out of range
        &[0xFF],                   // lead byte out of range
        &[0xE2, 0x82],             // truncated three-byte scalar
        &[0xF0, 0x9F, 0x92],       // truncated four-byte scalar
        &[0x61, 0xC3],             // valid prefix, truncated tail
    ];
    for bytes in invalid {
        let v = bytes.to_vec();
        assert!(!is_valid_utf8(&v), "accepted {:?}", v);
        assert!(std::str::from_utf8(&v).is_err(), "disagrees with std on {:?}", v);
    }
}
