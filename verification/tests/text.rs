use sarek::error::EncodingError;
use sarek::text::{
    decode_text, decode_text_lossy, names_to_c_strings, push_decimal, push_signed_decimal,
    same_text, text_bytes, to_c_string, to_c_strings,
};

#[test]
fn marshals_with_a_closing_zero() {
    assert_eq!(to_c_string(b"Test Application"), Ok(b"Test Application\0".to_vec()));
    assert_eq!(to_c_string(b""), Ok(vec![0u8]));
    assert_eq!(to_c_string("h\u{e9}llo".as_bytes()), Ok(vec![b'h', 0xc3, 0xa9, b'l', b'l', b'o', 0]));
}

#[test]
fn interior_nul_is_refused_with_its_first_position() {
    assert_eq!(to_c_string(b"bad\0name"), Err(EncodingError::InteriorNul { position: 3 }));
    assert_eq!(to_c_string(b"\0"), Err(EncodingError::InteriorNul { position: 0 }));
    assert_eq!(to_c_string(b"a\0b\0c"), Err(EncodingError::InteriorNul { position: 1 }));
    assert_eq!(to_c_string(b"trailing\0"), Err(EncodingError::InteriorNul { position: 8 }));
}

#[test]
fn marshals_lists_in_order_and_stops_at_the_first_failure() {
    let good = vec!["one".to_string(), "".to_string(), "three".to_string()];
    assert_eq!(
        to_c_strings(&good),
        Ok(vec![b"one\0".to_vec(), b"\0".to_vec(), b"three\0".to_vec()])
    );
    let empty: Vec<String> = Vec::new();
    assert_eq!(to_c_strings(&empty), Ok(Vec::new()));
    let bad = vec!["fine".to_string(), "x\0".to_string(), "\0first".to_string()];
    assert_eq!(to_c_strings(&bad), Err(EncodingError::InteriorNul { position: 1 }));
    assert_eq!(
        names_to_c_strings(&vec!["VK_KHR_surface", "VK_KHR_swapchain"]),
        Ok(vec![b"VK_KHR_surface\0".to_vec(), b"VK_KHR_swapchain\0".to_vec()])
    );
    assert_eq!(
        names_to_c_strings(&vec!["ok", "no\0pe"]),
        Err(EncodingError::InteriorNul { position: 2 })
    );
}

#[test]
fn text_of_a_buffer_ends_at_the_first_zero() {
    assert_eq!(text_bytes(b"abc\0def\0"), b"abc");
    assert_eq!(text_bytes(b"\0abc"), b"");
    assert_eq!(text_bytes(b"no zero"), b"no zero");
    assert_eq!(text_bytes(b""), b"");
    let mut buffer = [0u8; 256];
    buffer[..7].copy_from_slice(b"GeForce");
    assert_eq!(text_bytes(&buffer), b"GeForce");
}

#[test]
fn strict_decoding_keeps_utf8_and_refuses_the_rest() {
    assert_eq!(decode_text(b"VK_KHR_surface\0\0\0"), Ok("VK_KHR_surface".to_string()));
    assert_eq!(decode_text("gr\u{fc}n\0".as_bytes()), Ok("gr\u{fc}n".to_string()));
    assert_eq!(decode_text(b"\0"), Ok(String::new()));
    assert_eq!(decode_text(b"ab\xffcd\0"), Err(EncodingError::InvalidUtf8 { valid_up_to: 2 }));
    assert_eq!(decode_text(b"\xc3\0"), Err(EncodingError::InvalidUtf8 { valid_up_to: 0 }));
    assert_eq!(decode_text(b"ok\xe2\x82"), Err(EncodingError::InvalidUtf8 { valid_up_to: 2 }));
    // What stands behind the first zero byte is not looked at.
    assert_eq!(decode_text(b"fine\0\xff\xff"), Ok("fine".to_string()));
}

#[test]
fn lossy_decoding_replaces_what_is_not_utf8() {
    assert_eq!(decode_text_lossy(b"VK_KHR_swapchain\0junk"), "VK_KHR_swapchain");
    assert_eq!(decode_text_lossy(b"ab\xffcd\0"), "ab\u{fffd}cd");
    assert_eq!(decode_text_lossy(b"\xc3\0"), "\u{fffd}");
    assert_eq!(decode_text_lossy("gr\u{fc}n".as_bytes()), "gr\u{fc}n");
    assert_eq!(decode_text_lossy(b""), "");
}

#[test]
fn texts_compare_by_content() {
    assert!(same_text("VK_KHR_surface", "VK_KHR_surface"));
    assert!(same_text("", ""));
    assert!(!same_text("VK_KHR_surface", "VK_KHR_surfacf"));
    assert!(!same_text("VK_KHR_surface", "VK_KHR_surface "));
    assert!(!same_text("a", ""));
    assert!(same_text("gr\u{fc}n", "gr\u{fc}n"));
    assert!(!same_text("gr\u{fc}n", "grun"));
}

#[test]
fn numbers_are_written_in_decimal() {
    let cases: [(u64, &str); 8] = [
        (0, "0"),
        (7, "7"),
        (10, "10"),
        (99, "99"),
        (100, "100"),
        (1000111001, "1000111001"),
        (4294967295, "4294967295"),
        (18446744073709551615, "18446744073709551615"),
    ];
    for (number, expected) in cases {
        let mut out = String::from("n=");
        push_decimal(&mut out, number);
        assert_eq!(out, format!("n={}", expected));
        assert_eq!(out, format!("n={}", number));
    }
    let signed: [i32; 7] = [0, -1, 5, -11, -1000001000, 2147483647, -2147483648];
    for number in signed {
        let mut out = String::new();
        push_signed_decimal(&mut out, number);
        assert_eq!(out, format!("{}", number));
    }
}
