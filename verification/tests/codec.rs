use rcli::codec::{b64url_decode, b64url_encode};

#[test]
fn test_encode_known_value() {
    assert_eq!(b64url_encode(b"hello"), "aGVsbG8");
    assert_eq!(b64url_encode(b""), "");
}

#[test]
fn test_encode_uses_url_safe_alphabet() {
    // 0xfb 0xef encodes to characters that the standard alphabet writes as + and /.
    let encoded = b64url_encode(&[0xfb, 0xef]);
    assert_eq!(encoded, "--8");
    assert!(!encoded.contains('+'));
    assert!(!encoded.contains('/'));
    assert!(!encoded.contains('='));
}

#[test]
fn test_round_trip() {
    let inputs: Vec<Vec<u8>> = vec![
        vec![],
        vec![0],
        vec![255],
        b"hello world".to_vec(),
        (0u16..256).map(|b| b as u8).collect(),
    ];
    for bytes in inputs {
        let encoded = b64url_encode(&bytes);
        assert_eq!(b64url_decode(&encoded), Some(bytes));
    }
}

#[test]
fn test_decode_refuses_invalid_text() {
    assert_eq!(b64url_decode("not base64!!!"), None);
    assert_eq!(b64url_decode("%%%"), None);
    // A single symbol can never make a whole byte.
    assert_eq!(b64url_decode("a"), None);
    // Padding is refused: this codec never emits it.
    assert_eq!(b64url_decode("aGVsbG8="), None);
    // Non-zero trailing bits are refused.
    assert_eq!(b64url_decode("ab"), None);
}

#[test]
fn test_decode_empty_is_empty() {
    assert_eq!(b64url_decode(""), Some(vec![]));
}
