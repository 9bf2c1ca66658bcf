use rcli::crypto::ct_eq;
use rcli::strutil::str_eq;

#[test]
fn test_ct_eq() {
    assert!(ct_eq(b"", b""));
    assert!(ct_eq(b"abc", b"abc"));
    assert!(!ct_eq(b"abc", b"abd"));
    assert!(!ct_eq(b"abc", b"ab"));
    assert!(!ct_eq(b"", b"x"));
    assert!(ct_eq(&[0u8; 32], &[0u8; 32]));
    let mut other = [0u8; 32];
    other[31] = 1;
    assert!(!ct_eq(&[0u8; 32], &other));
}

#[test]
fn test_str_eq() {
    assert!(str_eq("", ""));
    assert!(str_eq("blake3", "blake3"));
    assert!(!str_eq("blake3", "blake"));
    assert!(!str_eq("blake3", "Blake3"));
    assert!(str_eq("naïve", "naïve"));
    assert!(!str_eq("naïve", "naive"));
}
