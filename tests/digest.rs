use mindflow::digest::{hash_hex, hex_encode};

#[test]
fn hash_of_empty_input() {
    let h = hash_hex(&Vec::new());
    assert_eq!(h, "e3b0c44298fc1c149afbf4c8996fb92427ae41e4649b934ca495991b7852b855");
}

#[test]
fn hash_of_abc() {
    let h = hash_hex(&b"abc".to_vec());
    assert_eq!(h, "ba7816bf8f01cfea414140de5dae2223b00361a396177a9cb410ff61f20015ad");
}

#[test]
fn hashing_twice_gives_the_same_digest() {
    let bytes: Vec<u8> = vec![0, 1, 2, 200, 255, 17];
    let a = hash_hex(&bytes);
    let b = hash_hex(&bytes);
    assert_eq!(a, b);
    assert_eq!(a.len(), 64);
    assert!(a.chars().all(|c| c.is_ascii_digit() || ('a'..='f').contains(&c)));
}

#[test]
fn different_bytes_give_different_digests() {
    assert_ne!(hash_hex(&b"a".to_vec()), hash_hex(&b"b".to_vec()));
}

#[test]
fn hex_encoding_is_lowercase_high_half_first() {
    let r = hex_encode(&vec![0x00, 0xff, 0x1a, 0x09, 0xa0]);
    assert_eq!(String::from_utf8(r).unwrap(), "00ff1a09a0");
}

#[test]
fn hex_encoding_of_nothing_is_empty() {
    assert!(hex_encode(&Vec::new()).is_empty());
}
