use wave_cid::hasher::{content_id, to_hex, DIGEST_LEN, IDENTIFIER_LEN};

#[test]
fn content_id_of_nothing() {
    assert_eq!(
        content_id(&[]),
        "e3b0c44298fc1c149afbf4c8996fb92427ae41e4649b934ca495991b7852b855"
    );
}

#[test]
fn content_id_of_abc() {
    assert_eq!(
        content_id(b"abc"),
        "ba7816bf8f01cfea414140de5dae2223b00361a396177a9cb410ff61f20015ad"
    );
}

#[test]
fn content_id_agrees_with_the_digest_crate() {
    let data: Vec<u8> = (0..1000u32).map(|i| (i * 7 % 256) as u8).collect();
    let digest = <sha2::Sha256 as sha2::Digest>::digest(&data);
    assert_eq!(content_id(&data), hex::encode(digest));
}

#[test]
fn content_id_is_lowercase_hex_of_fixed_length() {
    for data in [&b""[..], &b"a"[..], &b"abc"[..], &[0u8; 4096][..]] {
        let cid = content_id(data);
        assert_eq!(cid.len(), 64);
        assert!(cid.chars().all(|c| matches!(c, '0'..='9' | 'a'..='f')));
    }
    assert_eq!(IDENTIFIER_LEN, 64);
    assert_eq!(DIGEST_LEN, 32);
}

#[test]
fn content_id_depends_on_the_data() {
    assert_ne!(content_id(b"abc"), content_id(b"abd"));
    assert_ne!(content_id(&[0]), content_id(&[0, 0]));
    assert_eq!(content_id(b"abc"), content_id(b"abc"));
}

#[test]
fn hex_writes_the_high_digit_first() {
    let mut digest = [0u8; 32];
    for (i, byte) in digest.iter_mut().enumerate() {
        *byte = (i as u8) * 8 + 1;
    }
    assert_eq!(
        to_hex(&digest),
        "0109111921293139414951596169717981899199a1a9b1b9c1c9d1d9e1e9f1f9"
    );
}

#[test]
fn hex_of_extreme_bytes() {
    assert_eq!(to_hex(&[0u8; 32]), "0".repeat(64));
    assert_eq!(to_hex(&[0xffu8; 32]), "f".repeat(64));
    assert_eq!(to_hex(&[0x0fu8; 32]), "0f".repeat(32));
    assert_eq!(to_hex(&[0xa5u8; 32]), "a5".repeat(32));
}

#[test]
fn hex_decodes_to_the_digest() {
    let mut digest = [0u8; 32];
    for (i, byte) in digest.iter_mut().enumerate() {
        *byte = (i as u8).wrapping_mul(37).wrapping_add(11);
    }
    let text = to_hex(&digest);
    assert_eq!(hex::decode(&text).unwrap(), digest.to_vec());
}
