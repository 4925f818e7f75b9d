use aes_gcm::aead::{Aead, KeyInit};
use base64::Engine;
use chat_hub::crypto::{decrypt_token, encrypt_token, key_from_secret, seal_token};

#[test]
fn key_is_the_first_32_bytes_of_the_secret() {
    let key = key_from_secret("0123456789abcdef0123456789abcdefTAIL");
    assert_eq!(&key, b"0123456789abcdef0123456789abcdef");
    let exact = key_from_secret("0123456789abcdef0123456789abcdef");
    assert_eq!(&exact, b"0123456789abcdef0123456789abcdef");
}

#[test]
fn short_secret_is_filled_up_with_zeros() {
    let key = key_from_secret("abc");
    assert_eq!(&key[..3], b"abc");
    assert!(key[3..].iter().all(|b| *b == 0));
    assert_eq!(key_from_secret(""), [0u8; 32]);
    let accented = key_from_secret("\u{e9}");
    assert_eq!(&accented[..2], &[0xc3, 0xa9]);
    assert_eq!(accented[2], 0);
}

#[test]
fn sealing_an_empty_token_gives_the_known_tag() {
    let key = [0u8; 32];
    let nonce = [0u8; 12];
    let mut expected = vec![0u8; 12];
    expected.extend_from_slice(&[
        0x53, 0x0f, 0x8a, 0xfb, 0xc7, 0x45, 0x36, 0xb9, 0xa9, 0x63, 0xb4, 0xf1, 0xc4, 0xcb, 0x73, 0x8b,
    ]);
    assert_eq!(
        seal_token("", &key, &nonce),
        Some(base64::engine::general_purpose::STANDARD.encode(&expected))
    );
}

#[test]
fn sealed_text_starts_with_the_nonce() {
    let key = key_from_secret("secret");
    let nonce = [7u8; 12];
    let text = seal_token("token-123", &key, &nonce).expect("sealing works");
    let bytes = base64::engine::general_purpose::STANDARD.decode(&text).expect("base64");
    assert_eq!(&bytes[..12], &nonce);
    assert_eq!(bytes.len(), 12 + "token-123".len() + 16);
    assert_eq!(seal_token("token-123", &key, &nonce), Some(text));
}

#[test]
fn sealed_token_opens_under_the_same_key() {
    let key = key_from_secret("a secret of the server");
    let nonce = [1, 2, 3, 4, 5, 6, 7, 8, 9, 10, 11, 12];
    let text = seal_token("discord-token \u{e9}\u{1f600}", &key, &nonce).expect("sealing works");
    assert_eq!(decrypt_token(&text, &key), Some("discord-token \u{e9}\u{1f600}".to_string()));
    let other = key_from_secret("another secret");
    assert_eq!(decrypt_token(&text, &other), None);
}

#[test]
fn encrypting_takes_a_fresh_nonce() {
    let key = key_from_secret("k");
    let first = encrypt_token("same", &key).expect("sealing works");
    let second = encrypt_token("same", &key).expect("sealing works");
    assert_ne!(first, second);
    assert_eq!(decrypt_token(&first, &key), Some("same".to_string()));
    assert_eq!(decrypt_token(&second, &key), Some("same".to_string()));
}

#[test]
fn damaged_text_does_not_open() {
    let key = key_from_secret("k");
    assert_eq!(decrypt_token("not base64 !", &key), None);
    assert_eq!(decrypt_token("", &key), None);
    let short = base64::engine::general_purpose::STANDARD.encode([1u8; 11]);
    assert_eq!(decrypt_token(&short, &key), None);
    let only_nonce = base64::engine::general_purpose::STANDARD.encode([1u8; 12]);
    assert_eq!(decrypt_token(&only_nonce, &key), None);
    let text = seal_token("token", &key, &[9u8; 12]).expect("sealing works");
    let mut bytes = base64::engine::general_purpose::STANDARD.decode(&text).expect("base64");
    let last = bytes.len() - 1;
    bytes[last] ^= 1;
    let damaged = base64::engine::general_purpose::STANDARD.encode(&bytes);
    assert_eq!(decrypt_token(&damaged, &key), None);
}

#[test]
fn sealed_bytes_that_are_no_text_do_not_open() {
    let key = key_from_secret("k");
    let cipher = aes_gcm::Aes256Gcm::new((&key).into());
    let nonce = [3u8; 12];
    let sealed = cipher.encrypt((&nonce).into(), &[0xff, 0xfe][..]).expect("sealing works");
    let mut combined = nonce.to_vec();
    combined.extend(sealed);
    let text = base64::engine::general_purpose::STANDARD.encode(&combined);
    assert_eq!(decrypt_token(&text, &key), None);
}

#[test]
fn tokens_of_any_usual_length_seal() {
    let key = key_from_secret("k");
    for length in [0usize, 1, 15, 16, 17, 1000, 100_000] {
        let token = "x".repeat(length);
        let text = encrypt_token(&token, &key).expect("a token of this length seals");
        let bytes = base64::engine::general_purpose::STANDARD.decode(&text).expect("base64");
        assert_eq!(bytes.len(), 12 + length + 16);
        assert_eq!(decrypt_token(&text, &key), Some(token));
    }
}
