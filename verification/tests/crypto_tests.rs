use aibot_rust_sdk::crypto::{pkcs7_strip, strip_pkcs7_padding, PaddingError};
use aibot_rust_sdk::decrypt_file;
use base64::engine::general_purpose::STANDARD;
use base64::Engine;
use cipher::{block_padding::NoPadding, BlockEncryptMut, KeyIvInit};

fn key_bytes() -> Vec<u8> {
    (0u8..32).map(|i| i.wrapping_mul(7).wrapping_add(3)).collect()
}

fn pad32(data: &[u8]) -> Vec<u8> {
    let n = 32 - (data.len() % 32);
    let mut v = data.to_vec();
    v.extend(std::iter::repeat(n as u8).take(n));
    v
}

fn encrypt(key: &[u8], plain_padded: &[u8]) -> Vec<u8> {
    let mut buf = plain_padded.to_vec();
    let len = buf.len();
    let enc = cbc::Encryptor::<aes::Aes256>::new_from_slices(key, &key[0..16]).unwrap();
    enc.encrypt_padded_mut::<NoPadding>(&mut buf, len).unwrap().to_vec()
}

#[test]
fn decrypt_file_recovers_plaintext() {
    let key = key_bytes();
    let plain = b"hello, encrypted world".to_vec();
    let encrypted = encrypt(&key, &pad32(&plain));
    assert_ne!(encrypted, pad32(&plain));
    let key_text = STANDARD.encode(&key);
    assert_eq!(decrypt_file(&encrypted, &key_text), Ok(plain));
}

#[test]
fn decrypt_file_full_padding_block() {
    let key = key_bytes();
    let plain = vec![0x41u8; 32];
    let padded = pad32(&plain);
    assert_eq!(padded.len(), 64);
    let encrypted = encrypt(&key, &padded);
    assert_eq!(decrypt_file(&encrypted, &STANDARD.encode(&key)), Ok(plain));
}

#[test]
fn decrypt_file_empty_input() {
    assert_eq!(
        decrypt_file(&[], "AAAA"),
        Err("decrypt_file: encryptedBuffer is empty or not provided".to_string())
    );
}

#[test]
fn decrypt_file_blank_key() {
    assert_eq!(
        decrypt_file(&[1, 2, 3], " \t\u{3000}"),
        Err("decrypt_file: aesKey must be a non-empty string".to_string())
    );
}

#[test]
fn decrypt_file_invalid_base64() {
    let err = STANDARD.decode(b"!!!!").unwrap_err().to_string();
    assert_eq!(
        decrypt_file(&[1, 2, 3], "!!!!"),
        Err(format!("decrypt_file: invalid base64 aesKey: {}", err))
    );
}

#[test]
fn decrypt_file_short_key() {
    let key = STANDARD.encode([7u8; 16]);
    assert_eq!(
        decrypt_file(&[0u8; 16], &key),
        Err("decrypt_file: aesKey length invalid: 16".to_string())
    );
}

#[test]
fn decrypt_file_long_key() {
    let key = STANDARD.encode([7u8; 48]);
    assert_eq!(
        decrypt_file(&[0u8; 16], &key),
        Err("decrypt_file: cipher init failed: Invalid Length".to_string())
    );
}

#[test]
fn decrypt_file_partial_block() {
    let key = STANDARD.encode(key_bytes());
    assert_eq!(
        decrypt_file(&[0u8; 20], &key),
        Err("decrypt_file: Decryption failed - Unpad Error".to_string())
    );
}

#[test]
fn decrypt_file_bad_padding_value() {
    let key = key_bytes();
    let mut padded = vec![5u8; 32];
    padded[31] = 40;
    let encrypted = encrypt(&key, &padded);
    assert_eq!(
        decrypt_file(&encrypted, &STANDARD.encode(&key)),
        Err("decrypt_file: Invalid PKCS#7 padding value: 40".to_string())
    );
}

#[test]
fn decrypt_file_padding_mismatch() {
    let key = key_bytes();
    let mut padded = vec![9u8; 32];
    padded[30] = 3;
    padded[31] = 4;
    let encrypted = encrypt(&key, &padded);
    assert_eq!(
        decrypt_file(&encrypted, &STANDARD.encode(&key)),
        Err("decrypt_file: Invalid PKCS#7 padding: padding bytes mismatch".to_string())
    );
}

#[test]
fn pkcs7_strip_cases() {
    assert_eq!(pkcs7_strip(&[]), Err(PaddingError::Empty));
    assert_eq!(pkcs7_strip(&[1, 2, 0]), Err(PaddingError::InvalidValue(0)));
    assert_eq!(pkcs7_strip(&[1, 33]), Err(PaddingError::InvalidValue(33)));
    assert_eq!(pkcs7_strip(&[3, 3]), Err(PaddingError::InvalidValue(3)));
    assert_eq!(pkcs7_strip(&[1, 2, 2]), Ok(vec![1]));
    assert_eq!(pkcs7_strip(&[1, 3, 2]), Err(PaddingError::Mismatch));
    assert_eq!(pkcs7_strip(&[1]), Ok(vec![]));
}

#[test]
fn pkcs7_unpad_inverts_padding_example() {
    for n in 1u8..=32 {
        let data = vec![0xAAu8; 5];
        let mut padded = data.clone();
        padded.extend(std::iter::repeat(n).take(n as usize));
        assert_eq!(pkcs7_strip(&padded), Ok(data));
    }
}

#[test]
fn strip_pkcs7_padding_messages() {
    assert_eq!(strip_pkcs7_padding(&[]), Err("decrypt_file: Decrypted data is empty".to_string()));
    assert_eq!(strip_pkcs7_padding(&[4, 4, 4, 4]), Ok(vec![]));
}
