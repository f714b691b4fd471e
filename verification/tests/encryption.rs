use aes_gcm::aead::Aead;
use aes_gcm::KeyInit;
use base64::Engine;
use network_manager::encryption::{EncryptionError, ProfileEncryption, NONCE_LEN, SALT_LEN};
use sha2::Digest;

fn marker_key(passphrase: &str) -> Vec<u8> {
    let mut hasher = sha2::Sha256::new();
    hasher.update(passphrase.as_bytes());
    hasher.update(b"presence-marker");
    hasher.finalize().to_vec()
}

fn legacy_message(passphrase: &str, nonce: &[u8; 12], plaintext: &[u8]) -> String {
    let cipher = aes_gcm::Aes256Gcm::new_from_slice(&marker_key(passphrase)).unwrap();
    let sealed = cipher.encrypt(aes_gcm::Nonce::from_slice(nonce), plaintext).unwrap();
    let mut data = nonce.to_vec();
    data.extend(sealed);
    base64::engine::general_purpose::STANDARD.encode(data)
}

#[test]
fn test_encrypt_decrypt() {
    let enc = ProfileEncryption::with_key("test-password");
    let plaintext = "Hello, World!";

    let encrypted = enc.encrypt(plaintext).expect("encryption failed");
    let decrypted = enc.decrypt(&encrypted).expect("decryption failed");

    assert_eq!(plaintext, decrypted);
}

#[test]
fn test_wrong_key() {
    let enc1 = ProfileEncryption::with_key("password1");
    let enc2 = ProfileEncryption::with_key("password2");

    let encrypted = enc1.encrypt("secret data").expect("encryption failed");
    let result = enc2.decrypt(&encrypted);

    assert!(result.is_err());
}

#[test]
fn test_no_key() {
    let enc = ProfileEncryption::new();
    let result = enc.encrypt("test");

    assert!(matches!(result, Err(EncryptionError::NoKeySet)));
}

#[test]
fn keys_are_set_and_cleared() {
    let mut enc = ProfileEncryption::new();
    assert!(!enc.has_key());
    assert!(!ProfileEncryption::default().has_key());
    enc.set_key("secret");
    assert!(enc.has_key());
    enc.clear_key();
    assert!(!enc.has_key());
    assert_eq!(enc.decrypt("AAAA"), Err(EncryptionError::NoKeySet));
    assert_eq!(enc.encrypt_with(&[0; 16], &[0; 12], "x"), Err(EncryptionError::NoKeySet));
    assert!(ProfileEncryption::with_key("").has_key());
}

#[test]
fn messages_are_framed_as_salt_nonce_ciphertext() {
    let enc = ProfileEncryption::with_key("frame");
    let salt: [u8; 16] = [1, 2, 3, 4, 5, 6, 7, 8, 9, 10, 11, 12, 13, 14, 15, 16];
    let nonce: [u8; 12] = [21, 22, 23, 24, 25, 26, 27, 28, 29, 30, 31, 32];
    assert_eq!((salt.len(), nonce.len()), (SALT_LEN, NONCE_LEN));
    let text = enc.encrypt_with(&salt, &nonce, "profile data").unwrap();
    let data = base64::engine::general_purpose::STANDARD.decode(&text).unwrap();
    assert_eq!(data.len(), 16 + 12 + "profile data".len() + 16);
    assert_eq!(&data[..16], &salt);
    assert_eq!(&data[16..28], &nonce);
    assert_ne!(&data[28..28 + 12], "profile data".as_bytes());
    assert_eq!(enc.encrypt_with(&salt, &nonce, "profile data").unwrap(), text);
    assert_ne!(enc.encrypt_with(&[0; 16], &nonce, "profile data").unwrap(), text);
    assert_eq!(enc.decrypt(&text), Ok("profile data".to_string()));
    let other = ProfileEncryption::with_key("Frame");
    assert_ne!(other.encrypt_with(&salt, &nonce, "profile data").unwrap(), text);
    assert_eq!(other.decrypt(&text), Err(EncryptionError::DecryptionFailed));
}

#[test]
fn fresh_salt_and_nonce_for_every_message() {
    let enc = ProfileEncryption::with_key("fresh");
    let a = enc.encrypt("same").unwrap();
    let b = enc.encrypt("same").unwrap();
    assert_ne!(a, b);
    assert_eq!(enc.decrypt(&a), Ok("same".to_string()));
    assert_eq!(enc.decrypt(&b), Ok("same".to_string()));
    assert_eq!(enc.decrypt(&enc.encrypt("").unwrap()), Ok(String::new()));
    let long = "\u{e4}\u{20ac}\u{1f600} ".repeat(300);
    assert_eq!(enc.decrypt(&enc.encrypt(&long).unwrap()), Ok(long));
}

#[test]
fn messages_of_the_former_format_are_still_read() {
    let enc = ProfileEncryption::with_key("old-password");
    let text = legacy_message("old-password", &[7; 12], b"kept since the first release");
    assert_eq!(enc.decrypt(&text), Ok("kept since the first release".to_string()));
    let other = ProfileEncryption::with_key("new-password");
    assert_eq!(other.decrypt(&text), Err(EncryptionError::DecryptionFailed));
}

#[test]
fn damaged_data_is_refused() {
    let enc = ProfileEncryption::with_key("damage");
    assert!(matches!(enc.decrypt("not base64!"), Err(EncryptionError::InvalidData(_))));
    assert_eq!(enc.decrypt(""), Err(EncryptionError::DecryptionFailed));
    assert_eq!(enc.decrypt("AAAAAAAAAAAAAAAA"), Err(EncryptionError::DecryptionFailed));
    let text = enc.encrypt("payload").unwrap();
    let mut data = base64::engine::general_purpose::STANDARD.decode(&text).unwrap();
    let last = data.len() - 1;
    data[last] ^= 1;
    let damaged = base64::engine::general_purpose::STANDARD.encode(&data);
    assert_eq!(enc.decrypt(&damaged), Err(EncryptionError::DecryptionFailed));
    let not_text = legacy_message("damage", &[9; 12], &[0xff, 0xfe, 0x00]);
    assert!(matches!(enc.decrypt(&not_text), Err(EncryptionError::InvalidData(_))));
}
