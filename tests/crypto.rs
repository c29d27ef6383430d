use aichat::crypto::{CryptoError, CryptoManager};

fn manager() -> CryptoManager {
    CryptoManager::from_key((0u8..32).collect()).unwrap()
}

#[test]
fn round_trip() {
    let m = manager();
    let sealed = m.encrypt("my api key").unwrap();
    assert_ne!(sealed, "my api key");
    assert_eq!(m.decrypt(&sealed).unwrap(), "my api key");
    let again = m.encrypt("my api key").unwrap();
    assert_ne!(sealed, again);
}

#[test]
fn fixed_nonce_is_deterministic() {
    let m = manager();
    let nonce = [7u8; 12];
    let a = m.encrypt_with_nonce(&nonce, "secret").unwrap();
    let b = m.encrypt_with_nonce(&nonce, "secret").unwrap();
    assert_eq!(a, b);
    // 12 nonce bytes + 6 plaintext bytes + 16 tag bytes = 34 bytes = 48 base64 characters
    assert_eq!(a.len(), 48);
    assert!(a.starts_with("BwcHBwcHBwcHBwcH"));
    assert_eq!(m.decrypt(&a).unwrap(), "secret");
    assert_eq!(m.encrypt_with_nonce(&[1u8; 5], "x"), Err(CryptoError::BadNonceLength));
}

#[test]
fn error_kinds() {
    let m = manager();
    assert!(matches!(CryptoManager::from_key(vec![0u8; 16]), Err(CryptoError::BadKeyLength)));
    assert_eq!(m.decrypt("!!not base64!!"), Err(CryptoError::InvalidBase64));
    assert_eq!(m.decrypt("AAAA"), Err(CryptoError::TooShort));
    let sealed = m.encrypt("hello").unwrap();
    let other = CryptoManager::from_key(vec![9u8; 32]).unwrap();
    assert_eq!(other.decrypt(&sealed), Err(CryptoError::Decryption));
    let mut bytes = vec![0u8; 12];
    bytes.extend_from_slice(&[1, 2, 3]);
    assert_eq!(m.decrypt_bytes(&bytes), Err(CryptoError::Decryption));
}
