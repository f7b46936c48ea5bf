use vult::crypto::{
    decrypt, derive_key_from_pin, derive_per_key_encryption_key, encrypt, generate_salt,
    generate_vault_key, CryptoError, EncryptedData, VaultKey,
};
use vult::services::CryptoService;

#[test]
fn crypto_test_key_derivation() {
    let pin = "mySecurePin123";
    let salt = generate_salt().unwrap();
    let key = derive_key_from_pin(pin, &salt).unwrap();
    assert_eq!(key.as_bytes().len(), 32);
}

#[test]
fn crypto_test_pin_too_short() {
    let pin = "12345";
    let salt = generate_salt().unwrap();
    assert!(derive_key_from_pin(pin, &salt).is_err());
    assert!(matches!(derive_key_from_pin(pin, &salt), Err(CryptoError::KeyDerivation(_))));
}

#[test]
fn crypto_test_encrypt_decrypt() {
    let salt = generate_salt().unwrap();
    let key = derive_key_from_pin("mySecurePin123", &salt).unwrap();
    let plaintext = b"secret api key value";

    let encrypted = encrypt(plaintext, &key).unwrap();
    let decrypted = decrypt(&encrypted, &key).unwrap();

    assert_eq!(plaintext.to_vec(), decrypted);
}

#[test]
fn crypto_test_wrong_key_fails() {
    let salt1 = generate_salt().unwrap();
    let salt2 = generate_salt().unwrap();
    let key1 = derive_key_from_pin("mySecurePin123", &salt1).unwrap();
    let key2 = derive_key_from_pin("anotherSecurePin456", &salt2).unwrap();

    let plaintext = b"secret api key value";
    let encrypted = encrypt(plaintext, &key1).unwrap();

    assert!(decrypt(&encrypted, &key2).is_err());
}

#[test]
fn test_key_derivation_deterministic() {
    let pin = "deterministicPin789";
    let salt = [42u8; 32];

    let key1 = derive_key_from_pin(pin, &salt).unwrap();
    let key2 = derive_key_from_pin(pin, &salt).unwrap();

    assert_eq!(key1.as_bytes(), key2.as_bytes());
}

#[test]
fn test_key_derivation_different_pins() {
    let salt = [42u8; 32];

    let key1 = derive_key_from_pin("pinOne123", &salt).unwrap();
    let key2 = derive_key_from_pin("pinTwo456", &salt).unwrap();

    assert_ne!(key1.as_bytes(), key2.as_bytes(), "Different PINs should produce different keys");
}

#[test]
fn test_key_derivation_different_salts() {
    let pin = "samePin789";
    let salt1 = [1u8; 32];
    let salt2 = [2u8; 32];

    let key1 = derive_key_from_pin(pin, &salt1).unwrap();
    let key2 = derive_key_from_pin(pin, &salt2).unwrap();

    assert_ne!(key1.as_bytes(), key2.as_bytes(), "Different salts should produce different keys");
}

#[test]
fn test_encryption_different_nonces() {
    let salt = generate_salt().unwrap();
    let key = derive_key_from_pin("mySecurePin123", &salt).unwrap();
    let plaintext = b"same plaintext";

    let encrypted1 = encrypt(plaintext, &key).unwrap();
    let encrypted2 = encrypt(plaintext, &key).unwrap();

    assert_ne!(encrypted1.ciphertext, encrypted2.ciphertext);
    assert_ne!(encrypted1.nonce, encrypted2.nonce);
}

#[test]
fn test_encrypt_empty_data() {
    let salt = generate_salt().unwrap();
    let key = derive_key_from_pin("mySecurePin123", &salt).unwrap();
    let plaintext = b"";

    let encrypted = encrypt(plaintext, &key).unwrap();
    assert_eq!(encrypted.ciphertext.len(), 16);
    let decrypted = decrypt(&encrypted, &key).unwrap();

    assert_eq!(plaintext.to_vec(), decrypted);
}

#[test]
fn test_decrypt_invalid_nonce_length() {
    let salt = generate_salt().unwrap();
    let key = derive_key_from_pin("mySecurePin123", &salt).unwrap();

    let encrypted = EncryptedData { ciphertext: vec![1, 2, 3], nonce: vec![1, 2] };

    assert!(decrypt(&encrypted, &key).is_err());
    assert!(matches!(decrypt(&encrypted, &key), Err(CryptoError::InvalidNonceLength)));
}

#[test]
fn test_generate_salt_randomness() {
    let salt1 = generate_salt().unwrap();
    let salt2 = generate_salt().unwrap();

    assert_ne!(salt1, salt2, "Each generated salt should be unique");
}

#[test]
fn test_vault_key_from_bytes() {
    let bytes = [1u8; 32];
    let key = VaultKey::from_bytes(bytes);

    assert_eq!(key.as_bytes(), &bytes);
}

#[test]
fn test_encryption_large_data() {
    let salt = generate_salt().unwrap();
    let key = derive_key_from_pin("mySecurePin123", &salt).unwrap();
    let plaintext = vec![42u8; 10000];

    let encrypted = encrypt(&plaintext, &key).unwrap();
    assert_eq!(encrypted.ciphertext.len(), 10016);
    assert_eq!(encrypted.nonce.len(), 12);
    let decrypted = decrypt(&encrypted, &key).unwrap();

    assert_eq!(plaintext, decrypted);
}

#[test]
fn test_derive_per_key_different_keys() {
    let master_salt = generate_salt().unwrap();
    let master_key = derive_key_from_pin("masterPin123", &master_salt).unwrap();
    let per_key_salt = generate_salt().unwrap();

    let key1 = derive_per_key_encryption_key(&master_key, "GitHub", "token1", &per_key_salt).unwrap();
    let key2 = derive_per_key_encryption_key(&master_key, "GitHub", "token2", &per_key_salt).unwrap();

    assert_ne!(
        key1.as_bytes(),
        key2.as_bytes(),
        "Different key names should produce different encryption keys"
    );
}

#[test]
fn test_derive_per_key_different_apps() {
    let master_salt = generate_salt().unwrap();
    let master_key = derive_key_from_pin("masterPin123", &master_salt).unwrap();
    let per_key_salt = generate_salt().unwrap();

    let key1 = derive_per_key_encryption_key(&master_key, "App1", "token", &per_key_salt).unwrap();
    let key2 = derive_per_key_encryption_key(&master_key, "App2", "token", &per_key_salt).unwrap();

    assert_ne!(
        key1.as_bytes(),
        key2.as_bytes(),
        "Different app names should produce different encryption keys"
    );
}

#[test]
fn test_derive_per_key_different_salts() {
    let master_salt = generate_salt().unwrap();
    let master_key = derive_key_from_pin("masterPin123", &master_salt).unwrap();
    let salt1 = generate_salt().unwrap();
    let salt2 = generate_salt().unwrap();

    let key1 = derive_per_key_encryption_key(&master_key, "GitHub", "token", &salt1).unwrap();
    let key2 = derive_per_key_encryption_key(&master_key, "GitHub", "token", &salt2).unwrap();

    assert_ne!(
        key1.as_bytes(),
        key2.as_bytes(),
        "Different salts should produce different encryption keys"
    );
}

#[test]
fn test_derive_per_key_deterministic() {
    let master_salt = generate_salt().unwrap();
    let master_key = derive_key_from_pin("masterPin123", &master_salt).unwrap();
    let per_key_salt = [42u8; 32];

    let key1 = derive_per_key_encryption_key(&master_key, "GitHub", "token", &per_key_salt).unwrap();
    let key2 = derive_per_key_encryption_key(&master_key, "GitHub", "token", &per_key_salt).unwrap();

    assert_eq!(key1.as_bytes(), key2.as_bytes(), "Same inputs should produce same encryption key");
    assert_ne!(key1.as_bytes(), master_key.as_bytes());
}

#[test]
fn test_per_key_encryption_roundtrip() {
    let master_salt = generate_salt().unwrap();
    let master_key = derive_key_from_pin("masterPin123", &master_salt).unwrap();
    let per_key_salt = generate_salt().unwrap();

    let per_key =
        derive_per_key_encryption_key(&master_key, "GitHub", "pat_token", &per_key_salt).unwrap();
    let plaintext = b"ghp_secret_token_value";

    let encrypted = encrypt(plaintext, &per_key).unwrap();
    assert_ne!(&encrypted.ciphertext[..plaintext.len()], &plaintext[..]);
    let decrypted = decrypt(&encrypted, &per_key).unwrap();

    assert_eq!(plaintext.to_vec(), decrypted);
}

#[test]
fn tampered_ciphertext_or_nonce_fails() {
    let key = generate_vault_key().unwrap();
    let encrypted = encrypt(b"tamper me", &key).unwrap();
    for pos in 0..encrypted.ciphertext.len() {
        let mut tampered = encrypted.clone();
        tampered.ciphertext[pos] ^= 0x01;
        assert!(matches!(decrypt(&tampered, &key), Err(CryptoError::Decryption(_))));
    }
    for pos in 0..encrypted.nonce.len() {
        let mut tampered = encrypted.clone();
        tampered.nonce[pos] ^= 0x80;
        assert!(matches!(decrypt(&tampered, &key), Err(CryptoError::Decryption(_))));
    }
}

#[test]
fn wiped_key_is_all_zero() {
    let mut key = VaultKey::from_bytes([0xAB; 32]);
    let copy = key.duplicate();
    key.wipe();
    assert_eq!(key.as_bytes(), &[0u8; 32]);
    assert_eq!(copy.as_bytes(), &[0xAB; 32]);
}

#[test]
fn test_encrypt_decrypt_roundtrip() {
    let service = CryptoService::new();
    let salt = service.generate_salt().unwrap();
    let key = service.derive_master_key("test-pin-123", &salt).unwrap();

    let plaintext = b"secret api key value";
    let encrypted = service.encrypt(plaintext, &key).unwrap();
    let decrypted = service.decrypt(&encrypted, &key).unwrap();

    assert_eq!(plaintext.as_slice(), decrypted.as_slice());
}

#[test]
fn test_per_key_encryption() {
    let service = CryptoService::new();
    let salt = service.generate_salt().unwrap();
    let master_key = service.derive_master_key("test-pin-123", &salt).unwrap();

    let (encrypted, key_salt) =
        service.encrypt_api_key("my-secret-key", &master_key, "github", "token").unwrap();

    let decrypted =
        service.decrypt_api_key(&encrypted, &master_key, "github", "token", &key_salt).unwrap();

    assert_eq!("my-secret-key", decrypted);
    assert!(service
        .decrypt_api_key(&encrypted, &master_key, "github", "other", &key_salt)
        .is_err());
}

#[test]
fn short_ciphertext_fails_to_decrypt() {
    let key = generate_vault_key().unwrap();
    for len in [0usize, 3, 15] {
        let blob = EncryptedData { ciphertext: vec![7u8; len], nonce: vec![0u8; 12] };
        assert!(matches!(decrypt(&blob, &key), Err(CryptoError::Decryption(_))));
    }
}

#[test]
fn encrypt_with_given_nonce_keeps_it() {
    let key = VaultKey::from_bytes([21u8; 32]);
    let nonce = [5u8; 12];
    let a = vult::crypto::encrypt_with_nonce(b"abc", &key, &nonce).unwrap();
    let b = vult::crypto::encrypt_with_nonce(b"abc", &key, &nonce).unwrap();
    assert_eq!(a.nonce, nonce.to_vec());
    assert_eq!(a.ciphertext, b.ciphertext);
    assert_eq!(a.ciphertext.len(), 3 + 16);
    assert_eq!(decrypt(&a, &key).unwrap(), b"abc".to_vec());
}
