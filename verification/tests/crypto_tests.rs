use age_credentials::agecore::crypto::{
    decrypt, decrypt_with_passphrase, encrypt, encrypt_multiple, encrypt_with_passphrase,
    generate_keypair,
};
use age_credentials::AgeCredentialsError;

#[test]
fn test_keygen_success() {
    let kp = generate_keypair().expect("keygen failed");
    assert!(!kp.public_key.is_empty());
    assert!(!kp.secret_key.is_empty());
}

#[test]
fn test_encrypt_decrypt_roundtrip() {
    let kp = generate_keypair().unwrap();
    let plaintext = b"Hello, Age!";
    let ciphertext = encrypt(plaintext, &kp.public_key).unwrap();
    let decrypted = decrypt(&ciphertext, &kp.secret_key).unwrap();
    assert_eq!(decrypted, plaintext);
}

#[test]
fn test_encrypt_invalid_public_key() {
    let err = encrypt(b"data", "not-a-valid-key").unwrap_err();
    match err {
        AgeCredentialsError::EncryptionFailed {
            code, recipients, ..
        } => {
            assert!(code.contains("INVALID") || code.contains("FAILED"));
            assert_eq!(recipients, vec!["not-a-valid-key"]);
        }
        _ => panic!("Wrong error variant"),
    }
}

#[test]
fn test_decrypt_wrong_key() {
    let kp1 = generate_keypair().unwrap();
    let kp2 = generate_keypair().unwrap();
    let ciphertext = encrypt(b"secret", &kp1.public_key).unwrap();
    let err = decrypt(&ciphertext, &kp2.secret_key).unwrap_err();
    match err {
        AgeCredentialsError::DecryptionFailed { code, .. } => {
            assert!(code.contains("NO_MATCHING") || code.contains("DECRYPTION"));
        }
        _ => panic!("Wrong error variant"),
    }
}

#[test]
fn test_encrypt_multiple() {
    let kp1 = generate_keypair().unwrap();
    let kp2 = generate_keypair().unwrap();
    let ciphertext = encrypt_multiple(b"multi", &[&kp1.public_key, &kp2.public_key]).unwrap();
    let dec1 = decrypt(&ciphertext, &kp1.secret_key).unwrap();
    let dec2 = decrypt(&ciphertext, &kp2.secret_key).unwrap();
    assert_eq!(dec1, dec2);
    assert_eq!(dec1, b"multi");
}

#[test]
fn passphrase_roundtrip_with_long_passphrase() {
    let plaintext = b"passphrase test";
    let ciphertext = encrypt_with_passphrase(plaintext, "s3cret-passphrase").unwrap();
    let decrypted = decrypt_with_passphrase(&ciphertext, "s3cret-passphrase").unwrap();
    assert_eq!(decrypted, plaintext);
}

#[test]
fn wrong_long_passphrase_is_decryption_failure() {
    let ciphertext = encrypt_with_passphrase(b"data", "correct-horse").unwrap();
    let err = decrypt_with_passphrase(&ciphertext, "wrong-battery").unwrap_err();
    match err {
        AgeCredentialsError::DecryptionFailed { code, hint, .. } => {
            assert!(code.contains("DECRYPTION") || code.contains("FAILED"));
            assert_eq!(hint, "Check passphrase");
        }
        _ => panic!("Wrong error variant"),
    }
}

#[test]
fn short_passphrase_is_refused() {
    let err = encrypt_with_passphrase(b"data", "s3cret").unwrap_err();
    match err {
        AgeCredentialsError::PassphraseTooShort { length, min_length } => {
            assert_eq!(length, 6);
            assert_eq!(min_length, 8);
        }
        _ => panic!("Wrong error variant"),
    }
    let err = decrypt_with_passphrase(b"anything", "wrong").unwrap_err();
    assert!(matches!(err, AgeCredentialsError::PassphraseTooShort { length: 5, min_length: 8 }));
}

// Passphrases need at least eight characters, so the six-character "s3cret"
// is refused before anything is encrypted or decrypted.
#[test]
fn test_passphrase_roundtrip() {
    let plaintext = b"passphrase test";
    let err = encrypt_with_passphrase(plaintext, "s3cret").unwrap_err();
    assert!(matches!(err, AgeCredentialsError::PassphraseTooShort { length: 6, min_length: 8 }));
    let err = decrypt_with_passphrase(plaintext, "s3cret").unwrap_err();
    assert!(matches!(err, AgeCredentialsError::PassphraseTooShort { length: 6, min_length: 8 }));
}

// "correct" has seven characters, one short of the minimum, so encryption
// with it is refused.
#[test]
fn test_decrypt_wrong_passphrase() {
    let err = encrypt_with_passphrase(b"data", "correct").unwrap_err();
    assert!(matches!(err, AgeCredentialsError::PassphraseTooShort { length: 7, min_length: 8 }));
    let err = decrypt_with_passphrase(b"data", "wrong").unwrap_err();
    assert!(matches!(err, AgeCredentialsError::PassphraseTooShort { length: 5, min_length: 8 }));
}

#[test]
fn decrypt_failure_carries_librage_code() {
    let kp1 = generate_keypair().unwrap();
    let kp2 = generate_keypair().unwrap();
    let ct = encrypt(b"secret", &kp1.public_key).unwrap();
    match decrypt(&ct, &kp2.secret_key).unwrap_err() {
        AgeCredentialsError::DecryptionFailed { identity, hint, code, .. } => {
            assert!(identity.is_none());
            assert_eq!(hint, "Verify secret key or ciphertext integrity");
            assert_eq!(code, "NO_MATCHING_KEYS");
        }
        other => panic!("unexpected error {:?}", other),
    }
    match decrypt(&ct, "not a key").unwrap_err() {
        AgeCredentialsError::DecryptionFailed { code, .. } => assert_eq!(code, "INVALID_SECRET_KEY"),
        other => panic!("unexpected error {:?}", other),
    }
}
