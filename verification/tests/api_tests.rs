use age_credentials::account::AccountEngine;
use age_credentials::backend::traits::AccountBackend;
use age_credentials::domain::error::Result;
use age_credentials::domain::fingerprint::Fingerprint;
use age_credentials::domain::identity::Identity;
use age_credentials::domain::types::UserID;
use age_credentials::SecretBytes;
use sha2::Digest;
use std::collections::HashMap;

struct MockBackend {
    identities: HashMap<String, Identity>,
    private_keys: HashMap<String, Vec<u8>>,
}

impl MockBackend {
    fn new() -> Self {
        Self {
            identities: HashMap::new(),
            private_keys: HashMap::new(),
        }
    }
}

impl AccountBackend for MockBackend {
    fn save_identity(&mut self, identity: &Identity) -> Result<()> {
        self.identities
            .insert(identity.fingerprint.to_string(), identity.clone());
        Ok(())
    }

    fn load_identity(&self, fingerprint: &Fingerprint) -> Result<Option<Identity>> {
        Ok(self.identities.get(&fingerprint.to_string()).cloned())
    }

    fn delete_identity(&mut self, fingerprint: &Fingerprint) -> Result<()> {
        self.identities.remove(&fingerprint.to_string());
        self.private_keys.remove(&fingerprint.to_string());
        Ok(())
    }

    fn store_encrypted_private_key(
        &mut self,
        fingerprint: &Fingerprint,
        encrypted_key: &[u8],
    ) -> Result<()> {
        self.private_keys
            .insert(fingerprint.to_string(), encrypted_key.to_vec());
        Ok(())
    }

    fn load_encrypted_private_key(&self, fingerprint: &Fingerprint) -> Result<Option<SecretBytes>> {
        Ok(self
            .private_keys
            .get(&fingerprint.to_string())
            .map(|k| SecretBytes::new(k.clone())))
    }

    fn list_fingerprints(&self) -> Result<Vec<Fingerprint>> {
        Ok(self
            .identities
            .keys()
            .filter_map(|k| Fingerprint::new(k).ok())
            .collect())
    }
}

#[test]
fn test_create_and_find_account() {
    let mut backend = MockBackend::new();
    let user = UserID::new("Alice", "alice@example.com").unwrap();
    let account =
        AccountEngine::create_account(&mut backend, user, "strongpassword", None).unwrap();

    let found = AccountEngine::find_by_email(&backend, "alice@example.com")
        .unwrap()
        .unwrap();
    assert_eq!(found.fingerprint, account.fingerprint);
}

#[test]
fn test_encrypt_decrypt_for_account() {
    let mut backend = MockBackend::new();
    let user = UserID::new("Bob", "bob@example.com").unwrap();
    let account = AccountEngine::create_account(&mut backend, user, "bobpass123", None).unwrap();

    let plaintext = b"secret message";
    let encrypted =
        AccountEngine::encrypt_for_account(&backend, &account.fingerprint, plaintext).unwrap();
    let decrypted = AccountEngine::decrypt_for_account(
        &backend,
        &account.fingerprint,
        "bobpass123",
        &encrypted,
    )
    .unwrap();
    assert_eq!(*decrypted, plaintext);
}

#[test]
fn test_change_passphrase() {
    let mut backend = MockBackend::new();
    let user = UserID::new("Carol", "carol@example.com").unwrap();
    let account = AccountEngine::create_account(&mut backend, user, "oldpassword", None).unwrap();

    AccountEngine::change_passphrase(
        &mut backend,
        &account.fingerprint,
        "oldpassword",
        "newpassword",
    )
    .unwrap();

    let encrypted =
        AccountEngine::encrypt_for_account(&backend, &account.fingerprint, b"test").unwrap();
    let decrypted = AccountEngine::decrypt_for_account(
        &backend,
        &account.fingerprint,
        "newpassword",
        &encrypted,
    )
    .unwrap();
    assert_eq!(*decrypted, b"test");
}

#[test]
fn test_delete_account() {
    let mut backend = MockBackend::new();
    let user = UserID::new("Dave", "dave@example.com").unwrap();
    let account = AccountEngine::create_account(&mut backend, user, "pass12345", None).unwrap();

    AccountEngine::delete_account(&mut backend, &account.fingerprint).unwrap();
    assert!(
        AccountEngine::find_by_email(&backend, "dave@example.com")
            .unwrap()
            .is_none()
    );
}

#[test]
fn test_list_accounts() {
    let mut backend = MockBackend::new();
    let u1 = UserID::new("Alice", "a@example.com").unwrap();
    let u2 = UserID::new("Bob", "b@example.com").unwrap();
    AccountEngine::create_account(&mut backend, u1, "password1", None).unwrap();
    AccountEngine::create_account(&mut backend, u2, "password2", None).unwrap();

    let list = AccountEngine::list_accounts(&backend).unwrap();
    assert_eq!(list.len(), 2);
}

#[test]
fn export_sealed_payload_opens_and_imports() {
    let mut backend = MockBackend::new();
    let user = UserID::new("Eve", "eve@example.com").unwrap();
    let account = AccountEngine::create_account(&mut backend, user, "exportpass", None).unwrap();

    let (identity, key) = AccountEngine::export_contents(&backend, &account.fingerprint).unwrap();
    assert_eq!(identity.fingerprint, account.fingerprint);
    let payload = key.to_vec();
    let sealed = AccountEngine::seal_export(&payload, "exportpass").unwrap();
    assert!(sealed.chars().all(|c| c.is_ascii_hexdigit() && !c.is_ascii_uppercase()));
    let opened = AccountEngine::open_export(&sealed, "exportpass").unwrap();
    assert_eq!(opened, payload);

    let mut backend2 = MockBackend::new();
    let imported = AccountEngine::import_contents(&mut backend2, identity, &opened).unwrap();
    assert_eq!(imported.fingerprint, account.fingerprint);
    assert_eq!(imported.user_id, account.user_id);
    let found = AccountEngine::find_by_email(&backend2, "eve@example.com").unwrap().unwrap();
    assert_eq!(found.fingerprint, account.fingerprint);
    let ct = AccountEngine::encrypt_for_account(&backend2, &account.fingerprint, b"moved").unwrap();
    let pt = AccountEngine::decrypt_for_account(&backend2, &account.fingerprint, "exportpass", &ct).unwrap();
    assert_eq!(*pt, b"moved");
}

#[test]
fn account_fingerprint_is_sha256_of_public_key() {
    let mut backend = MockBackend::new();
    let user = UserID::new("Fay", "fay@example.com").unwrap();
    let account = AccountEngine::create_account(&mut backend, user, "fay-password", Some("work".to_string())).unwrap();
    let digest = sha2::Sha256::digest(account.public_key.as_bytes());
    let expected: String = digest.iter().map(|b| format!("{:02x}", b)).collect();
    assert_eq!(account.fingerprint.as_str(), expected);
    assert_eq!(account.label.as_deref(), Some("work"));
}

#[test]
fn missing_account_is_not_found() {
    let backend = MockBackend::new();
    let fp = Fingerprint::new("abcdef").unwrap();
    let err = AccountEngine::encrypt_for_account(&backend, &fp, b"x").unwrap_err();
    assert!(matches!(err, age_credentials::domain::error::AccountError::AccountNotFound(ref s) if s == "abcdef"));
    let err = AccountEngine::decrypt_for_account(&backend, &fp, "password1", b"x").unwrap_err();
    assert!(matches!(err, age_credentials::domain::error::AccountError::AccountNotFound(_)));
}

#[test]
fn wrong_passphrase_for_account_fails() {
    let mut backend = MockBackend::new();
    let user = UserID::new("Gus", "gus@example.com").unwrap();
    let account = AccountEngine::create_account(&mut backend, user, "right-pass", None).unwrap();
    let ct = AccountEngine::encrypt_for_account(&backend, &account.fingerprint, b"m").unwrap();
    let err = AccountEngine::decrypt_for_account(&backend, &account.fingerprint, "wrong-pass", &ct).unwrap_err();
    assert!(matches!(err, age_credentials::domain::error::AccountError::DecryptionFailed { .. }));
    let err = AccountEngine::create_account(&mut backend, UserID::new("Hal", "hal@example.com").unwrap(), "short", None).unwrap_err();
    assert!(matches!(err, age_credentials::domain::error::AccountError::PassphraseTooShort { length: 5, min_length: 8 }));
}

#[test]
fn find_by_email_unknown_is_none() {
    let mut backend = MockBackend::new();
    let user = UserID::new("Carol", "carol@example.com").unwrap();
    AccountEngine::create_account(&mut backend, user, "password9", None).unwrap();
    assert!(AccountEngine::find_by_email(&backend, "nobody@example.com").unwrap().is_none());
    assert!(backend.find_by_email("nobody@example.com").unwrap().is_none());
}

#[test]
fn short_passphrase_leaves_backend_empty() {
    let mut backend = MockBackend::new();
    let user = UserID::new("Frank", "frank@example.com").unwrap();
    assert!(AccountEngine::create_account(&mut backend, user, "éééé", None).is_err());
    assert!(AccountEngine::list_accounts(&backend).unwrap().is_empty());
}

#[test]
fn change_passphrase_keeps_other_accounts() {
    let mut backend = MockBackend::new();
    let a = AccountEngine::create_account(&mut backend, UserID::new("Gina", "gina@example.com").unwrap(), "password1", None).unwrap();
    let b = AccountEngine::create_account(&mut backend, UserID::new("Hank", "hank@example.com").unwrap(), "password2", None).unwrap();
    let ct = AccountEngine::encrypt_for_account(&backend, &b.fingerprint, b"for hank").unwrap();
    AccountEngine::change_passphrase(&mut backend, &a.fingerprint, "password1", "password3").unwrap();
    let pt = AccountEngine::decrypt_for_account(&backend, &b.fingerprint, "password2", &ct).unwrap();
    assert_eq!(pt.as_slice(), b"for hank");
    assert!(AccountEngine::change_passphrase(&mut backend, &a.fingerprint, "password1", "password4").is_err());
}

#[test]
fn key_bytes_that_are_not_utf8_are_refused() {
    let err = age_credentials::crypto::decrypt_with_key_bytes(&[0xff, 0xfe], b"ct").unwrap_err();
    match err {
        age_credentials::domain::error::AccountError::InvalidData { context, details } => {
            assert_eq!(context, "secret key decryption");
            assert_eq!(details, "Decrypted key is not valid UTF-8");
        }
        other => panic!("unexpected error {:?}", other),
    }
    let kp = age_credentials::crypto::generate_keypair().unwrap();
    let ct = age_credentials::crypto::encrypt(b"hi", &kp.public_key).unwrap();
    let pt = age_credentials::crypto::decrypt_with_key_bytes(kp.secret_key.as_str().as_bytes(), &ct).unwrap();
    assert_eq!(pt, b"hi");
}

#[test]
fn open_export_refuses_bad_hex_and_short_passphrase() {
    match AccountEngine::open_export("zz", "password1").unwrap_err() {
        age_credentials::domain::error::AccountError::InvalidData { context, .. } => assert_eq!(context, "hex decode"),
        other => panic!("unexpected error {:?}", other),
    }
    assert!(matches!(
        AccountEngine::open_export("abcd", "short").unwrap_err(),
        age_credentials::domain::error::AccountError::PassphraseTooShort { length: 5, min_length: 8 }
    ));
}

#[test]
fn change_passphrase_refuses_short_passphrases() {
    let mut backend = MockBackend::new();
    let a = AccountEngine::create_account(&mut backend, UserID::new("Ivy", "ivy@example.com").unwrap(), "password1", None).unwrap();
    assert!(matches!(
        AccountEngine::change_passphrase(&mut backend, &a.fingerprint, "pass", "password2").unwrap_err(),
        age_credentials::domain::error::AccountError::PassphraseTooShort { length: 4, min_length: 8 }
    ));
    assert!(matches!(
        AccountEngine::change_passphrase(&mut backend, &a.fingerprint, "password1", "short").unwrap_err(),
        age_credentials::domain::error::AccountError::PassphraseTooShort { length: 5, min_length: 8 }
    ));
}
