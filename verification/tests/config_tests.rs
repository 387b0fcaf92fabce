use age_credentials::KeyringPath;
use tempfile::TempDir;

#[test]
fn test_keyring_new_empty_path() {
    let err = KeyringPath::new("").unwrap_err();
    assert!(err.to_string().contains("empty"));
}

#[test]
fn test_fingerprint_paths() {
    let dir = TempDir::new().unwrap();
    let kp = KeyringPath::new(dir.path().to_str().unwrap()).unwrap();
    let priv_path = kp.fingerprint_private_path("abc123");
    let pub_path = kp.fingerprint_public_path("abc123");
    assert!(priv_path.ends_with("abc123.age"));
    assert!(pub_path.ends_with("abc123.pub"));
}
