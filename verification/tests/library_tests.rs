use age_credentials::agecore::crypto::recipient::{parse_recipient_lines, scan_recipient_lines};
use age_credentials::agecore::crypto::{decrypt, encrypt, encrypt_armored, encrypt_multiple, encrypt_multiple_armored, generate_keypair};
use age_credentials::domain::error::AccountError;
use age_credentials::{
    check_encrypted_private_key, hex_decode, hex_encode, keyring_not_found, public_key_file_text,
    public_key_from_text, validate_public_key_string, validate_user_email, validate_user_name,
    AgeCredentialsError, Fingerprint, KeyringPath, Metadata, SecretBytes, SecretText, UserID,
};

fn invalid_data_details(e: AgeCredentialsError) -> (String, String) {
    match e {
        AgeCredentialsError::InvalidData { context, details } => (context.to_string(), details),
        other => panic!("unexpected error {:?}", other),
    }
}

fn user_id_reason(e: AgeCredentialsError) -> String {
    match e {
        AgeCredentialsError::InvalidUserId { reason } => reason,
        other => panic!("unexpected error {:?}", other),
    }
}

#[test]
fn hex_encode_is_lower_case_two_digits_per_byte() {
    assert_eq!(hex_encode(&[]), "");
    assert_eq!(hex_encode(&[0x01, 0x02, 0xff]), "0102ff");
    assert_eq!(hex_encode(&[0xde, 0xad, 0xbe, 0xef]), "deadbeef");
}

#[test]
fn hex_decode_then_encode_gives_trimmed_lower_case() {
    let bytes = hex_decode("  DeadBEEF\n").unwrap();
    assert_eq!(bytes, vec![0xde, 0xad, 0xbe, 0xef]);
    assert_eq!(hex_encode(&bytes), "deadbeef");
}

#[test]
fn hex_decode_reports_first_bad_digit_with_position() {
    let (context, details) = invalid_data_details(hex_decode("abz0").unwrap_err());
    assert_eq!(context, "hex decode");
    assert_eq!(details, "Invalid hex character 'z' at position 2");
    let (_, details) = invalid_data_details(hex_decode("0g").unwrap_err());
    assert_eq!(details, "Invalid hex character 'g' at position 1");
    let (_, details) = invalid_data_details(hex_decode("abc").unwrap_err());
    assert_eq!(details, "Input length 3 is odd, must be even");
    let (_, details) = invalid_data_details(hex_decode(" \t ").unwrap_err());
    assert_eq!(details, "Input string is empty");
}

#[test]
fn account_hex_decode_names_the_character_only() {
    let err = age_credentials::crypto::hex_decode("abz0").unwrap_err();
    match err {
        AccountError::InvalidData { context, details } => {
            assert_eq!(context, "hex decode");
            assert_eq!(details, "Invalid hex character 'z'");
        }
        other => panic!("unexpected error {:?}", other),
    }
    assert_eq!(age_credentials::crypto::hex_decode("00ff").unwrap(), vec![0, 255]);
}

#[test]
fn name_rule_messages() {
    assert_eq!(user_id_reason(validate_user_name("   ").unwrap_err()), "Name cannot be empty");
    assert_eq!(user_id_reason(validate_user_name(" A ").unwrap_err()), "Name too short: 1 chars, minimum 2");
    let long = "a".repeat(256);
    assert_eq!(user_id_reason(validate_user_name(&long).unwrap_err()), "Name too long: 256 chars, maximum 255");
    assert!(validate_user_name(&"a".repeat(255)).is_ok());
    assert_eq!(
        user_id_reason(validate_user_name("Alice!").unwrap_err()),
        "Invalid character '!' at position 6 in name"
    );
    assert_eq!(
        user_id_reason(validate_user_name("Zoë_x").unwrap_err()),
        "Invalid character '_' at position 5 in name"
    );
    assert!(validate_user_name("Zoë Ünal-O'Neil Jr.").is_ok());
    assert!(validate_user_name("李小龙").is_ok());
}

#[test]
fn email_rule_messages() {
    assert_eq!(user_id_reason(validate_user_email(" ").unwrap_err()), "Email cannot be empty");
    let long = format!("{}@example.com", "a".repeat(250));
    assert_eq!(
        user_id_reason(validate_user_email(&long).unwrap_err()),
        "Email too long: 262 chars, maximum 254"
    );
    assert_eq!(
        user_id_reason(validate_user_email("@example.com").unwrap_err()),
        "Email local part or domain is empty"
    );
    assert_eq!(
        user_id_reason(validate_user_email("alice@").unwrap_err()),
        "Email local part or domain is empty"
    );
    assert_eq!(
        user_id_reason(validate_user_email("al ice@example.com").unwrap_err()),
        "Invalid character ' ' at position 3 in email"
    );
    assert!(validate_user_email(" first_last+tag@sub.example-mail.org ").is_ok());
}

#[test]
fn user_id_reports_name_before_email_and_formats() {
    let err = UserID::new("!", "bad").unwrap_err();
    assert_eq!(user_id_reason(err), "Name too short: 1 chars, minimum 2");
    let err = UserID::new("Alice", "bad").unwrap_err();
    assert_eq!(user_id_reason(err), "Email must contain exactly one '@'");
    let uid = UserID::new(" Alice Example ", "alice@example.com ").unwrap();
    assert_eq!(uid.to_formatted(), "Alice Example <alice@example.com>");
    let again = UserID::new(&uid.name, &uid.email).unwrap();
    assert_eq!(again, uid);
}

#[test]
fn account_user_id_and_fingerprint() {
    let uid = age_credentials::domain::types::UserID::new("  Bob ", " bob@example.com").unwrap();
    assert_eq!(uid.name, "Bob");
    assert_eq!(uid.to_formatted(), "Bob <bob@example.com>");
    let err = age_credentials::domain::validation::validate_user_email("x").unwrap_err();
    assert_eq!(err.to_string(), "Invalid User ID: Email must contain exactly one '@'");
    let fp = age_credentials::domain::fingerprint::Fingerprint::new("C0FFEE").unwrap();
    assert_eq!(fp.as_str(), "C0FFEE");
    let s: String = fp.clone().into();
    assert_eq!(s, "C0FFEE");
    let err = age_credentials::domain::fingerprint::Fingerprint::new("xyz").unwrap_err();
    assert_eq!(err.to_string(), "Invalid fingerprint: must be non-empty hexadecimal");
}

#[test]
fn fingerprint_rejects_non_hex_with_reason() {
    match Fingerprint::new("12 34").unwrap_err() {
        AgeCredentialsError::InvalidFingerprint { reason } => assert_eq!(reason, "must be non-empty hexadecimal"),
        other => panic!("unexpected error {:?}", other),
    }
    assert_eq!(Fingerprint::new("0123456789abcdefABCDEF").unwrap().to_string(), "0123456789abcdefABCDEF");
}

#[test]
fn keyring_error_messages() {
    let e = AgeCredentialsError::EncryptionFailed {
        recipients: vec!["rec1".into(), "rec \"2\"".into()],
        code: "ENCRYPTION_FAILED".into(),
        message: "Missing recipients".into(),
    };
    assert_eq!(
        e.to_string(),
        "Encryption failed for recipients [\"rec1\", \"rec \\\"2\\\"\"]: [ENCRYPTION_FAILED] Missing recipients"
    );
    let e = AgeCredentialsError::DecryptionFailed {
        identity: None,
        hint: "Check passphrase".into(),
        code: "DECRYPTION_FAILED".into(),
        message: "Decryption failed".into(),
    };
    assert_eq!(
        e.to_string(),
        "Decryption failed for identity None (hint: Check passphrase): [DECRYPTION_FAILED] Decryption failed"
    );
    let e = AgeCredentialsError::DecryptionFailed {
        identity: Some("abc".into()),
        hint: "h".into(),
        code: "C".into(),
        message: "m".into(),
    };
    assert_eq!(e.to_string(), "Decryption failed for identity Some(\"abc\") (hint: h): [C] m");
    let e = AgeCredentialsError::PassphraseTooShort { length: 3, min_length: 8 };
    assert_eq!(e.to_string(), "Passphrase too short: 3 chars, minimum 8");
    let e = AgeCredentialsError::Config { message: "m".into(), location: "l".into() };
    assert_eq!(e.to_string(), "Configuration error: m (at l)");
    let e = AgeCredentialsError::Io {
        path: "/tmp/x".into(),
        source: std::io::Error::new(std::io::ErrorKind::Other, "boom"),
    };
    assert_eq!(e.to_string(), "I/O error at /tmp/x: boom");
    let e = AgeCredentialsError::Serialization { target: "json", path: "<memory>".into(), source: "bad".into() };
    assert_eq!(e.to_string(), "Serialization error for json at <memory>: bad");
    let e = keyring_not_found("/nope");
    assert_eq!(e.to_string(), "Configuration error: Keyring directory not found: /nope (at src/config/path.rs)");
}

#[test]
fn keyring_paths_join_like_unix_paths() {
    let kp = KeyringPath::new("/srv/keys").unwrap();
    assert_eq!(kp.metadata_file(), "/srv/keys/metadata.json");
    assert_eq!(kp.private_dir(), "/srv/keys/private");
    assert_eq!(kp.public_dir(), "/srv/keys/public");
    assert_eq!(kp.fingerprint_private_path("abc123"), "/srv/keys/private/abc123.age");
    assert_eq!(kp.fingerprint_public_path("abc123"), "/srv/keys/public/abc123.pub");
    let root = KeyringPath::new("/").unwrap();
    assert_eq!(root.metadata_file(), "/metadata.json");
    assert_eq!(kp.fingerprint_private_path("/etc/x"), "/etc/x.age");
    let expected = std::path::Path::new("/srv/keys").join("private").join("abc123.age");
    assert_eq!(std::path::Path::new(&kp.fingerprint_private_path("abc123")), expected.as_path());
}

#[test]
fn recipient_lines_are_trimmed_and_checked() {
    let lines: Vec<String> = vec![
        "# comment".into(),
        "".into(),
        "  age1first  ".into(),
        "\tage1second".into(),
        "   # indented comment".into(),
    ];
    assert_eq!(parse_recipient_lines(&lines).unwrap(), vec!["age1first", "age1second"]);
    let bad: Vec<String> = vec!["age1ok".into(), "".into(), "  ssh-ed25519 AAAA ".into()];
    let (context, details) = invalid_data_details(parse_recipient_lines(&bad).unwrap_err());
    assert_eq!(context, "recipient file");
    assert_eq!(details, "Line 3 does not look like an age public key: ssh-ed25519 AAAA");
    let none: Vec<String> = vec!["# only".into(), "   ".into()];
    let (_, details) = invalid_data_details(parse_recipient_lines(&none).unwrap_err());
    assert_eq!(details, "No valid recipient found in file");
    assert_eq!(scan_recipient_lines(&none).unwrap(), Vec::<String>::new());
}

#[test]
fn public_key_checks() {
    let kp = generate_keypair().unwrap();
    assert!(kp.public_key.starts_with("age1"));
    assert!(kp.secret_key.starts_with("AGE-SECRET-KEY-1"));
    assert!(validate_public_key_string(&kp.public_key).is_ok());
    let content = format!("\n  {}  \n", kp.public_key);
    assert_eq!(public_key_from_text(&content).unwrap(), kp.public_key);
    assert_eq!(public_key_file_text(&kp.public_key).unwrap(), format!("{}\n", kp.public_key));
    let (context, details) = invalid_data_details(validate_public_key_string("").unwrap_err());
    assert_eq!((context.as_str(), details.as_str()), ("public key", "Public key is empty"));
    let (_, details) = invalid_data_details(validate_public_key_string("age1nope").unwrap_err());
    assert_eq!(details, "Invalid age public key: age1nope");
    let (_, details) = invalid_data_details(public_key_file_text("x").unwrap_err());
    assert_eq!(details, "Invalid age public key: x");
}

#[test]
fn encrypted_private_key_must_not_be_empty() {
    assert!(check_encrypted_private_key(&[1, 2, 3]).is_ok());
    let (context, details) = invalid_data_details(check_encrypted_private_key(&[]).unwrap_err());
    assert_eq!(context, "encrypted private key write");
    assert_eq!(details, "Encrypted key data is empty");
}

#[test]
fn armored_encryption_round_trips_through_decrypt() {
    let kp = generate_keypair().unwrap();
    let armored = encrypt_armored(b"armored data", &kp.public_key).unwrap();
    assert!(String::from_utf8(armored.clone()).unwrap().starts_with("-----BEGIN AGE ENCRYPTED FILE-----"));
    assert_eq!(decrypt(&armored, &kp.secret_key).unwrap(), b"armored data");
    let kp2 = generate_keypair().unwrap();
    let armored = encrypt_multiple_armored(b"both", &[&kp.public_key, &kp2.public_key]).unwrap();
    assert_eq!(decrypt(&armored, &kp2.secret_key).unwrap(), b"both");
}

#[test]
fn encryption_argument_errors() {
    let (context, details) = invalid_data_details(encrypt(b"x", "").unwrap_err());
    assert_eq!((context.as_str(), details.as_str()), ("encrypt", "public key is empty"));
    let (context, details) = invalid_data_details(encrypt_armored(b"x", "").unwrap_err());
    assert_eq!((context.as_str(), details.as_str()), ("armor encrypt", "public key is empty"));
    let (context, details) = invalid_data_details(encrypt_multiple(b"x", &[]).unwrap_err());
    assert_eq!((context.as_str(), details.as_str()), ("encrypt multiple", "at least one public key required"));
    let (context, _) = invalid_data_details(encrypt_multiple_armored(b"x", &[]).unwrap_err());
    assert_eq!(context, "armor encrypt multiple");
    let kp = generate_keypair().unwrap();
    match encrypt_multiple(b"x", &[&kp.public_key, "bogus"]).unwrap_err() {
        AgeCredentialsError::EncryptionFailed { recipients, code, .. } => {
            assert_eq!(code, "INVALID_PUBLIC_KEY");
            assert_eq!(recipients, vec![kp.public_key.clone(), "bogus".to_string()]);
        }
        other => panic!("unexpected error {:?}", other),
    }
}

#[test]
fn account_decrypt_refuses_empty_key() {
    match age_credentials::crypto::decrypt(b"x", "").unwrap_err() {
        AccountError::InvalidData { context, details } => {
            assert_eq!(context, "decrypt");
            assert_eq!(details, "secret key is empty");
        }
        other => panic!("unexpected error {:?}", other),
    }
    match age_credentials::crypto::decrypt(b"not age", "AGE-SECRET-KEY-1BOGUS").unwrap_err() {
        AccountError::DecryptionFailed { hint, .. } => {
            assert_eq!(hint, "Verify secret key or ciphertext integrity");
        }
        other => panic!("unexpected error {:?}", other),
    }
}

#[test]
fn secret_buffers_hold_their_content() {
    let b = SecretBytes::new(vec![1, 2, 3]);
    assert_eq!(b.as_slice(), &[1, 2, 3]);
    assert_eq!(b.clone().as_slice(), &[1, 2, 3]);
    let t = SecretText::new("key".to_string());
    assert_eq!(t.as_str(), "key");
    assert_eq!(&*t.clone(), "key");
}

#[test]
fn empty_metadata_by_default() {
    let m = Metadata::default();
    assert!(m.identities.is_empty());
    assert!(m.default_identity.is_none());
}

#[test]
fn serialization_errors_name_json_and_memory() {
    match age_credentials::from_json::<Vec<u8>>("{").unwrap_err() {
        AgeCredentialsError::Serialization { target, path, .. } => {
            assert_eq!(target, "json");
            assert_eq!(path, "<memory>");
        }
        other => panic!("unexpected error {:?}", other),
    }
    match age_credentials::from_toml::<std::collections::BTreeMap<String, String>>("= 1").unwrap_err() {
        AgeCredentialsError::Serialization { target, path, .. } => {
            assert_eq!(target, "toml");
            assert_eq!(path, "<memory>");
        }
        other => panic!("unexpected error {:?}", other),
    }
}

fn small_order_key(first: u8) -> String {
    let mut point = [0u8; 32];
    point[0] = first;
    bech32::encode::<bech32::Bech32>(bech32::Hrp::parse("age").unwrap(), &point).unwrap()
}

fn small_order_refusal(e: AgeCredentialsError) -> (Vec<String>, String, String) {
    match e {
        AgeCredentialsError::EncryptionFailed { recipients, code, message } => (recipients, code, message),
        other => panic!("unexpected error {:?}", other),
    }
}

#[test]
fn small_order_key_is_refused_without_panic() {
    for first in [0u8, 1u8] {
        let key = small_order_key(first);
        assert!(age_credentials::rage::is_low_order_recipient(&key));
        let (recipients, code, message) = small_order_refusal(encrypt(b"x", &key).unwrap_err());
        assert_eq!(recipients, vec![key.clone()]);
        assert_eq!(code, "INVALID_PUBLIC_KEY");
        assert_eq!(message, "public key has small order");
        let (_, code, _) = small_order_refusal(encrypt_armored(b"x", &key).unwrap_err());
        assert_eq!(code, "INVALID_PUBLIC_KEY");
        let kp = generate_keypair().unwrap();
        let keys = [kp.public_key.as_str(), key.as_str()];
        let (recipients, _, message) = small_order_refusal(encrypt_multiple(b"x", &keys).unwrap_err());
        assert_eq!(recipients.len(), 2);
        assert_eq!(message, "public key has small order");
        let (_, _, message) = small_order_refusal(encrypt_multiple_armored(b"x", &keys).unwrap_err());
        assert_eq!(message, "public key has small order");
    }
}

#[test]
fn unparsable_key_wins_over_small_order_key() {
    let key = small_order_key(0);
    let keys = [key.as_str(), "not-a-key"];
    let (_, code, message) = small_order_refusal(encrypt_multiple(b"x", &keys).unwrap_err());
    assert_eq!(code, "INVALID_PUBLIC_KEY");
    assert_ne!(message, "public key has small order");
}

#[test]
fn generated_key_is_not_small_order() {
    let kp = generate_keypair().unwrap();
    assert!(!age_credentials::rage::is_low_order_recipient(&kp.public_key));
    assert!(!age_credentials::rage::is_low_order_recipient("not-a-key"));
}

#[test]
fn generated_keys_carry_their_prefixes() {
    let kp = generate_keypair().unwrap();
    assert!(kp.public_key.starts_with("age1"));
    assert!(kp.secret_key.as_str().starts_with("AGE-SECRET-KEY-1"));
}

#[test]
fn armored_output_has_begin_and_end_lines() {
    let kp = generate_keypair().unwrap();
    let ct = encrypt_armored(b"armor me", &kp.public_key).unwrap();
    assert!(ct.starts_with(b"-----BEGIN AGE ENCRYPTED FILE-----"));
    let text = String::from_utf8(ct.clone()).unwrap();
    assert!(text.trim_end().ends_with("-----END AGE ENCRYPTED FILE-----"));
    assert_eq!(decrypt(&ct, kp.secret_key.as_str()).unwrap(), b"armor me");
    let keys = [kp.public_key.as_str()];
    let ct = encrypt_multiple_armored(b"armor me", &keys).unwrap();
    assert!(ct.starts_with(b"-----BEGIN AGE ENCRYPTED FILE-----"));
}

#[test]
fn name_length_counts_characters() {
    let reason = user_id_reason(validate_user_name("é").unwrap_err());
    assert_eq!(reason, "Name too short: 1 chars, minimum 2");
    assert!(validate_user_name("Éé").is_ok());
    let long: String = std::iter::repeat('é').take(255).collect();
    assert!(validate_user_name(&long).is_ok());
    let longer: String = std::iter::repeat('é').take(256).collect();
    assert_eq!(user_id_reason(validate_user_name(&longer).unwrap_err()), "Name too long: 256 chars, maximum 255");
}

#[test]
fn email_length_counts_characters() {
    let local: String = std::iter::repeat('é').take(200).collect();
    let email = format!("{}@example.com", local);
    assert_eq!(email.chars().count(), 212);
    assert!(validate_user_email(&email).is_ok());
    let local: String = std::iter::repeat('é').take(250).collect();
    let email = format!("{}@ex.com", local);
    assert_eq!(user_id_reason(validate_user_email(&email).unwrap_err()), "Email too long: 257 chars, maximum 254");
}

#[test]
fn passphrase_length_counts_characters() {
    let short = "éééééé";
    assert_eq!(short.len(), 12);
    match age_credentials::encrypt_with_passphrase(b"x", short).unwrap_err() {
        AgeCredentialsError::PassphraseTooShort { length, min_length } => {
            assert_eq!(length, 6);
            assert_eq!(min_length, 8);
        }
        other => panic!("unexpected error {:?}", other),
    }
    assert!(matches!(
        age_credentials::decrypt_with_passphrase(b"x", short).unwrap_err(),
        AgeCredentialsError::PassphraseTooShort { length: 6, min_length: 8 }
    ));
    let ct = age_credentials::encrypt_with_passphrase(b"x", "éééééééé").unwrap();
    assert_eq!(age_credentials::decrypt_with_passphrase(&ct, "éééééééé").unwrap(), b"x");
}
