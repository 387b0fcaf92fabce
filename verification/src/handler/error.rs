//! The error type of the keyring operations.
use vstd::prelude::*;
use crate::text::{debug_list, debug_option, debug_text_of_list, debug_text_of_option, io_error_text, option_string_view, push_decimal, decimal, string_views};

verus! {

/// Everything that can go wrong in a keyring operation.
///
/// Paths are held as text; sources of serialization failures as the text
/// of the underlying error.
#[derive(Debug)]
#[allow(inconsistent_fields)]
pub enum AgeCredentialsError {
    Io { path: String, source: std::io::Error },
    Serialization { target: &'static str, path: String, source: String },
    DuplicateIdentity { fingerprint: String, keyring_path: String },
    IdentityNotFound { search_key: String, keyring_path: String },
    InvalidEmail { email: String },
    InvalidName { name: String },
    PassphraseIncorrect { identity: String },
    EncryptionFailed { recipients: Vec<String>, code: String, message: String },
    DecryptionFailed { identity: Option<String>, hint: String, code: String, message: String },
    KeyGenFailed { reason: String },
    MetadataNotFound { path: String },
    InvalidData { context: &'static str, details: String },
    Config { message: String, location: String },
    PassphraseTooShort { length: usize, min_length: usize },
    InvalidFingerprint { reason: String },
    InvalidUserId { reason: String },
}

/// The result type of the keyring operations.
pub type Result<T> = std::result::Result<T, AgeCredentialsError>;

impl AgeCredentialsError {
    /// The human-readable message of the error; `io_text` stands for the text
    /// of the underlying I/O error, which only the `Io` variant shows.
    pub open spec fn display_text(&self, io_text: Seq<char>) -> Seq<char> {
        match self {
            AgeCredentialsError::Io { path, .. } => "I/O error at "@ + path@ + ": "@ + io_text,
            AgeCredentialsError::Serialization { target, path, source } =>
                "Serialization error for "@ + target@ + " at "@ + path@ + ": "@ + source@,
            AgeCredentialsError::DuplicateIdentity { fingerprint, keyring_path } =>
                "Duplicate identity "@ + fingerprint@ + " in keyring at "@ + keyring_path@,
            AgeCredentialsError::IdentityNotFound { search_key, keyring_path } =>
                "Identity not found: "@ + search_key@ + " in keyring at "@ + keyring_path@,
            AgeCredentialsError::InvalidEmail { email } => "Invalid email address: "@ + email@,
            AgeCredentialsError::InvalidName { name } => "Invalid name: "@ + name@,
            AgeCredentialsError::PassphraseIncorrect { identity } =>
                "Passphrase incorrect for identity "@ + identity@,
            AgeCredentialsError::EncryptionFailed { recipients, code, message } =>
                "Encryption failed for recipients "@ + debug_text_of_list(string_views(recipients@))
                    + ": ["@ + code@ + "] "@ + message@,
            AgeCredentialsError::DecryptionFailed { identity, hint, code, message } =>
                "Decryption failed for identity "@ + debug_text_of_option(option_string_view(*identity))
                    + " (hint: "@ + hint@ + "): ["@ + code@ + "] "@ + message@,
            AgeCredentialsError::KeyGenFailed { reason } => "Key generation failed: "@ + reason@,
            AgeCredentialsError::MetadataNotFound { path } => "Metadata file not found at "@ + path@,
            AgeCredentialsError::InvalidData { context, details } =>
                "Invalid data in "@ + context@ + ": "@ + details@,
            AgeCredentialsError::Config { message, location } =>
                "Configuration error: "@ + message@ + " (at "@ + location@ + ")"@,
            AgeCredentialsError::PassphraseTooShort { length, min_length } =>
                "Passphrase too short: "@ + decimal(*length as nat) + " chars, minimum "@
                    + decimal(*min_length as nat),
            AgeCredentialsError::InvalidFingerprint { reason } => "Invalid fingerprint: "@ + reason@,
            AgeCredentialsError::InvalidUserId { reason } => "Invalid User ID: "@ + reason@,
        }
    }

    /// The human-readable message of the error.
    pub fn to_string(&self) -> (r: String)
        ensures
            exists|t: Seq<char>| r@ == self.display_text(t),
            !(self is Io) ==> r@ == self.display_text(Seq::empty()),
    {
        let mut s = String::new();
        match self {
            AgeCredentialsError::Io { path, source } => {
                s.append("I/O error at ");
                s.append(path.as_str());
                s.append(": ");
                let t = io_error_text(source);
                s.append(t.as_str());
                assert(s@ == self.display_text(t@));
            },
            AgeCredentialsError::Serialization { target, path, source } => {
                s.append("Serialization error for ");
                s.append(target);
                s.append(" at ");
                s.append(path.as_str());
                s.append(": ");
                s.append(source.as_str());
            },
            AgeCredentialsError::DuplicateIdentity { fingerprint, keyring_path } => {
                s.append("Duplicate identity ");
                s.append(fingerprint.as_str());
                s.append(" in keyring at ");
                s.append(keyring_path.as_str());
            },
            AgeCredentialsError::IdentityNotFound { search_key, keyring_path } => {
                s.append("Identity not found: ");
                s.append(search_key.as_str());
                s.append(" in keyring at ");
                s.append(keyring_path.as_str());
            },
            AgeCredentialsError::InvalidEmail { email } => {
                s.append("Invalid email address: ");
                s.append(email.as_str());
            },
            AgeCredentialsError::InvalidName { name } => {
                s.append("Invalid name: ");
                s.append(name.as_str());
            },
            AgeCredentialsError::PassphraseIncorrect { identity } => {
                s.append("Passphrase incorrect for identity ");
                s.append(identity.as_str());
            },
            AgeCredentialsError::EncryptionFailed { recipients, code, message } => {
                s.append("Encryption failed for recipients ");
                let l = debug_list(recipients);
                s.append(l.as_str());
                s.append(": [");
                s.append(code.as_str());
                s.append("] ");
                s.append(message.as_str());
            },
            AgeCredentialsError::DecryptionFailed { identity, hint, code, message } => {
                s.append("Decryption failed for identity ");
                let o = debug_option(identity);
                s.append(o.as_str());
                s.append(" (hint: ");
                s.append(hint.as_str());
                s.append("): [");
                s.append(code.as_str());
                s.append("] ");
                s.append(message.as_str());
            },
            AgeCredentialsError::KeyGenFailed { reason } => {
                s.append("Key generation failed: ");
                s.append(reason.as_str());
            },
            AgeCredentialsError::MetadataNotFound { path } => {
                s.append("Metadata file not found at ");
                s.append(path.as_str());
            },
            AgeCredentialsError::InvalidData { context, details } => {
                s.append("Invalid data in ");
                s.append(context);
                s.append(": ");
                s.append(details.as_str());
            },
            AgeCredentialsError::Config { message, location } => {
                s.append("Configuration error: ");
                s.append(message.as_str());
                s.append(" (at ");
                s.append(location.as_str());
                s.append(")");
            },
            AgeCredentialsError::PassphraseTooShort { length, min_length } => {
                s.append("Passphrase too short: ");
                push_decimal(&mut s, *length as u64);
                s.append(" chars, minimum ");
                push_decimal(&mut s, *min_length as u64);
            },
            AgeCredentialsError::InvalidFingerprint { reason } => {
                s.append("Invalid fingerprint: ");
                s.append(reason.as_str());
            },
            AgeCredentialsError::InvalidUserId { reason } => {
                s.append("Invalid User ID: ");
                s.append(reason.as_str());
            },
        }
        proof {
            if !(self is Io) {
                assert(s@ == self.display_text(Seq::<char>::empty()));
            }
        }
        s
    }
}

} // verus!
