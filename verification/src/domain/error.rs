//! The error type of the account engine.
use vstd::prelude::*;
use crate::text::{debug_list, debug_text_of_list, decimal, io_error_text, push_decimal, string_views};

verus! {

/// Everything that can go wrong in an account operation.  The source of a
/// serialization failure is kept as its message.
#[derive(Debug)]
#[allow(inconsistent_fields)]
pub enum AccountError {
    Io { source: std::io::Error },
    Serialization { source: String },
    Backend(String),
    AccountNotFound(String),
    DuplicateAccount(String),
    InvalidData { context: &'static str, details: String },
    EncryptionFailed { recipients: Vec<String>, code: String, message: String },
    DecryptionFailed { hint: String, code: String, message: String },
    KeyGenFailed { reason: String },
    PassphraseTooShort { length: usize, min_length: usize },
    InvalidFingerprint { reason: String },
    InvalidUserId { reason: String },
}

/// The result type of the account operations.
pub type Result<T> = std::result::Result<T, AccountError>;

impl AccountError {
    /// The human-readable message of the error; `io_text` stands for the text
    /// of the underlying I/O error, which only the `Io` variant shows.
    pub open spec fn display_text(&self, io_text: Seq<char>) -> Seq<char> {
        match self {
            AccountError::Io { .. } => "I/O error: "@ + io_text,
            AccountError::Serialization { source } => "Serialization error: "@ + source@,
            AccountError::Backend(m) => "Backend error: "@ + m@,
            AccountError::AccountNotFound(m) => "Account not found: "@ + m@,
            AccountError::DuplicateAccount(m) => "Duplicate account: "@ + m@,
            AccountError::InvalidData { context, details } =>
                "Invalid data in "@ + context@ + ": "@ + details@,
            AccountError::EncryptionFailed { recipients, code, message } =>
                "Encryption failed for recipients "@ + debug_text_of_list(string_views(recipients@))
                    + ": ["@ + code@ + "] "@ + message@,
            AccountError::DecryptionFailed { hint, code, message } =>
                "Decryption failed (hint: "@ + hint@ + "): ["@ + code@ + "] "@ + message@,
            AccountError::KeyGenFailed { reason } => "Key generation failed: "@ + reason@,
            AccountError::PassphraseTooShort { length, min_length } =>
                "Passphrase too short: "@ + decimal(*length as nat) + " chars, minimum "@
                    + decimal(*min_length as nat),
            AccountError::InvalidFingerprint { reason } => "Invalid fingerprint: "@ + reason@,
            AccountError::InvalidUserId { reason } => "Invalid User ID: "@ + reason@,
        }
    }

    /// The human-readable message of the error.
    pub fn to_string(&self) -> (r: String)
        ensures
            exists|t: Seq<char>| r@ == self.display_text(t),
            !(self is Io) ==> r@ == self.display_text(Seq::empty()),
    {
        let mut s = String::new();
        match self {
            AccountError::Io { source } => {
                s.append("I/O error: ");
                let t = io_error_text(source);
                s.append(t.as_str());
                assert(s@ == self.display_text(t@));
            },
            AccountError::Serialization { source } => {
                s.append("Serialization error: ");
                s.append(source.as_str());
            },
            AccountError::Backend(m) => {
                s.append("Backend error: ");
                s.append(m.as_str());
            },
            AccountError::AccountNotFound(m) => {
                s.append("Account not found: ");
                s.append(m.as_str());
            },
            AccountError::DuplicateAccount(m) => {
                s.append("Duplicate account: ");
                s.append(m.as_str());
            },
            AccountError::InvalidData { context, details } => {
                s.append("Invalid data in ");
                s.append(context);
                s.append(": ");
                s.append(details.as_str());
            },
            AccountError::EncryptionFailed { recipients, code, message } => {
                s.append("Encryption failed for recipients ");
                let l = debug_list(recipients);
                s.append(l.as_str());
                s.append(": [");
                s.append(code.as_str());
                s.append("] ");
                s.append(message.as_str());
            },
            AccountError::DecryptionFailed { hint, code, message } => {
                s.append("Decryption failed (hint: ");
                s.append(hint.as_str());
                s.append("): [");
                s.append(code.as_str());
                s.append("] ");
                s.append(message.as_str());
            },
            AccountError::KeyGenFailed { reason } => {
                s.append("Key generation failed: ");
                s.append(reason.as_str());
            },
            AccountError::PassphraseTooShort { length, min_length } => {
                s.append("Passphrase too short: ");
                push_decimal(&mut s, *length as u64);
                s.append(" chars, minimum ");
                push_decimal(&mut s, *min_length as u64);
            },
            AccountError::InvalidFingerprint { reason } => {
                s.append("Invalid fingerprint: ");
                s.append(reason.as_str());
            },
            AccountError::InvalidUserId { reason } => {
                s.append("Invalid User ID: ");
                s.append(reason.as_str());
            },
        }
        proof {
            if !(self is Io) {
                assert(s@ == self.display_text(Seq::<char>::empty()));
            }
        }
        s
    }
}

impl From<std::io::Error> for AccountError {
    fn from(source: std::io::Error) -> (r: Self)
        ensures
            r == (AccountError::Io { source }),
    {
        AccountError::Io { source }
    }
}

impl vstd::std_specs::convert::FromSpecImpl<std::io::Error> for AccountError {
    open spec fn obeys_from_spec() -> bool {
        true
    }

    open spec fn from_spec(source: std::io::Error) -> AccountError {
        AccountError::Io { source }
    }
}

} // verus!
