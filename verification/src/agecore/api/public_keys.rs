//! Public key files (`.pub`).
use vstd::prelude::*;
use crate::handler::error::{AgeCredentialsError, Result};
use crate::rage::{age_recipient_parses, recipient_parses};
use crate::text::{str_trim, trim_chars};

verus! {

/// Why a public key string is refused, or `None` when it is an age X25519 recipient.
pub open spec fn public_key_rejection(key: Seq<char>) -> Option<Seq<char>> {
    if key.len() == 0 {
        Some("Public key is empty"@)
    } else if !age_recipient_parses(key) {
        Some("Invalid age public key: "@ + key)
    } else {
        None
    }
}

/// The answer matching a rejection: `Ok`, or `InvalidData` in "public key" with the reason.
pub open spec fn key_check(r: Result<()>, rejection: Option<Seq<char>>) -> bool {
    match rejection {
        None => r is Ok,
        Some(details) => r matches Err(AgeCredentialsError::InvalidData { context, details: d })
            && context@ == "public key"@ && d@ == details,
    }
}

/// Checks that `key` is a non-empty age X25519 recipient string.
pub fn validate_public_key_string(key: &str) -> (r: Result<()>)
    ensures
        key_check(r, public_key_rejection(key@)),
{
    if key.unicode_len() == 0 {
        return Err(
            AgeCredentialsError::InvalidData {
                context: "public key",
                details: "Public key is empty".to_owned(),
            },
        );
    }
    if !recipient_parses(key) {
        let mut details = "Invalid age public key: ".to_owned();
        details.append(key);
        return Err(AgeCredentialsError::InvalidData { context: "public key", details });
    }
    Ok(())
}

/// The key that a public key file holds: its content trimmed, which must be a
/// valid age X25519 recipient.
pub fn public_key_from_text(content: &str) -> (r: Result<String>)
    ensures
        match public_key_rejection(trim_chars(content@)) {
            None => r matches Ok(k) && k@ == trim_chars(content@),
            Some(details) => r matches Err(AgeCredentialsError::InvalidData { context, details: d })
                && context@ == "public key"@ && d@ == details,
        },
{
    let key = str_trim(content);
    validate_public_key_string(key)?;
    Ok(key.to_owned())
}

/// The content written to a public key file: the key and a newline, once the key
/// is checked.
pub fn public_key_file_text(public_key: &str) -> (r: Result<String>)
    ensures
        match public_key_rejection(public_key@) {
            None => r matches Ok(t) && t@ == public_key@ + "\n"@,
            Some(details) => r matches Err(AgeCredentialsError::InvalidData { context, details: d })
                && context@ == "public key"@ && d@ == details,
        },
{
    validate_public_key_string(public_key)?;
    let mut t = public_key.to_owned();
    t.append("\n");
    Ok(t)
}

} // verus!
