//! Encryption to age public keys, binary or ASCII-armored, for the account engine.
use vstd::prelude::*;
use crate::domain::error::{AccountError, Result};
use crate::rage::{RageBytes, age_recipient_parses, is_age_armor, is_low_order_recipient, keys_reach_low_order, low_order_recipient, opens_for, rage_encrypt, rage_encrypt_armored, rage_encrypt_multiple_armored, reaches_low_order, str_views};
use crate::text::string_views;

verus! {

/// An `EncryptionFailed` account error with the given recipients, code and message.
pub open spec fn account_encryption_failure(
    e: AccountError,
    keys: Seq<Seq<char>>,
    code: Seq<char>,
    message: Seq<char>,
) -> bool {
    e matches AccountError::EncryptionFailed { recipients, code: c, message: m }
        && string_views(recipients@) == keys && c@ == code && m@ == message
}

/// An `EncryptionFailed` account error for exactly the given recipients.
pub open spec fn account_failed_for(e: AccountError, keys: Seq<Seq<char>>) -> bool {
    e matches AccountError::EncryptionFailed { recipients, .. } && string_views(recipients@) == keys
}

/// How an encryption response is read: the ciphertext on success; the reported
/// code and message on failure; `UNKNOWN` when the response lacks its part.
pub open spec fn account_encryption_outcome(response: RageBytes, keys: Seq<Seq<char>>, r: Result<Vec<u8>>) -> bool {
    if !response.success {
        match response.error {
            Some(err) => r matches Err(e) && account_encryption_failure(e, keys, err.code@, err.message@),
            None => r matches Err(e) && account_encryption_failure(
                e,
                keys,
                "UNKNOWN"@,
                "librage returned failure without error details"@,
            ),
        }
    } else {
        match response.data {
            Some(d) => r matches Ok(v) && v@ == d@,
            None => r matches Err(e) && account_encryption_failure(
                e,
                keys,
                "UNKNOWN"@,
                "librage returned success but no data"@,
            ),
        }
    }
}

/// Reads an encryption response for the given recipients.
pub fn extract_armor_error(response: RageBytes, recipients: Vec<String>) -> (r: Result<Vec<u8>>)
    ensures
        account_encryption_outcome(response, string_views(recipients@), r),
{
    if !response.success {
        match response.error {
            Some(err) => {
                return Err(
                    AccountError::EncryptionFailed { recipients, code: err.code, message: err.message },
                );
            },
            None => {
                return Err(
                    AccountError::EncryptionFailed {
                        recipients,
                        code: "UNKNOWN".to_owned(),
                        message: "librage returned failure without error details".to_owned(),
                    },
                );
            },
        }
    }
    match response.data {
        Some(d) => Ok(d),
        None => Err(
            AccountError::EncryptionFailed {
                recipients,
                code: "UNKNOWN".to_owned(),
                message: "librage returned success but no data".to_owned(),
            },
        ),
    }
}

/// The `InvalidData` account error in `context` with `details`.
pub open spec fn account_invalid_data(r: Result<Vec<u8>>, context: Seq<char>, details: Seq<char>) -> bool {
    r matches Err(AccountError::InvalidData { context: c, details: d }) && c@ == context && d@ == details
}

/// The refusal of a key list that reaches a small-order key, before age is asked
/// (age would panic on it): `EncryptionFailed` with code `INVALID_PUBLIC_KEY`.
pub open spec fn account_low_order_failure(e: AccountError, keys: Seq<Seq<char>>) -> bool {
    account_encryption_failure(e, keys, "INVALID_PUBLIC_KEY"@, "public key has small order"@)
}

fn account_low_order_error(recipients: Vec<String>) -> (e: AccountError)
    ensures
        account_low_order_failure(e, string_views(recipients@)),
{
    AccountError::EncryptionFailed {
        recipients,
        code: "INVALID_PUBLIC_KEY".to_owned(),
        message: "public key has small order".to_owned(),
    }
}

/// What encrypting to one key gives, `context` naming the refusal of an empty key:
/// `InvalidData` for an empty key; `EncryptionFailed` naming the key alone for any
/// other failure, with code `INVALID_PUBLIC_KEY` for a key that is not an age X25519
/// recipient or that has small order; success for any other recipient, with a
/// ciphertext that opens to the plaintext under any secret key of that recipient.
pub open spec fn encrypted_to_key(
    r: Result<Vec<u8>>,
    plaintext: Seq<u8>,
    public_key: Seq<char>,
    context: Seq<char>,
) -> bool {
    &&& public_key.len() == 0 ==> account_invalid_data(r, context, "public key is empty"@)
    &&& public_key.len() > 0 ==> (r matches Err(e) ==> account_failed_for(e, seq![public_key]))
    &&& public_key.len() > 0 && !age_recipient_parses(public_key) ==> (r matches Err(e)
        && e matches AccountError::EncryptionFailed { code, .. } && code@ == "INVALID_PUBLIC_KEY"@)
    &&& public_key.len() > 0 && low_order_recipient(public_key) ==> (r matches Err(e)
        && account_low_order_failure(e, seq![public_key]))
    &&& public_key.len() > 0 && age_recipient_parses(public_key) && !low_order_recipient(public_key)
        ==> r is Ok
    &&& r matches Ok(ct) ==> public_key.len() > 0 && age_recipient_parses(public_key) && opens_for(
        ct@,
        public_key,
        plaintext,
    )
}

/// Encrypts `plaintext` to one age public key with binary (`armored == false`) or
/// ASCII-armored output; see `encrypted_to_key`.
fn encrypt_to_key(plaintext: &[u8], public_key: &str, armored: bool, context: &'static str) -> (r: Result<Vec<u8>>)
    ensures
        encrypted_to_key(r, plaintext@, public_key@, context@),
        armored ==> (r matches Ok(ct) ==> is_age_armor(ct@)),
{
    if public_key.unicode_len() == 0 {
        return Err(AccountError::InvalidData { context, details: "public key is empty".to_owned() });
    }
    let recipients = vec![public_key.to_owned()];
    assert(string_views(recipients@) =~= seq![public_key@]);
    if is_low_order_recipient(public_key) {
        return Err(account_low_order_error(recipients));
    }
    let response = if armored {
        rage_encrypt_armored(plaintext, public_key)
    } else {
        rage_encrypt(plaintext, public_key)
    };
    extract_armor_error(response, recipients)
}

/// Encrypts `plaintext` to one age public key with age's ASCII armor as output; see
/// `encrypted_to_key` for the outcomes ("armor encrypt" for an empty key).
pub fn encrypt_armored(plaintext: &[u8], public_key: &str) -> (r: Result<Vec<u8>>)
    ensures
        encrypted_to_key(r, plaintext@, public_key@, "armor encrypt"@),
        r matches Ok(ct) ==> is_age_armor(ct@),
{
    encrypt_to_key(plaintext, public_key, true, "armor encrypt")
}

/// Encrypts `plaintext` to one age public key with binary output; see
/// `encrypted_to_key` for the outcomes ("encrypt" for an empty key).
pub fn encrypt(plaintext: &[u8], public_key: &str) -> (r: Result<Vec<u8>>)
    ensures
        encrypted_to_key(r, plaintext@, public_key@, "encrypt"@),
{
    encrypt_to_key(plaintext, public_key, false, "encrypt")
}

/// Encrypts `plaintext` to several age public keys with age's ASCII armor as output.
/// No keys is `InvalidData` in "armor encrypt multiple"; a key that is not an age
/// X25519 recipient makes it `EncryptionFailed` with code `INVALID_PUBLIC_KEY`, and so
/// does a recipient of small order among keys that all parse; every failure names all
/// the keys.  Otherwise the keys are encrypted to, and the ciphertext opens to the
/// plaintext for each of them.
pub fn encrypt_multiple_armored(plaintext: &[u8], public_keys: &[&str]) -> (r: Result<Vec<u8>>)
    ensures
        public_keys@.len() == 0 ==> account_invalid_data(
            r,
            "armor encrypt multiple"@,
            "at least one public key required"@,
        ),
        public_keys@.len() > 0 ==> (r matches Err(e) ==> account_failed_for(e, str_views(public_keys@))),
        (exists|i: int| 0 <= i < public_keys@.len() && !age_recipient_parses(#[trigger] public_keys@[i]@))
            ==> (r matches Err(e) && e matches AccountError::EncryptionFailed { code, .. } && code@
            == "INVALID_PUBLIC_KEY"@),
        public_keys@.len() > 0 && reaches_low_order(str_views(public_keys@)) ==> (r matches Err(e)
            && account_low_order_failure(e, str_views(public_keys@))),
        public_keys@.len() > 0 && (forall|i: int|
            0 <= i < public_keys@.len() ==> age_recipient_parses(#[trigger] public_keys@[i]@))
            && !reaches_low_order(str_views(public_keys@)) ==> r is Ok,
        r matches Ok(ct) ==> public_keys@.len() > 0 && is_age_armor(ct@) && forall|i: int|
            0 <= i < public_keys@.len() ==> age_recipient_parses(#[trigger] public_keys@[i]@)
                && opens_for(ct@, public_keys@[i]@, plaintext@),
{
    if public_keys.len() == 0 {
        return Err(
            AccountError::InvalidData {
                context: "armor encrypt multiple",
                details: "at least one public key required".to_owned(),
            },
        );
    }
    let recipients = crate::agecore::crypto::encrypt::owned_keys(public_keys);
    if keys_reach_low_order(public_keys) {
        return Err(account_low_order_error(recipients));
    }
    let response = rage_encrypt_multiple_armored(plaintext, public_keys);
    extract_armor_error(response, recipients)
}

} // verus!
