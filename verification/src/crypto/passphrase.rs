//! Passphrase-based encryption and decryption, for the account engine.
use vstd::prelude::*;
use crate::agecore::crypto::passphrase::MIN_PASSPHRASE_LEN;
use crate::crypto::armor::extract_armor_error;
use crate::domain::error::{AccountError, Result};
use crate::rage::{passphrase_plaintext, rage_decrypt_with_passphrase, rage_encrypt_with_passphrase};

verus! {

/// The refusal of a passphrase of `length` characters.
pub open spec fn account_too_short(e: AccountError, length: nat) -> bool {
    e matches AccountError::PassphraseTooShort { length: l, min_length } && l == length
        && min_length == MIN_PASSPHRASE_LEN
}

/// The refusal of a passphrase decryption by the machine: age's scrypt identity
/// would not do the work the ciphertext asks for (code `EXCESSIVE_WORK`).
pub open spec fn account_work_refused(e: AccountError) -> bool {
    e matches AccountError::DecryptionFailed { hint, code, .. } && hint@ == "Check passphrase"@
        && code@ == "EXCESSIVE_WORK"@
}

/// What encrypting `plaintext` under `passphrase` may answer: `PassphraseTooShort`
/// for fewer than eight characters, otherwise a non-empty ciphertext that carries
/// the plaintext under the passphrase.
pub open spec fn account_passphrase_encryption(plaintext: Seq<u8>, passphrase: Seq<char>, r: Result<Vec<u8>>) -> bool {
    if passphrase.len() < MIN_PASSPHRASE_LEN {
        r matches Err(e) && account_too_short(e, passphrase.len())
    } else {
        r matches Ok(ct) && ct@.len() > 0 && passphrase_plaintext(ct@, passphrase) == Some(plaintext)
    }
}

/// What decrypting `ciphertext` with `passphrase` may answer: `PassphraseTooShort`
/// for fewer than eight characters; the plaintext the ciphertext carries under the
/// passphrase, unless this machine refuses the work factor; and when the
/// passphrase does not open it, `DecryptionFailed` with the hint "Check passphrase".
pub open spec fn account_passphrase_decryption(ciphertext: Seq<u8>, passphrase: Seq<char>, r: Result<Vec<u8>>) -> bool {
    if passphrase.len() < MIN_PASSPHRASE_LEN {
        r matches Err(e) && account_too_short(e, passphrase.len())
    } else {
        match passphrase_plaintext(ciphertext, passphrase) {
            Some(p) => (r matches Ok(q) && q@ == p) || (r matches Err(e) && account_work_refused(e)),
            None => r matches Err(AccountError::DecryptionFailed { hint, .. }) && hint@
                == "Check passphrase"@,
        }
    }
}

/// Encrypts `plaintext` under a passphrase of at least eight characters.  A shorter
/// passphrase is `PassphraseTooShort`, reporting its number of characters; any other
/// passphrase is encrypted to, and the ciphertext carries the plaintext under it.
pub fn encrypt_with_passphrase(plaintext: &[u8], passphrase: &str) -> (r: Result<Vec<u8>>)
    ensures
        passphrase@.len() < MIN_PASSPHRASE_LEN ==> (r matches Err(e) && account_too_short(
            e,
            passphrase@.len(),
        )),
        passphrase@.len() >= MIN_PASSPHRASE_LEN ==> r is Ok,
        r matches Ok(ct) ==> passphrase@.len() >= MIN_PASSPHRASE_LEN && passphrase_plaintext(
            ct@,
            passphrase@,
        ) == Some(plaintext@),        account_passphrase_encryption(plaintext@, passphrase@, r),
{
    let n = passphrase.unicode_len();
    if n < MIN_PASSPHRASE_LEN {
        return Err(AccountError::PassphraseTooShort { length: n, min_length: MIN_PASSPHRASE_LEN });
    }
    let response = rage_encrypt_with_passphrase(plaintext, passphrase);
    let recipients = vec!["<passphrase>".to_owned()];
    extract_armor_error(response, recipients)
}

/// Decrypts a passphrase-encrypted ciphertext; the passphrase must have at least
/// eight characters.  A shorter passphrase is `PassphraseTooShort`; a ciphertext that
/// the passphrase opens gives its plaintext unless this machine refuses the scrypt
/// work factor (code `EXCESSIVE_WORK`); any failure is `DecryptionFailed` with the
/// hint "Check passphrase".  See `account_passphrase_decryption`.
pub fn decrypt_with_passphrase(ciphertext: &[u8], passphrase: &str) -> (r: Result<Vec<u8>>)
    ensures
        passphrase@.len() < MIN_PASSPHRASE_LEN ==> (r matches Err(e) && account_too_short(
            e,
            passphrase@.len(),
        )),
        passphrase@.len() >= MIN_PASSPHRASE_LEN ==> (r matches Err(e) ==> (e matches AccountError::DecryptionFailed { hint, .. }
            && hint@ == "Check passphrase"@)),
        passphrase@.len() >= MIN_PASSPHRASE_LEN && passphrase_plaintext(ciphertext@, passphrase@)
            is None ==> r is Err,
        r matches Ok(p) ==> passphrase_plaintext(ciphertext@, passphrase@) == Some(p@),
        account_passphrase_decryption(ciphertext@, passphrase@, r),
{
    let n = passphrase.unicode_len();
    if n < MIN_PASSPHRASE_LEN {
        return Err(AccountError::PassphraseTooShort { length: n, min_length: MIN_PASSPHRASE_LEN });
    }
    let response = rage_decrypt_with_passphrase(ciphertext, passphrase);
    if !response.success {
        let err = response.error.unwrap();
        return Err(
            AccountError::DecryptionFailed {
                hint: "Check passphrase".to_owned(),
                code: err.code,
                message: err.message,
            },
        );
    }
    Ok(response.data.unwrap())
}

} // verus!
