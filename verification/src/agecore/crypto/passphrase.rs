//! Passphrase-based encryption and decryption (scrypt recipients of age).
use vstd::prelude::*;
use crate::agecore::crypto::encrypt::encryption_failure;
use crate::handler::error::{AgeCredentialsError, Result};
use crate::rage::{passphrase_plaintext, rage_decrypt_with_passphrase, rage_encrypt_with_passphrase};


verus! {

/// The shortest passphrase accepted, in characters.
pub const MIN_PASSPHRASE_LEN: usize = 8;

/// The refusal of a passphrase of `length` characters.
pub open spec fn too_short(e: AgeCredentialsError, length: nat) -> bool {
    e matches AgeCredentialsError::PassphraseTooShort { length: l, min_length } && l == length
        && min_length == MIN_PASSPHRASE_LEN
}

/// The refusal of a passphrase decryption by the machine: age's scrypt identity
/// would not do the work the ciphertext asks for (code `EXCESSIVE_WORK`).
pub open spec fn work_refused(e: AgeCredentialsError) -> bool {
    e matches AgeCredentialsError::DecryptionFailed { identity, hint, code, .. } && identity is None
        && hint@ == "Check passphrase"@ && code@ == "EXCESSIVE_WORK"@
}

/// What encrypting `plaintext` under `passphrase` may answer: `PassphraseTooShort`
/// for fewer than eight characters, otherwise a non-empty ciphertext that carries
/// the plaintext under the passphrase.
pub open spec fn passphrase_encryption(plaintext: Seq<u8>, passphrase: Seq<char>, r: Result<Vec<u8>>) -> bool {
    if passphrase.len() < MIN_PASSPHRASE_LEN {
        r matches Err(e) && too_short(e, passphrase.len())
    } else {
        r matches Ok(ct) && ct@.len() > 0 && passphrase_plaintext(ct@, passphrase) == Some(plaintext)
    }
}

/// What decrypting `ciphertext` with `passphrase` may answer: `PassphraseTooShort`
/// for fewer than eight characters; the plaintext the ciphertext carries under the
/// passphrase, unless this machine refuses the work factor; and when the
/// passphrase does not open it, `DecryptionFailed` with the hint "Check passphrase".
pub open spec fn passphrase_decryption(ciphertext: Seq<u8>, passphrase: Seq<char>, r: Result<Vec<u8>>) -> bool {
    if passphrase.len() < MIN_PASSPHRASE_LEN {
        r matches Err(e) && too_short(e, passphrase.len())
    } else {
        match passphrase_plaintext(ciphertext, passphrase) {
            Some(p) => (r matches Ok(q) && q@ == p) || (r matches Err(e) && work_refused(e)),
            None => r matches Err(AgeCredentialsError::DecryptionFailed { identity, hint, .. })
                && identity is None && hint@ == "Check passphrase"@,
        }
    }
}

/// Encrypts `plaintext` under a passphrase of at least eight characters.
///
/// A shorter passphrase is `PassphraseTooShort`, reporting its number of
/// characters; any other passphrase is encrypted to, and the ciphertext carries the
/// plaintext under the passphrase.
pub fn encrypt_with_passphrase(plaintext: &[u8], passphrase: &str) -> (r: Result<Vec<u8>>)
    ensures
        passphrase@.len() < MIN_PASSPHRASE_LEN ==> (r matches Err(e) && too_short(
            e,
            passphrase@.len(),
        )),
        passphrase@.len() >= MIN_PASSPHRASE_LEN ==> r is Ok,
        r matches Ok(ct) ==> passphrase@.len() >= MIN_PASSPHRASE_LEN && passphrase_plaintext(
            ct@,
            passphrase@,
        ) == Some(plaintext@),        passphrase_encryption(plaintext@, passphrase@, r),
{
    let n = passphrase.unicode_len();
    if n < MIN_PASSPHRASE_LEN {
        return Err(
            AgeCredentialsError::PassphraseTooShort { length: n, min_length: MIN_PASSPHRASE_LEN },
        );
    }
    let response = rage_encrypt_with_passphrase(plaintext, passphrase);
    let recipients = vec!["<passphrase>".to_owned()];
    crate::agecore::crypto::encrypt::extract_encrypt_error(response, recipients)
}

/// Decrypts a passphrase-encrypted ciphertext; the passphrase must have at least
/// eight characters.
///
/// A shorter passphrase is `PassphraseTooShort`.  A ciphertext that the passphrase
/// opens gives its plaintext, unless this machine refuses the scrypt work factor
/// (`DecryptionFailed` with code `EXCESSIVE_WORK`); any failure is `DecryptionFailed`
/// with the hint "Check passphrase" and librage's code and message.  See
/// `passphrase_decryption`.
pub fn decrypt_with_passphrase(ciphertext: &[u8], passphrase: &str) -> (r: Result<Vec<u8>>)
    ensures
        passphrase@.len() < MIN_PASSPHRASE_LEN ==> (r matches Err(e) && too_short(
            e,
            passphrase@.len(),
        )),
        passphrase@.len() >= MIN_PASSPHRASE_LEN ==> (r matches Err(e) ==> (e matches AgeCredentialsError::DecryptionFailed { identity, hint, .. }
            && identity is None && hint@ == "Check passphrase"@)),
        passphrase@.len() >= MIN_PASSPHRASE_LEN && passphrase_plaintext(ciphertext@, passphrase@)
            is None ==> r is Err,
        r matches Ok(p) ==> passphrase_plaintext(ciphertext@, passphrase@) == Some(p@),
        passphrase_decryption(ciphertext@, passphrase@, r),
{
    let n = passphrase.unicode_len();
    if n < MIN_PASSPHRASE_LEN {
        return Err(
            AgeCredentialsError::PassphraseTooShort { length: n, min_length: MIN_PASSPHRASE_LEN },
        );
    }
    let response = rage_decrypt_with_passphrase(ciphertext, passphrase);
    if !response.success {
        let err = response.error.unwrap();
        return Err(
            AgeCredentialsError::DecryptionFailed {
                identity: None,
                hint: "Check passphrase".to_owned(),
                code: err.code,
                message: err.message,
            },
        );
    }
    Ok(response.data.unwrap())
}

/// Passphrase round trip: whenever `decrypt_with_passphrase` succeeds on what
/// `encrypt_with_passphrase` returned for the same passphrase, it gives back the
/// original plaintext.
pub proof fn lemma_passphrase_round_trip(ciphertext: Seq<u8>, passphrase: Seq<char>, plaintext: Seq<u8>, recovered: Seq<u8>)
    requires
        passphrase_plaintext(ciphertext, passphrase) == Some(plaintext),
        passphrase_plaintext(ciphertext, passphrase) == Some(recovered),
    ensures
        recovered == plaintext,
{
}

/// Passphrase round trip, with success: decrypting what `encrypt_with_passphrase`
/// returned, with the same passphrase of at least eight characters, gives back the
/// plaintext; the one other answer is this machine refusing the work factor.
pub proof fn law_passphrase_round_trip(
    plaintext: Seq<u8>,
    passphrase: Seq<char>,
    encrypted: Result<Vec<u8>>,
    decrypted: Result<Vec<u8>>,
)
    requires
        passphrase.len() >= MIN_PASSPHRASE_LEN,
        passphrase_encryption(plaintext, passphrase, encrypted),
        passphrase_decryption(encrypted->Ok_0@, passphrase, decrypted),
    ensures
        (decrypted matches Ok(p) && p@ == plaintext) || (decrypted matches Err(e) && work_refused(e)),
{
}

/// Decryption with a passphrase never answers the wrong plaintext, and never
/// refuses a ciphertext that the passphrase opens except for the machine's work
/// limit: an error other than that refusal means the passphrase does not open it.
pub proof fn law_passphrase_failure_means_wrong_passphrase(
    ciphertext: Seq<u8>,
    passphrase: Seq<char>,
    r: Result<Vec<u8>>,
)
    requires
        passphrase.len() >= MIN_PASSPHRASE_LEN,
        passphrase_decryption(ciphertext, passphrase, r),
        r matches Err(e) && !work_refused(e),
    ensures
        passphrase_plaintext(ciphertext, passphrase) is None,
{
}

} // verus!
