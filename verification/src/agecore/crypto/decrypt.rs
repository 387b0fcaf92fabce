//! Decryption with an age secret key.
use vstd::prelude::*;
use crate::handler::error::{AgeCredentialsError, Result};
use crate::rage::{RageBytes, age_decrypt_error_code, age_plaintext, bytes_response_shape, rage_decrypt};

verus! {

/// A `DecryptionFailed` error with the given hint and no identity.
pub open spec fn decryption_failure(e: AgeCredentialsError, hint: Seq<char>) -> bool {
    e matches AgeCredentialsError::DecryptionFailed { identity, hint: h, .. } && identity is None
        && h@ == hint
}

/// How a decryption response is read: the plaintext on success; on failure
/// `DecryptionFailed` with no identity, the hint "Verify secret key or ciphertext
/// integrity", and the code and message that librage reported.
pub open spec fn decryption_read(response: RageBytes, r: Result<Vec<u8>>) -> bool {
    if response.success {
        r matches Ok(p) && p@ == response.data->0@
    } else {
        r matches Err(AgeCredentialsError::DecryptionFailed { identity, hint, code, message })
            && identity is None && hint@ == "Verify secret key or ciphertext integrity"@ && code@
            == response.error->0.code@ && message@ == response.error->0.message@
    }
}

/// Reads a decryption response of librage (which carries data on success and an
/// error on failure).
pub fn extract_decrypt_error(response: RageBytes) -> (r: Result<Vec<u8>>)
    requires
        bytes_response_shape(response),
    ensures
        decryption_read(response, r),
{
    if !response.success {
        let err = response.error.unwrap();
        return Err(
            AgeCredentialsError::DecryptionFailed {
                identity: None,
                hint: "Verify secret key or ciphertext integrity".to_owned(),
                code: err.code,
                message: err.message,
            },
        );
    }
    Ok(response.data.unwrap())
}

/// Decrypts an age ciphertext (binary or armored) with a secret key.
///
/// It succeeds exactly when the key opens the ciphertext, and then gives the
/// plaintext; otherwise it is `DecryptionFailed` with the hint "Verify secret key or
/// ciphertext integrity" and the code and message that librage reports (see
/// `extract_decrypt_error`); the code is `age_decrypt_error_code` of the arguments.
pub fn decrypt(ciphertext: &[u8], secret_key: &str) -> (r: Result<Vec<u8>>)
    ensures
        r is Ok <==> age_plaintext(ciphertext@, secret_key@) is Some,
        r matches Ok(p) ==> age_plaintext(ciphertext@, secret_key@) == Some(p@),
        r matches Err(e) ==> decryption_failure(e, "Verify secret key or ciphertext integrity"@),
        r matches Err(e) ==> (e matches AgeCredentialsError::DecryptionFailed { code, .. } && code@
            == age_decrypt_error_code(ciphertext@, secret_key@)),
{
    let response = rage_decrypt(ciphertext, secret_key);
    extract_decrypt_error(response)
}

/// Public-key round trip: a ciphertext that `encrypt` (or `encrypt_multiple`,
/// `encrypt_armored`, ...) returned for the public key of a secret key is decrypted
/// by `decrypt` with that secret key to the original plaintext.
pub proof fn lemma_encrypt_decrypt(ciphertext: Seq<u8>, public_key: Seq<char>, secret_key: Seq<char>, plaintext: Seq<u8>)
    requires
        crate::rage::opens_for(ciphertext, public_key, plaintext),
        crate::rage::age_public_key_of(secret_key) == public_key,
    ensures
        age_plaintext(ciphertext, secret_key) == Some(plaintext),
{
}

} // verus!
