//! Decryption with an age secret key, for the account engine.
use vstd::prelude::*;
use crate::domain::error::{AccountError, Result};
use crate::rage::{RageBytes, age_decrypt_error_code, age_plaintext, rage_decrypt};
use crate::text::utf8_text;
use vstd::utf8::{decode_utf8, valid_utf8};

verus! {

/// A `DecryptionFailed` account error with the given hint.
pub open spec fn account_decryption_failure(e: AccountError, hint: Seq<char>) -> bool {
    e matches AccountError::DecryptionFailed { hint: h, .. } && h@ == hint
}

/// How a decryption response is read: the plaintext on success; on failure
/// `DecryptionFailed` with the hint "Verify secret key or ciphertext integrity" and
/// librage's code and message; `UNKNOWN` when the response lacks its part.
pub open spec fn account_decryption_read(response: RageBytes, r: Result<Vec<u8>>) -> bool {
    if !response.success {
        match response.error {
            Some(err) => r matches Err(AccountError::DecryptionFailed { hint, code, message })
                && hint@ == "Verify secret key or ciphertext integrity"@ && code@ == err.code@
                && message@ == err.message@,
            None => r matches Err(AccountError::DecryptionFailed { hint, code, message })
                && hint@ == "librage returned failure without error details"@ && code@ == "UNKNOWN"@
                && message@ == "librage returned failure without error details"@,
        }
    } else {
        match response.data {
            Some(d) => r matches Ok(p) && p@ == d@,
            None => r matches Err(AccountError::DecryptionFailed { hint, code, message })
                && hint@ == "librage returned success but no data"@ && code@ == "UNKNOWN"@
                && message@ == "librage returned success but no data"@,
        }
    }
}

/// Reads a decryption response of librage for the account engine.
pub fn extract_decrypt_response(response: RageBytes) -> (r: Result<Vec<u8>>)
    ensures
        account_decryption_read(response, r),
{
    if !response.success {
        match response.error {
            Some(err) => {
                return Err(
                    AccountError::DecryptionFailed {
                        hint: "Verify secret key or ciphertext integrity".to_owned(),
                        code: err.code,
                        message: err.message,
                    },
                );
            },
            None => {
                return Err(
                    AccountError::DecryptionFailed {
                        hint: "librage returned failure without error details".to_owned(),
                        code: "UNKNOWN".to_owned(),
                        message: "librage returned failure without error details".to_owned(),
                    },
                );
            },
        }
    }
    match response.data {
        Some(d) => Ok(d),
        None => Err(
            AccountError::DecryptionFailed {
                hint: "librage returned success but no data".to_owned(),
                code: "UNKNOWN".to_owned(),
                message: "librage returned success but no data".to_owned(),
            },
        ),
    }
}

/// Decrypts an age ciphertext (binary or armored) with a secret key.  An empty key
/// is `InvalidData` in "decrypt"; otherwise it succeeds exactly when the key opens
/// the ciphertext, and then gives the plaintext; a failure is `DecryptionFailed` with
/// the hint "Verify secret key or ciphertext integrity" and librage's code
/// (`age_decrypt_error_code` of the arguments) and message.
pub fn decrypt(ciphertext: &[u8], secret_key: &str) -> (r: Result<Vec<u8>>)
    ensures
        secret_key@.len() == 0 ==> (r matches Err(AccountError::InvalidData { context, details })
            && context@ == "decrypt"@ && details@ == "secret key is empty"@),
        secret_key@.len() > 0 ==> (r is Ok <==> age_plaintext(ciphertext@, secret_key@) is Some),
        r matches Ok(p) ==> age_plaintext(ciphertext@, secret_key@) == Some(p@),
        secret_key@.len() > 0 ==> (r matches Err(e) ==> account_decryption_failure(
            e,
            "Verify secret key or ciphertext integrity"@,
        )),
        secret_key@.len() > 0 ==> (r matches Err(e) ==> (e matches AccountError::DecryptionFailed {
            code,
            ..
        } && code@ == age_decrypt_error_code(ciphertext@, secret_key@))),
{
    if secret_key.unicode_len() == 0 {
        return Err(
            AccountError::InvalidData { context: "decrypt", details: "secret key is empty".to_owned() },
        );
    }
    let response = rage_decrypt(ciphertext, secret_key);
    extract_decrypt_response(response)
}

/// The refusal of unlocked key bytes that are not UTF-8 text.
pub open spec fn not_utf8_key_error(e: AccountError) -> bool {
    e matches AccountError::InvalidData { context, details } && context@
        == "secret key decryption"@ && details@ == "Decrypted key is not valid UTF-8"@
}

/// Decrypts with a secret key given as the bytes of its text: bytes that are not
/// UTF-8 are `InvalidData` in "secret key decryption"; otherwise `decrypt` with the
/// text they encode.
pub fn decrypt_with_key_bytes(key: &[u8], ciphertext: &[u8]) -> (r: Result<Vec<u8>>)
    ensures
        !valid_utf8(key@) ==> (r matches Err(e) && not_utf8_key_error(e)),
        valid_utf8(key@) && key@.len() == 0 ==> (r matches Err(AccountError::InvalidData { context, .. })
            && context@ == "decrypt"@),
        valid_utf8(key@) && key@.len() > 0 ==> (r is Ok <==> age_plaintext(
            ciphertext@,
            decode_utf8(key@),
        ) is Some),
        valid_utf8(key@) && key@.len() > 0 ==> (r matches Err(e) ==> account_decryption_failure(
            e,
            "Verify secret key or ciphertext integrity"@,
        )),
        r matches Ok(p) ==> valid_utf8(key@) && age_plaintext(ciphertext@, decode_utf8(key@)) == Some(
            p@,
        ),
        (r matches Err(e) && not_utf8_key_error(e)) ==> !valid_utf8(key@),
        (r matches Err(e) && account_decryption_failure(e, "Verify secret key or ciphertext integrity"@))
            ==> valid_utf8(key@) && age_plaintext(ciphertext@, decode_utf8(key@)) is None,
{
    match utf8_text(key) {
        None => Err(
            AccountError::InvalidData {
                context: "secret key decryption",
                details: "Decrypted key is not valid UTF-8".to_owned(),
            },
        ),
        Some(text) => {
            proof {
                vstd::utf8::decode_utf8_encode_utf8(key@);
                reveal_strlit("decrypt");
                reveal_strlit("secret key decryption");
            }
            assert("decrypt"@.len() != "secret key decryption"@.len());
            decrypt(ciphertext, text)
        },
    }
}

} // verus!
