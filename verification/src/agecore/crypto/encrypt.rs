//! Binary encryption to one or more age public keys.
use vstd::prelude::*;
use crate::handler::error::{AgeCredentialsError, Result};
use crate::rage::{RageBytes, age_recipient_parses, is_low_order_recipient, keys_reach_low_order, low_order_recipient, opens_for, rage_encrypt, rage_encrypt_multiple, reaches_low_order, str_views};
use crate::text::string_views;

verus! {

/// An `EncryptionFailed` error for exactly the given recipients.
pub open spec fn failed_for(e: AgeCredentialsError, keys: Seq<Seq<char>>) -> bool {
    e matches AgeCredentialsError::EncryptionFailed { recipients, .. } && string_views(recipients@)
        == keys
}

/// An `EncryptionFailed` error with the given recipients, code and message.
pub open spec fn encryption_failure(
    e: AgeCredentialsError,
    keys: Seq<Seq<char>>,
    code: Seq<char>,
    message: Seq<char>,
) -> bool {
    e matches AgeCredentialsError::EncryptionFailed { recipients, code: c, message: m }
        && string_views(recipients@) == keys && c@ == code && m@ == message
}

/// How an encryption response is read: the ciphertext on success; the reported
/// code and message on failure; `UNKNOWN` when the response lacks its part.
pub open spec fn encryption_outcome(response: RageBytes, keys: Seq<Seq<char>>, r: Result<Vec<u8>>) -> bool {
    if !response.success {
        match response.error {
            Some(err) => r matches Err(e) && encryption_failure(e, keys, err.code@, err.message@),
            None => r matches Err(e) && encryption_failure(
                e,
                keys,
                "UNKNOWN"@,
                "librage returned failure without error details"@,
            ),
        }
    } else {
        match response.data {
            Some(d) => r matches Ok(v) && v@ == d@,
            None => r matches Err(e) && encryption_failure(
                e,
                keys,
                "UNKNOWN"@,
                "librage returned success but no data"@,
            ),
        }
    }
}

/// Reads an encryption response for the given recipients.
pub fn extract_encrypt_error(response: RageBytes, recipients: Vec<String>) -> (r: Result<Vec<u8>>)
    ensures
        encryption_outcome(response, string_views(recipients@), r),
{
    if !response.success {
        match response.error {
            Some(err) => {
                return Err(
                    AgeCredentialsError::EncryptionFailed {
                        recipients,
                        code: err.code,
                        message: err.message,
                    },
                );
            },
            None => {
                return Err(
                    AgeCredentialsError::EncryptionFailed {
                        recipients,
                        code: "UNKNOWN".to_owned(),
                        message: "librage returned failure without error details".to_owned(),
                    },
                );
            },
        }
    }
    match response.data {
        Some(d) => Ok(d),
        None => Err(
            AgeCredentialsError::EncryptionFailed {
                recipients,
                code: "UNKNOWN".to_owned(),
                message: "librage returned success but no data".to_owned(),
            },
        ),
    }
}

/// The refusal of a key list that reaches a small-order key, before age is asked
/// (age would panic on it): `EncryptionFailed` with code `INVALID_PUBLIC_KEY`.
pub open spec fn low_order_failure(e: AgeCredentialsError, keys: Seq<Seq<char>>) -> bool {
    encryption_failure(e, keys, "INVALID_PUBLIC_KEY"@, "public key has small order"@)
}

/// The `EncryptionFailed` error for a key list that reaches a small-order key.
pub fn low_order_error(recipients: Vec<String>) -> (e: AgeCredentialsError)
    ensures
        low_order_failure(e, string_views(recipients@)),
{
    AgeCredentialsError::EncryptionFailed {
        recipients,
        code: "INVALID_PUBLIC_KEY".to_owned(),
        message: "public key has small order".to_owned(),
    }
}

/// The error for a missing key argument: `InvalidData` in `context`.
pub open spec fn invalid_data(r: Result<Vec<u8>>, context: Seq<char>, details: Seq<char>) -> bool {
    r matches Err(AgeCredentialsError::InvalidData { context: c, details: d }) && c@ == context
        && d@ == details
}

/// Encrypts `plaintext` (binary output) to one age public key.
///
/// An empty key is `InvalidData`; a key that is not an age X25519 recipient is
/// `EncryptionFailed` with code `INVALID_PUBLIC_KEY`, and so is a recipient of small
/// order (age would panic on it); every failure names the key as the only
/// recipient.  Any other recipient is encrypted to, and the ciphertext opens to the
/// plaintext under any secret key of that recipient.
pub fn encrypt(plaintext: &[u8], public_key: &str) -> (r: Result<Vec<u8>>)
    ensures
        public_key@.len() == 0 ==> invalid_data(r, "encrypt"@, "public key is empty"@),
        public_key@.len() > 0 ==> (r matches Err(e) ==> failed_for(e, seq![public_key@])),
        public_key@.len() > 0 && !age_recipient_parses(public_key@) ==> (r matches Err(e)
            && e matches AgeCredentialsError::EncryptionFailed { code, .. } && code@
            == "INVALID_PUBLIC_KEY"@),
        public_key@.len() > 0 && low_order_recipient(public_key@) ==> (r matches Err(e)
            && low_order_failure(e, seq![public_key@])),
        public_key@.len() > 0 && age_recipient_parses(public_key@) && !low_order_recipient(
            public_key@,
        ) ==> r is Ok,
        r matches Ok(ct) ==> public_key@.len() > 0 && age_recipient_parses(public_key@) && opens_for(
            ct@,
            public_key@,
            plaintext@,
        ),
{
    if public_key.unicode_len() == 0 {
        return Err(
            AgeCredentialsError::InvalidData {
                context: "encrypt",
                details: "public key is empty".to_owned(),
            },
        );
    }
    let recipients = vec![public_key.to_owned()];
    assert(string_views(recipients@) =~= seq![public_key@]);
    if is_low_order_recipient(public_key) {
        return Err(low_order_error(recipients));
    }
    let response = rage_encrypt(plaintext, public_key);
    extract_encrypt_error(response, recipients)
}

/// The keys as owned strings.
pub fn owned_keys(public_keys: &[&str]) -> (r: Vec<String>)
    ensures
        string_views(r@) == str_views(public_keys@),
{
    let mut v: Vec<String> = Vec::new();
    let n = public_keys.len();
    let mut i: usize = 0;
    while i < n
        invariant
            n == public_keys@.len(),
            i <= n,
            string_views(v@) =~= str_views(public_keys@.take(i as int)),
        decreases n - i,
    {
        let ghost old_v = v@;
        let k = public_keys[i].to_owned();
        v.push(k);
        proof {
            assert(string_views(old_v).len() == old_v.len());
            assert(old_v.len() == i);
            assert(v@ == old_v.push(k));
            assert forall|j: int| 0 <= j < i + 1 implies #[trigger] string_views(v@)[j] == str_views(
                public_keys@.take(i + 1),
            )[j] by {
                if j < i {
                    assert(v@[j] == old_v[j]);
                    assert(string_views(old_v)[j] == str_views(public_keys@.take(i as int))[j]);
                }
            }
            assert(string_views(v@) =~= str_views(public_keys@.take(i + 1)));
        }
        i = i + 1;
    }
    proof {
        assert(public_keys@.take(n as int) =~= public_keys@);
    }
    v
}

/// Encrypts `plaintext` (binary output) to several age public keys at once.
///
/// No keys is `InvalidData`; a key that is not an age X25519 recipient makes it
/// `EncryptionFailed` with code `INVALID_PUBLIC_KEY`, and so does a recipient of
/// small order among keys that all parse (age would panic on it); every failure
/// names all the keys as recipients.  Otherwise the keys are encrypted to, and the
/// ciphertext opens to the plaintext for every one of them.
pub fn encrypt_multiple(plaintext: &[u8], public_keys: &[&str]) -> (r: Result<Vec<u8>>)
    ensures
        public_keys@.len() == 0 ==> invalid_data(
            r,
            "encrypt multiple"@,
            "at least one public key required"@,
        ),
        public_keys@.len() > 0 ==> (r matches Err(e) ==> failed_for(e, str_views(public_keys@))),
        (exists|i: int| 0 <= i < public_keys@.len() && !age_recipient_parses(#[trigger] public_keys@[i]@))
            ==> (r matches Err(e) && e matches AgeCredentialsError::EncryptionFailed { code, .. }
            && code@ == "INVALID_PUBLIC_KEY"@),
        public_keys@.len() > 0 && reaches_low_order(str_views(public_keys@)) ==> (r matches Err(e)
            && low_order_failure(e, str_views(public_keys@))),
        public_keys@.len() > 0 && (forall|i: int|
            0 <= i < public_keys@.len() ==> age_recipient_parses(#[trigger] public_keys@[i]@))
            && !reaches_low_order(str_views(public_keys@)) ==> r is Ok,
        r matches Ok(ct) ==> public_keys@.len() > 0 && forall|i: int|
            0 <= i < public_keys@.len() ==> age_recipient_parses(#[trigger] public_keys@[i]@)
                && opens_for(ct@, public_keys@[i]@, plaintext@),
{
    if public_keys.len() == 0 {
        return Err(
            AgeCredentialsError::InvalidData {
                context: "encrypt multiple",
                details: "at least one public key required".to_owned(),
            },
        );
    }
    let recipients = owned_keys(public_keys);
    if keys_reach_low_order(public_keys) {
        return Err(low_order_error(recipients));
    }
    let response = rage_encrypt_multiple(plaintext, public_keys);
    extract_encrypt_error(response, recipients)
}

} // verus!
