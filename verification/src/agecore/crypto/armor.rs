//! ASCII-armored encryption to one or more age public keys.
use vstd::prelude::*;
use crate::agecore::crypto::encrypt::{extract_encrypt_error, failed_for, invalid_data, low_order_error, low_order_failure, owned_keys};
use crate::handler::error::{AgeCredentialsError, Result};
use crate::rage::{age_recipient_parses, is_age_armor, is_low_order_recipient, keys_reach_low_order, low_order_recipient, opens_for, rage_encrypt_armored, rage_encrypt_multiple_armored, reaches_low_order, str_views};
use crate::text::string_views;

verus! {

/// Encrypts `plaintext` to one age public key with ASCII-armored output.
///
/// An empty key is `InvalidData` in "armor encrypt"; a key that is not an age X25519
/// recipient is `EncryptionFailed` with code `INVALID_PUBLIC_KEY`, and so is a
/// recipient of small order (age would panic on it); every failure names the key as
/// the only recipient.  Any other recipient is encrypted to: the output is age's
/// ASCII armor and opens to the plaintext under any secret key of that recipient.
pub fn encrypt_armored(plaintext: &[u8], public_key: &str) -> (r: Result<Vec<u8>>)
    ensures
        public_key@.len() == 0 ==> invalid_data(r, "armor encrypt"@, "public key is empty"@),
        public_key@.len() > 0 ==> (r matches Err(e) ==> failed_for(e, seq![public_key@])),
        public_key@.len() > 0 && !age_recipient_parses(public_key@) ==> (r matches Err(e)
            && e matches AgeCredentialsError::EncryptionFailed { code, .. } && code@
            == "INVALID_PUBLIC_KEY"@),
        public_key@.len() > 0 && low_order_recipient(public_key@) ==> (r matches Err(e)
            && low_order_failure(e, seq![public_key@])),
        public_key@.len() > 0 && age_recipient_parses(public_key@) && !low_order_recipient(
            public_key@,
        ) ==> r is Ok,
        r matches Ok(ct) ==> public_key@.len() > 0 && age_recipient_parses(public_key@) && opens_for(
            ct@,
            public_key@,
            plaintext@,
        ) && is_age_armor(ct@),
{
    if public_key.unicode_len() == 0 {
        return Err(
            AgeCredentialsError::InvalidData {
                context: "armor encrypt",
                details: "public key is empty".to_owned(),
            },
        );
    }
    let recipients = vec![public_key.to_owned()];
    assert(string_views(recipients@) =~= seq![public_key@]);
    if is_low_order_recipient(public_key) {
        return Err(low_order_error(recipients));
    }
    let response = rage_encrypt_armored(plaintext, public_key);
    extract_encrypt_error(response, recipients)
}

/// Encrypts `plaintext` to several age public keys with ASCII-armored output.
///
/// No keys is `InvalidData` in "armor encrypt multiple"; a key that is not an age
/// X25519 recipient makes it `EncryptionFailed` with code `INVALID_PUBLIC_KEY`, and
/// so does a recipient of small order among keys that all parse; every failure
/// names all the keys.  Otherwise the output is age's ASCII armor and opens to the
/// plaintext for each of the keys.
pub fn encrypt_multiple_armored(plaintext: &[u8], public_keys: &[&str]) -> (r: Result<Vec<u8>>)
    ensures
        public_keys@.len() == 0 ==> invalid_data(
            r,
            "armor encrypt multiple"@,
            "at least one public key required"@,
        ),
        public_keys@.len() > 0 ==> (r matches Err(e) ==> failed_for(e, str_views(public_keys@))),
        (exists|i: int| 0 <= i < public_keys@.len() && !age_recipient_parses(#[trigger] public_keys@[i]@))
            ==> (r matches Err(e) && e matches AgeCredentialsError::EncryptionFailed { code, .. }
            && code@ == "INVALID_PUBLIC_KEY"@),
        public_keys@.len() > 0 && reaches_low_order(str_views(public_keys@)) ==> (r matches Err(e)
            && low_order_failure(e, str_views(public_keys@))),
        public_keys@.len() > 0 && (forall|i: int|
            0 <= i < public_keys@.len() ==> age_recipient_parses(#[trigger] public_keys@[i]@))
            && !reaches_low_order(str_views(public_keys@)) ==> r is Ok,
        r matches Ok(ct) ==> public_keys@.len() > 0 && is_age_armor(ct@) && forall|i: int|
            0 <= i < public_keys@.len() ==> age_recipient_parses(#[trigger] public_keys@[i]@)
                && opens_for(ct@, public_keys@[i]@, plaintext@),
{
    if public_keys.len() == 0 {
        return Err(
            AgeCredentialsError::InvalidData {
                context: "armor encrypt multiple",
                details: "at least one public key required".to_owned(),
            },
        );
    }
    let recipients = owned_keys(public_keys);
    if keys_reach_low_order(public_keys) {
        return Err(low_order_error(recipients));
    }
    let response = rage_encrypt_multiple_armored(plaintext, public_keys);
    extract_encrypt_error(response, recipients)
}

} // verus!
