//! Generation of age X25519 key pairs.
use vstd::prelude::*;
use crate::handler::error::{AgeCredentialsError, Result};
use crate::handler::types::KeyGenData;
use crate::rage::{age_public_key_of, rage_generate_keypair};

verus! {

/// Generates a fresh age X25519 key pair; the public key (`age1...`) is the
/// recipient of the secret key (`AGE-SECRET-KEY-1...`), which is kept in a buffer zeroed on drop.  librage always answers
/// a key generation with a key pair, so this always succeeds; a failure it reported
/// would be `KeyGenFailed` with its code and message.
pub fn generate_keypair() -> (r: Result<KeyGenData>)
    ensures
        r matches Ok(kp) && kp.public_key@ == age_public_key_of(kp.secret_key@),
        r matches Ok(kp) ==> kp.public_key@.len() > 4 && kp.public_key@.take(4) == "age1"@,
        r matches Ok(kp) ==> kp.secret_key@.len() > 16 && kp.secret_key@.take(16)
            == "AGE-SECRET-KEY-1"@,
{
    let response = rage_generate_keypair();
    if !response.success {
        let reason = match response.error {
            Some(e) => {
                let mut s = e.code;
                s.append(": ");
                s.append(e.message.as_str());
                s
            },
            None => "Unknown librage error".to_owned(),
        };
        return Err(AgeCredentialsError::KeyGenFailed { reason });
    }
    match response.data {
        Some(data) => Ok(KeyGenData { public_key: data.public_key, secret_key: data.secret_key }),
        None => Err(
            AgeCredentialsError::KeyGenFailed {
                reason: "librage returned success but no data".to_owned(),
            },
        ),
    }
}

} // verus!
