//! Encrypted private key files (`.age`).
use vstd::prelude::*;
use crate::handler::error::{AgeCredentialsError, Result};

verus! {

/// What may be written as an encrypted private key: any non-empty bytes; empty
/// data is `InvalidData` in "encrypted private key write".
pub fn check_encrypted_private_key(encrypted_key: &[u8]) -> (r: Result<()>)
    ensures
        encrypted_key@.len() > 0 ==> r is Ok,
        encrypted_key@.len() == 0 ==> (r matches Err(AgeCredentialsError::InvalidData { context, details })
            && context@ == "encrypted private key write"@ && details@ == "Encrypted key data is empty"@),
{
    if encrypted_key.len() == 0 {
        return Err(
            AgeCredentialsError::InvalidData {
                context: "encrypted private key write",
                details: "Encrypted key data is empty".to_owned(),
            },
        );
    }
    Ok(())
}

} // verus!
