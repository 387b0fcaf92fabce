//! Account identities.
use vstd::prelude::*;
use crate::domain::fingerprint::Fingerprint;
use crate::domain::types::UserID;

verus! {

/// `chrono::Utc::now().timestamp()`: the current time in seconds since the Unix
/// epoch.  It depends on the clock, so nothing is stated of it.
#[verifier::external_body]
fn unix_now() -> (r: i64) {
    chrono::Utc::now().timestamp()
}

/// An account: its fingerprint, its user, an optional label, its age public key
/// and when it was created (seconds since the Unix epoch).
#[derive(Debug)]
pub struct Identity {
    pub fingerprint: Fingerprint,
    pub user_id: UserID,
    pub label: Option<String>,
    pub public_key: String,
    pub created_at: i64,
}

impl Clone for Identity {
    fn clone(&self) -> (r: Self)
        ensures
            r.fingerprint@ == self.fingerprint@,
            r.user_id == self.user_id,
            r.label == self.label,
            r.public_key == self.public_key,
            r.created_at == self.created_at,
    {
        Identity {
            fingerprint: self.fingerprint.clone(),
            user_id: self.user_id.clone(),
            label: match &self.label {
                Some(l) => Some(l.clone()),
                None => None,
            },
            public_key: self.public_key.clone(),
            created_at: self.created_at,
        }
    }
}

impl Identity {
    /// An identity created now from its parts.
    pub fn new(fingerprint: Fingerprint, user_id: UserID, public_key: String, label: Option<String>) -> (r: Self)
        ensures
            r.fingerprint == fingerprint,
            r.user_id == user_id,
            r.public_key == public_key,
            r.label == label,
    {
        Identity { fingerprint, user_id, label, public_key, created_at: unix_now() }
    }
}

} // verus!
