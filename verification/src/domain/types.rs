//! Users and generated key pairs.
use vstd::prelude::*;
use crate::domain::error::{AccountError, Result};
use crate::handler::types::{user_email_problem, user_id_rejection, user_name_problem};
use crate::secret::SecretText;
use crate::text::{str_trim, trim_chars};

verus! {

/// A user: a name and an email address, both trimmed and validated.
#[derive(Debug, PartialEq, Eq)]
pub struct UserID {
    pub name: String,
    pub email: String,
}

impl Clone for UserID {
    fn clone(&self) -> (r: Self)
        ensures
            r == *self,
    {
        UserID { name: self.name.clone(), email: self.email.clone() }
    }
}

impl UserID {
    /// Validates the name and the email, and keeps both trimmed.
    pub fn new(name: &str, email: &str) -> (r: Result<Self>)
        ensures
            r is Ok <==> user_id_rejection(name@, email@) is None,
            r matches Ok(u) ==> u.name@ == trim_chars(name@) && u.email@ == trim_chars(email@),
            r matches Err(e) ==> (e matches AccountError::InvalidUserId { reason } && Some(reason@)
                == user_id_rejection(name@, email@)),
    {
        match user_name_problem(name) {
            Some(reason) => {
                return Err(AccountError::InvalidUserId { reason });
            },
            None => {},
        }
        match user_email_problem(email) {
            Some(reason) => {
                return Err(AccountError::InvalidUserId { reason });
            },
            None => {},
        }
        Ok(UserID { name: str_trim(name).to_owned(), email: str_trim(email).to_owned() })
    }

    /// The user as `Name <email>`.
    pub fn to_formatted(&self) -> (r: String)
        ensures
            r@ == self.name@ + " <"@ + self.email@ + ">"@,
    {
        let mut s = self.name.clone();
        s.append(" <");
        s.append(self.email.as_str());
        s.append(">");
        s
    }
}

/// A freshly generated key pair: the age public key, and the secret key in a
/// buffer that is zeroed when dropped.
#[derive(Debug)]
pub struct KeyGenData {
    pub public_key: String,
    pub secret_key: SecretText,
}

impl Clone for KeyGenData {
    fn clone(&self) -> (r: Self)
        ensures
            r.public_key@ == self.public_key@,
            r.secret_key@ == self.secret_key@,
    {
        KeyGenData { public_key: self.public_key.clone(), secret_key: self.secret_key.clone() }
    }
}

} // verus!
