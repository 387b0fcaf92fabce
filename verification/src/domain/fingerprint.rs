//! Fingerprints: the hexadecimal identifiers of accounts.
use vstd::prelude::*;
use crate::domain::error::{AccountError, Result};
use crate::handler::types::{all_hex_digits, is_fingerprint_text};

verus! {

/// A fingerprint: a non-empty string of hexadecimal digits that identifies an account.
#[derive(Debug, PartialEq, Eq, Hash)]
pub struct Fingerprint(String);

impl View for Fingerprint {
    type V = Seq<char>;

    closed spec fn view(&self) -> Seq<char> {
        self.0@
    }
}

impl Fingerprint {
    #[verifier::type_invariant]
    spec fn holds_hex(self) -> bool {
        is_fingerprint_text(self.0@)
    }

    /// Accepts `hex` when it is non-empty and made of hexadecimal digits only.
    pub fn new(hex: &str) -> (r: Result<Self>)
        ensures
            r is Ok <==> is_fingerprint_text(hex@),
            r matches Ok(fp) ==> fp@ == hex@,
            r matches Err(e) ==> (e matches AccountError::InvalidFingerprint { reason } && reason@
                == "must be non-empty hexadecimal"@),
    {
        if hex.unicode_len() == 0 || !all_hex_digits(hex) {
            return Err(
                AccountError::InvalidFingerprint { reason: "must be non-empty hexadecimal".to_owned() },
            );
        }
        Ok(Fingerprint(hex.to_owned()))
    }

    /// The fingerprint as text, which is always non-empty hexadecimal.
    pub fn as_str(&self) -> (r: &str)
        ensures
            r@ == self@,
            is_fingerprint_text(r@),
    {
        proof {
            use_type_invariant(self);
        }
        self.0.as_str()
    }

    /// The fingerprint as an owned text.
    pub fn to_string(&self) -> (r: String)
        ensures
            r@ == self@,
            is_fingerprint_text(r@),
    {
        proof {
            use_type_invariant(self);
        }
        self.0.clone()
    }
}

impl Clone for Fingerprint {
    fn clone(&self) -> (r: Self)
        ensures
            r@ == self@,
    {
        proof {
            use_type_invariant(self);
        }
        Fingerprint(self.0.clone())
    }
}

impl From<Fingerprint> for String {
    fn from(fp: Fingerprint) -> (r: String)
        ensures
            r@ == fp@,
    {
        fp.0
    }
}

impl vstd::std_specs::convert::FromSpecImpl<Fingerprint> for String {
    open spec fn obeys_from_spec() -> bool {
        true
    }

    closed spec fn from_spec(fp: Fingerprint) -> String {
        fp.0
    }
}

} // verus!
