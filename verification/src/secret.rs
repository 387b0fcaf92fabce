//! Secret buffers that are wiped when dropped (`zeroize::Zeroizing`).
use vstd::prelude::*;
use zeroize::Zeroizing;

verus! {

/// Bytes that are zeroed in memory when dropped.
#[derive(Debug)]
#[verifier::external_body]
pub struct SecretBytes {
    pub(crate) inner: Zeroizing<Vec<u8>>,
}

/// Text that is zeroed in memory when dropped.
#[derive(Debug)]
#[verifier::external_body]
pub struct SecretText {
    pub(crate) inner: Zeroizing<String>,
}

/// The bytes that a secret buffer holds.
pub uninterp spec fn secret_bytes_content(s: SecretBytes) -> Seq<u8>;

/// The text that a secret buffer holds.
pub uninterp spec fn secret_text_content(s: SecretText) -> Seq<char>;

impl View for SecretBytes {
    type V = Seq<u8>;

    open spec fn view(&self) -> Seq<u8> {
        secret_bytes_content(*self)
    }
}

impl View for SecretText {
    type V = Seq<char>;

    open spec fn view(&self) -> Seq<char> {
        secret_text_content(*self)
    }
}

impl SecretBytes {
    /// `Zeroizing::new`: the buffer holds exactly the given bytes.
    #[verifier::external_body]
    pub fn new(v: Vec<u8>) -> (r: Self)
        ensures
            secret_bytes_content(r) == v@,
    {
        SecretBytes { inner: Zeroizing::new(v) }
    }

    /// The bytes the buffer holds (`Zeroizing`'s `Deref`).
    #[verifier::external_body]
    pub fn as_slice(&self) -> (r: &[u8])
        ensures
            r@ == secret_bytes_content(*self),
    {
        self.inner.as_slice()
    }
}

impl SecretText {
    /// `Zeroizing::new`: the buffer holds exactly the given text.
    #[verifier::external_body]
    pub fn new(s: String) -> (r: Self)
        ensures
            secret_text_content(r) == s@,
    {
        SecretText { inner: Zeroizing::new(s) }
    }

    /// The text the buffer holds (`Zeroizing`'s `Deref`).
    #[verifier::external_body]
    pub fn as_str(&self) -> (r: &str)
        ensures
            r@ == secret_text_content(*self),
    {
        self.inner.as_str()
    }
}

impl std::ops::Deref for SecretBytes {
    type Target = Vec<u8>;

    #[verifier::external_body]
    fn deref(&self) -> &Vec<u8> {
        &self.inner
    }
}

impl std::ops::Deref for SecretText {
    type Target = String;

    #[verifier::external_body]
    fn deref(&self) -> &String {
        &self.inner
    }
}

impl Clone for SecretBytes {
    /// `Zeroizing::clone`, which clones the held bytes.
    #[verifier::external_body]
    fn clone(&self) -> (r: Self)
        ensures
            r@ == self@,
    {
        SecretBytes { inner: self.inner.clone() }
    }
}

impl Clone for SecretText {
    /// `Zeroizing::clone`, which clones the held text.
    #[verifier::external_body]
    fn clone(&self) -> (r: Self)
        ensures
            r@ == self@,
    {
        SecretText { inner: self.inner.clone() }
    }
}

} // verus!
