//! `AccountBackend`: the storage that users of the engine provide.
use vstd::prelude::*;
use crate::domain::error::{AccountError, Result};
use crate::domain::fingerprint::Fingerprint;
use crate::domain::identity::Identity;
use crate::secret::SecretBytes;

verus! {

/// Two identities with the same content.
pub open spec fn same_identity(a: Identity, b: Identity) -> bool {
    &&& a.fingerprint@ == b.fingerprint@
    &&& a.user_id == b.user_id
    &&& a.label == b.label
    &&& a.public_key == b.public_key
    &&& a.created_at == b.created_at
}

/// The storage of identities and encrypted private keys, keyed by fingerprint.
///
/// Reads are described by the spec functions `identity_entry`, `key_entry` and
/// `fingerprint_list` of the backend's state; a successful write is seen by the
/// matching read, and leaves the entries of other fingerprints as they were.
pub trait AccountBackend {
    /// What `load_identity` answers for a fingerprint.
    closed spec fn identity_entry(&self, fingerprint: Seq<char>) -> Result<Option<Identity>> {
        arbitrary()
    }

    /// What `load_encrypted_private_key` answers for a fingerprint.
    closed spec fn key_entry(&self, fingerprint: Seq<char>) -> Result<Option<SecretBytes>> {
        arbitrary()
    }

    /// What `list_fingerprints` answers.
    closed spec fn fingerprint_list(&self) -> Result<Vec<Fingerprint>> {
        arbitrary()
    }

    /// Stores an identity under its fingerprint.
    fn save_identity(&mut self, identity: &Identity) -> (r: Result<()>)
        ensures
            r is Ok ==> (final(self).identity_entry(identity.fingerprint@) matches Ok(Some(id))
                && same_identity(id, *identity)),
            r is Ok ==> forall|fp: Seq<char>|
                fp != identity.fingerprint@ ==> #[trigger] final(self).identity_entry(fp)
                    == old(self).identity_entry(fp),
            r is Ok ==> forall|fp: Seq<char>|
                #[trigger] final(self).key_entry(fp) == old(self).key_entry(fp),
    ;

    /// Loads the identity with the given fingerprint, if any.
    fn load_identity(&self, fingerprint: &Fingerprint) -> (r: Result<Option<Identity>>)
        ensures
            r == self.identity_entry(fingerprint@),
    ;

    /// Removes the identity with the given fingerprint.
    fn delete_identity(&mut self, fingerprint: &Fingerprint) -> (r: Result<()>)
        ensures
            r is Ok ==> final(self).identity_entry(fingerprint@) == Ok::<Option<Identity>, AccountError>(None),
            r is Ok ==> forall|fp: Seq<char>|
                fp != fingerprint@ ==> #[trigger] final(self).identity_entry(fp)
                    == old(self).identity_entry(fp),
    ;

    /// Stores the encrypted private key of a fingerprint.
    fn store_encrypted_private_key(&mut self, fingerprint: &Fingerprint, encrypted_key: &[u8]) -> (r: Result<()>)
        ensures
            r is Ok ==> (final(self).key_entry(fingerprint@) matches Ok(Some(k)) && k@
                == encrypted_key@),
            r is Ok ==> forall|fp: Seq<char>|
                fp != fingerprint@ ==> #[trigger] final(self).key_entry(fp) == old(self).key_entry(fp),
            r is Ok ==> forall|fp: Seq<char>|
                #[trigger] final(self).identity_entry(fp) == old(self).identity_entry(fp),
    ;

    /// Loads the encrypted private key of a fingerprint, if any.
    fn load_encrypted_private_key(&self, fingerprint: &Fingerprint) -> (r: Result<Option<SecretBytes>>)
        ensures
            r == self.key_entry(fingerprint@),
    ;

    /// The fingerprints of all stored identities, each once: a fingerprint is listed
    /// exactly when an identity is stored under it.
    fn list_fingerprints(&self) -> (r: Result<Vec<Fingerprint>>)
        ensures
            r == self.fingerprint_list(),
            r matches Ok(v) ==> forall|fp: Seq<char>|
                has_identity(#[trigger] self.identity_entry(fp)) <==> lists(v@, fp),
            r matches Ok(v) ==> forall|i: int, j: int|
                0 <= i < j < v@.len() ==> #[trigger] v@[i]@ != #[trigger] v@[j]@,
    ;

    /// The fingerprint of an identity with the given email, if one is found: the
    /// first listed fingerprint whose identity has that email, passing on errors of
    /// the listing and of the loads.  An implementation that answers otherwise (from
    /// an index, say) gives the same answer.
    fn find_by_email(&self, email: &str) -> (r: Result<Option<Fingerprint>>)
        ensures
            r matches Ok(Some(fp)) ==> (self.identity_entry(fp@) matches Ok(Some(id))
                && id.user_id.email@ == email@),
            match self.fingerprint_list() {
                Err(e) => r == Err::<Option<Fingerprint>, AccountError>(e),
                Ok(fps) => found_as(r, email_search(|fp: Seq<char>| self.identity_entry(fp), fps@, email@)),
            },
    {
        let fps = match self.list_fingerprints() {
            Err(e) => {
                return Err(e);
            },
            Ok(f) => f,
        };
        let ghost all = fps@;
        let ghost entries = |fp: Seq<char>| self.identity_entry(fp);
        proof {
            assert(all.skip(0) =~= all);
        }
        let n = fps.len();
        let mut i: usize = 0;
        while i < n
            invariant
                n == all.len(),
                all == fps@,
                self.fingerprint_list() == Ok::<Vec<Fingerprint>, AccountError>(fps),
                i <= n,
                entries == (|fp: Seq<char>| self.identity_entry(fp)),
                email_search(entries, all, email@) == email_search(entries, all.skip(i as int), email@),
            decreases n - i,
        {
            proof {
                assert(all.skip(i as int).skip(1) =~= all.skip(i + 1));
                assert(all.skip(i as int)[0] == all[i as int]);
            }
            let fp = &fps[i];
            match self.load_identity(fp) {
                Err(e) => {
                    return Err(e);
                },
                Ok(Some(identity)) => {
                    if string_eq(identity.user_id.email.as_str(), email) {
                        return Ok(Some(fp.clone()));
                    }
                },
                Ok(None) => {},
            }
            i = i + 1;
        }
        proof {
            assert(all.skip(n as int).len() == 0);
        }
        Ok(None)
    }
}

/// An answer of `load_identity` that carries an identity.
pub open spec fn has_identity(entry: Result<Option<Identity>>) -> bool {
    entry matches Ok(Some(_))
}

/// Whether the fingerprint `fp` occurs in the list.
pub open spec fn lists(fps: Seq<Fingerprint>, fp: Seq<char>) -> bool {
    exists|i: int| 0 <= i < fps.len() && #[trigger] fps[i]@ == fp
}

/// A lookup result that matches an answer given as text: the same error, no
/// fingerprint, or a fingerprint with that text.
pub open spec fn found_as(r: Result<Option<Fingerprint>>, answer: Result<Option<Seq<char>>>) -> bool {
    match answer {
        Err(e) => r == Err::<Option<Fingerprint>, AccountError>(e),
        Ok(None) => r == Ok::<Option<Fingerprint>, AccountError>(None),
        Ok(Some(found)) => r matches Ok(Some(fp)) && fp@ == found,
    }
}

/// What the default `find_by_email` finds among `fps`, searched in order, where
/// `entries` gives the identity stored for a fingerprint: the first fingerprint
/// whose identity has the email, or `None`; a failed load ends the search with its
/// error.
pub open spec fn email_search(
    entries: spec_fn(Seq<char>) -> Result<Option<Identity>>,
    fps: Seq<Fingerprint>,
    email: Seq<char>,
) -> Result<Option<Seq<char>>>
    decreases fps.len(),
{
    if fps.len() == 0 {
        Ok(None)
    } else {
        match entries(fps[0]@) {
            Err(e) => Err(e),
            Ok(Some(id)) => if id.user_id.email@ == email {
                Ok(Some(fps[0]@))
            } else {
                email_search(entries, fps.skip(1), email)
            },
            Ok(None) => email_search(entries, fps.skip(1), email),
        }
    }
}

/// Equality of two texts.
pub fn string_eq(a: &str, b: &str) -> (r: bool)
    ensures
        r == (a@ == b@),
{
    let n = a.unicode_len();
    if n != b.unicode_len() {
        return false;
    }
    let mut i: usize = 0;
    while i < n
        invariant
            n == a@.len(),
            n == b@.len(),
            i <= n,
            forall|j: int| 0 <= j < i ==> a@[j] == b@[j],
        decreases n - i,
    {
        if a.get_char(i) != b.get_char(i) {
            return false;
        }
        i = i + 1;
    }
    assert(a@ =~= b@);
    true
}

} // verus!
