//! `AccountEngine`: account operations over a storage backend.
use vstd::prelude::*;
use crate::agecore::crypto::passphrase::MIN_PASSPHRASE_LEN;
use crate::agecore::output::ascii::{hex_fault_details, hex_scan, hex_text};
use crate::backend::traits::{AccountBackend, email_search, has_identity, lists, same_identity};
use crate::crypto::{decrypt, decrypt_with_passphrase, encrypt, encrypt_with_passphrase, generate_keypair, hex_decode, hex_encode};
use crate::crypto::armor::account_failed_for;
use crate::crypto::passphrase::{account_passphrase_decryption, account_too_short, account_work_refused};
use crate::crypto::decrypt::{account_decryption_failure, decrypt_with_key_bytes, not_utf8_key_error};
use crate::digest::{sha256, sha256_digest};
use crate::domain::error::{AccountError, Result};
use crate::domain::fingerprint::Fingerprint;
use crate::domain::identity::Identity;
use crate::domain::types::UserID;
use crate::rage::{age_plaintext, age_public_key_of, age_recipient_parses, low_order_recipient, opens_for, passphrase_plaintext};
use crate::secret::SecretBytes;
use crate::text::trim_chars;
use vstd::utf8::{decode_utf8, encode_utf8, valid_utf8};

verus! {

/// The fingerprint of an account: the lower-case hexadecimal SHA-256 digest of
/// the UTF-8 bytes of its public key.
pub open spec fn account_fingerprint(public_key: Seq<char>) -> Seq<char> {
    hex_text(sha256(encode_utf8(public_key)))
}

/// An encrypted private key that the passphrase opens to the UTF-8 text of a
/// secret key whose public key is `public_key`.
pub open spec fn key_for(encrypted_key: Seq<u8>, passphrase: Seq<char>, public_key: Seq<char>) -> bool {
    exists|sk: Seq<char>|
        sk.len() > 0 && age_public_key_of(sk) == public_key && #[trigger] passphrase_plaintext(
            encrypted_key,
            passphrase,
        ) == Some(encode_utf8(sk))
}

/// The plaintext that decrypting `ciphertext` gives with the secret key that
/// `passphrase` recovers from `encrypted_key`.
pub open spec fn opened_with_key(
    encrypted_key: Seq<u8>,
    passphrase: Seq<char>,
    ciphertext: Seq<u8>,
    plaintext: Seq<u8>,
) -> bool {
    passphrase_plaintext(encrypted_key, passphrase) matches Some(skb) && valid_utf8(skb)
        && age_plaintext(ciphertext, decode_utf8(skb)) == Some(plaintext)
}

/// A payload that a sealed export opens to: the hexadecimal text decodes to a
/// ciphertext that carries the payload under the passphrase.
pub open spec fn export_opens(data: Seq<char>, passphrase: Seq<char>, payload: Seq<u8>) -> bool {
    hex_scan(data) matches Ok(ct) && passphrase_plaintext(ct, passphrase) == Some(payload)
}

/// Whether changing a passphrase can get as far as storing the new key: the key is
/// found, both passphrases are long enough, and the old one opens the key.  Short
/// of that, the backend is left as it was.
pub open spec fn may_store(entry: Result<Option<SecretBytes>>, old_passphrase: Seq<char>, new_passphrase: Seq<char>) -> bool {
    &&& entry matches Ok(Some(k)) && passphrase_plaintext(k@, old_passphrase) is Some
    &&& old_passphrase.len() >= MIN_PASSPHRASE_LEN
    &&& new_passphrase.len() >= MIN_PASSPHRASE_LEN
}

/// What decrypting for an account answers once its encrypted key `k` is loaded:
/// when the passphrase (of at least eight characters) unlocks `k` to the text of
/// a secret key that opens the ciphertext to `p`, the answer is `p`, unless this
/// machine refuses the scrypt work factor; and a "Check passphrase" failure means
/// the passphrase does not unlock `k`, or that refusal.
pub open spec fn unlocked_decryption(k: Seq<u8>, passphrase: Seq<char>, ciphertext: Seq<u8>, r: Result<SecretBytes>) -> bool {
    &&& passphrase.len() >= MIN_PASSPHRASE_LEN ==> match passphrase_plaintext(k, passphrase) {
        Some(skb) => (valid_utf8(skb) && skb.len() > 0) ==> match age_plaintext(ciphertext, decode_utf8(skb)) {
            Some(p) => (r matches Ok(x) && x@ == p) || (r matches Err(e) && account_work_refused(e)),
            None => true,
        },
        None => true,
    }
    &&& r matches Err(e) ==> (account_decryption_failure(e, "Check passphrase"@) ==> (
    passphrase_plaintext(k, passphrase) is None || account_work_refused(e)))
}

/// Sealed export text: the lower-case hexadecimal text of a non-empty ciphertext
/// that carries `payload` under the passphrase.
pub open spec fn sealed(text: Seq<char>, passphrase: Seq<char>, payload: Seq<u8>) -> bool {
    exists|ct: Seq<u8>|
        ct.len() > 0 && text == hex_text(ct) && #[trigger] passphrase_plaintext(ct, passphrase) == Some(
            payload,
        )
}

/// What opening export text may answer: the refusal of text that is not
/// hexadecimal; otherwise what decrypting the bytes it stands for with the
/// passphrase may answer.  The text counts only through the bytes it stands for.
pub open spec fn export_opening(data: Seq<char>, passphrase: Seq<char>, r: Result<Vec<u8>>) -> bool {
    match hex_scan(data) {
        Err(f) => r matches Err(AccountError::InvalidData { context, details }) && context@
            == "hex decode"@ && details@ == hex_fault_details(f, false),
        Ok(ct) => account_passphrase_decryption(ct, passphrase, r),
    }
}

/// The `AccountNotFound` error naming the fingerprint.
pub open spec fn not_found(e: AccountError, fingerprint: Seq<char>) -> bool {
    e matches AccountError::AccountNotFound(s) && s@ == fingerprint
}

/// What listing the accounts gives: the identities found for the fingerprints, in
/// order, skipping fingerprints without one; the first failed load ends it.
pub open spec fn listed_identities<B: AccountBackend>(backend: &B, fps: Seq<Fingerprint>) -> Result<Seq<Identity>>
    decreases fps.len(),
{
    if fps.len() == 0 {
        Ok(seq![])
    } else {
        match listed_identities(backend, fps.drop_last()) {
            Err(e) => Err(e),
            Ok(ids) => match backend.identity_entry(fps.last()@) {
                Err(e) => Err(e),
                Ok(Some(id)) => Ok(ids.push(id)),
                Ok(None) => Ok(ids),
            },
        }
    }
}

/// What the backend's `find_by_email` answers for an email, as text: the first
/// listed fingerprint whose identity has the email, or the first error.
pub open spec fn backend_email_lookup<B: AccountBackend>(backend: &B, email: Seq<char>) -> Result<Option<Seq<char>>> {
    match backend.fingerprint_list() {
        Err(e) => Err(e),
        Ok(fps) => email_search(|fp: Seq<char>| backend.identity_entry(fp), fps@, email),
    }
}

/// Account operations; it holds no state of its own.
pub struct AccountEngine;

impl AccountEngine {
    /// Creates an account: generates a key pair, derives the fingerprint from the
    /// public key, encrypts the secret key with the passphrase, saves the identity
    /// and then the encrypted key.  The passphrase needs at least eight characters,
    /// and a shorter one leaves the backend untouched; errors of the backend are
    /// passed on.
    pub fn create_account<B: AccountBackend>(
        backend: &mut B,
        user_id: UserID,
        passphrase: &str,
        label: Option<String>,
    ) -> (r: Result<Identity>)
        ensures
            passphrase@.len() < MIN_PASSPHRASE_LEN ==> (r matches Err(e) && account_too_short(
                e,
                passphrase@.len(),
            )),
            passphrase@.len() < MIN_PASSPHRASE_LEN ==> *final(backend) == *old(backend),
            r matches Ok(id) ==> {
                &&& id.user_id == user_id
                &&& id.label == label
                &&& id.fingerprint@ == account_fingerprint(id.public_key@)
                &&& final(backend).identity_entry(id.fingerprint@) matches Ok(Some(stored))
                    && same_identity(stored, id)
                &&& final(backend).key_entry(id.fingerprint@) matches Ok(Some(k)) && key_for(
                    k@,
                    passphrase@,
                    id.public_key@,
                )
            },
    {
        let key_data = match generate_keypair() {
            Ok(k) => k,
            Err(e) => {
                return Err(AccountError::KeyGenFailed { reason: e.to_string() });
            },
        };
        let digest = sha256_digest(key_data.public_key.as_str().as_bytes());
        let hex_digest = hex_encode(digest.as_slice());
        proof {
            crate::agecore::output::ascii::lemma_hex_text_is_fingerprint(digest@);
        }
        let fingerprint = Fingerprint::new(hex_digest.as_str())?;
        let secret = key_data.secret_key.as_str();
        let encrypted_private = encrypt_with_passphrase(secret.as_bytes(), passphrase)?;
        let ghost sk = secret@;
        let identity = Identity::new(fingerprint.clone(), user_id, key_data.public_key, label);
        backend.save_identity(&identity)?;
        backend.store_encrypted_private_key(&fingerprint, encrypted_private.as_slice())?;
        proof {
            assert(age_public_key_of(sk) == identity.public_key@);
            assert(passphrase_plaintext(encrypted_private@, passphrase@) == Some(encode_utf8(sk)));
        }
        Ok(identity)
    }

    /// Encrypts data to the public key of an account.  An account without an
    /// identity is `AccountNotFound`; errors of the backend and of the encryption
    /// are passed on.  A ciphertext that comes back opens to the data under the
    /// account's secret key.
    pub fn encrypt_for_account<B: AccountBackend>(
        backend: &B,
        fingerprint: &Fingerprint,
        plaintext: &[u8],
    ) -> (r: Result<Vec<u8>>)
        ensures
            match backend.identity_entry(fingerprint@) {
                Err(e) => r == Err::<Vec<u8>, AccountError>(e),
                Ok(None) => r matches Err(e) && not_found(e, fingerprint@),
                Ok(Some(id)) => {
                    &&& r matches Ok(ct) ==> opens_for(ct@, id.public_key@, plaintext@)
                    &&& id.public_key@.len() > 0 ==> (r matches Err(e) ==> account_failed_for(
                        e,
                        seq![id.public_key@],
                    ))
                    &&& id.public_key@.len() > 0 && age_recipient_parses(id.public_key@)
                        && !low_order_recipient(id.public_key@) ==> r is Ok
                },
            },
    {
        let identity = match backend.load_identity(fingerprint) {
            Err(e) => {
                return Err(e);
            },
            Ok(None) => {
                return Err(AccountError::AccountNotFound(fingerprint.to_string()));
            },
            Ok(Some(id)) => id,
        };
        encrypt(plaintext, identity.public_key.as_str())
    }

    /// Decrypts data for an account: unlocks its encrypted private key with the
    /// passphrase and decrypts with the secret key (see `decrypt_with_key_bytes`).
    /// An account without a key is `AccountNotFound`; a key that unlocks to bytes that
    /// are not UTF-8 text is `InvalidData` in "secret key decryption"; errors of the
    /// backend and of the decryptions are passed on.  Whether the passphrase unlocks
    /// the key on this machine also depends on the scrypt work factor it accepts.
    pub fn decrypt_for_account<B: AccountBackend>(
        backend: &B,
        fingerprint: &Fingerprint,
        passphrase: &str,
        ciphertext: &[u8],
    ) -> (r: Result<SecretBytes>)
        ensures
            match backend.key_entry(fingerprint@) {
                Err(e) => r == Err::<SecretBytes, AccountError>(e),
                Ok(None) => r matches Err(e) && not_found(e, fingerprint@),
                Ok(Some(k)) => {
                    &&& r matches Ok(p) ==> opened_with_key(k@, passphrase@, ciphertext@, p@)
                    &&& passphrase@.len() < MIN_PASSPHRASE_LEN ==> (r matches Err(e)
                        && account_too_short(e, passphrase@.len()))
                    &&& passphrase@.len() >= MIN_PASSPHRASE_LEN && passphrase_plaintext(k@, passphrase@) is None
                        ==> r is Err
                    &&& (passphrase@.len() >= MIN_PASSPHRASE_LEN && (passphrase_plaintext(k@, passphrase@)
                        matches Some(skb) && !valid_utf8(skb))) ==> (r matches Err(e) && (not_utf8_key_error(e) || account_decryption_failure(
                        e,
                        "Check passphrase"@,
                    )))
                    &&& (passphrase_plaintext(k@, passphrase@) matches Some(skb) && (!valid_utf8(skb)
                        || age_plaintext(ciphertext@, decode_utf8(skb)) is None)) ==> r is Err
                    &&& (r matches Err(e) && not_utf8_key_error(e)) ==> (passphrase_plaintext(
                        k@,
                        passphrase@,
                    ) matches Some(skb) && !valid_utf8(skb))
                    &&& (r matches Err(e) && account_decryption_failure(
                        e,
                        "Verify secret key or ciphertext integrity"@,
                    )) ==> (passphrase_plaintext(k@, passphrase@) matches Some(skb) && valid_utf8(skb)
                        && age_plaintext(ciphertext@, decode_utf8(skb)) is None)
                    &&& unlocked_decryption(k@, passphrase@, ciphertext@, r)
                },
            },
    {
        let encrypted_key = match backend.load_encrypted_private_key(fingerprint) {
            Err(e) => {
                return Err(e);
            },
            Ok(None) => {
                return Err(AccountError::AccountNotFound(fingerprint.to_string()));
            },
            Ok(Some(k)) => k,
        };
        let secret_key = match decrypt_with_passphrase(encrypted_key.as_slice(), passphrase) {
            Err(e) => {
                proof {
                    reveal_strlit("Check passphrase");
                    reveal_strlit("Verify secret key or ciphertext integrity");
                    assert("Check passphrase"@.len() != "Verify secret key or ciphertext integrity"@.len());
                }
                return Err(e);
            },
            Ok(s) => s,
        };
        proof {
            reveal_strlit("Check passphrase");
            reveal_strlit("Verify secret key or ciphertext integrity");
            assert("Check passphrase"@.len() != "Verify secret key or ciphertext integrity"@.len());
        }
        match decrypt_with_key_bytes(secret_key.as_slice(), ciphertext) {
            Err(e) => Err(e),
            Ok(plaintext) => Ok(SecretBytes::new(plaintext)),
        }
    }

    /// Re-encrypts the private key of an account under a new passphrase.  An
    /// account without a key is `AccountNotFound`; the old passphrase must unlock
    /// it; both passphrases need eight characters; errors of the backend and of the
    /// decryption are passed on.  On success the stored key opens under the new
    /// passphrase to what the old one opened, and no other entry changed.  A failure
    /// leaves the backend as it was when the key is missing, a passphrase is too
    /// short or the old one does not open the key.  When the old passphrase does
    /// open it, a failure may come from this machine refusing the scrypt work
    /// factor (nothing stored) or from the backend's own write, whose effect the
    /// backend's contract leaves open; which of the two it was is not stated.
    pub fn change_passphrase<B: AccountBackend>(
        backend: &mut B,
        fingerprint: &Fingerprint,
        old_passphrase: &str,
        new_passphrase: &str,
    ) -> (r: Result<()>)
        ensures
            old(backend).key_entry(fingerprint@) matches Ok(None) ==> (r matches Err(e) && not_found(
                e,
                fingerprint@,
            )),
            old(backend).key_entry(fingerprint@) matches Err(e) ==> r == Err::<(), AccountError>(e),
            r is Ok ==> (old(backend).key_entry(fingerprint@) matches Ok(Some(k))
                && passphrase_plaintext(k@, old_passphrase@) matches Some(secret)
                && final(backend).key_entry(fingerprint@) matches Ok(Some(k2))
                && passphrase_plaintext(k2@, new_passphrase@) == Some(secret)),
            r is Ok ==> forall|fp: Seq<char>|
                fp != fingerprint@ ==> #[trigger] final(backend).key_entry(fp) == old(backend).key_entry(fp),
            r is Ok ==> forall|fp: Seq<char>|
                #[trigger] final(backend).identity_entry(fp) == old(backend).identity_entry(fp),
            r is Err && !may_store(old(backend).key_entry(fingerprint@), old_passphrase@, new_passphrase@)
                ==> *final(backend) == *old(backend),
            old(backend).key_entry(fingerprint@) matches Ok(Some(_)) && old_passphrase@.len()
                < MIN_PASSPHRASE_LEN ==> (r matches Err(e) && account_too_short(e, old_passphrase@.len())),
            new_passphrase@.len() < MIN_PASSPHRASE_LEN ==> r is Err,
            old(backend).key_entry(fingerprint@) matches Ok(Some(k)) && old_passphrase@.len()
                >= MIN_PASSPHRASE_LEN && passphrase_plaintext(k@, old_passphrase@) is None ==> (r matches Err(
                e,
            ) && account_decryption_failure(e, "Check passphrase"@)),
            old(backend).key_entry(fingerprint@) matches Ok(Some(_)) && old_passphrase@.len()
                >= MIN_PASSPHRASE_LEN && new_passphrase@.len() < MIN_PASSPHRASE_LEN ==> (r matches Err(e)
                && (account_too_short(e, new_passphrase@.len()) || account_decryption_failure(
                e,
                "Check passphrase"@,
            ))),
    {
        let encrypted_key = match backend.load_encrypted_private_key(fingerprint) {
            Err(e) => {
                return Err(e);
            },
            Ok(None) => {
                return Err(AccountError::AccountNotFound(fingerprint.to_string()));
            },
            Ok(Some(k)) => k,
        };
        let secret_key = match decrypt_with_passphrase(encrypted_key.as_slice(), old_passphrase) {
            Err(e) => {
                return Err(e);
            },
            Ok(s) => s,
        };
        let new_encrypted = match encrypt_with_passphrase(secret_key.as_slice(), new_passphrase) {
            Err(e) => {
                return Err(e);
            },
            Ok(c) => c,
        };
        match backend.store_encrypted_private_key(fingerprint, new_encrypted.as_slice()) {
            Err(e) => Err(e),
            Ok(()) => Ok(()),
        }
    }

    /// Deletes the identity of an account through the backend.
    pub fn delete_account<B: AccountBackend>(backend: &mut B, fingerprint: &Fingerprint) -> (r: Result<()>)
        ensures
            r is Ok ==> final(backend).identity_entry(fingerprint@) == Ok::<Option<Identity>, AccountError>(None),
    {
        backend.delete_identity(fingerprint)
    }

    /// The identity of an account with the given email: the identity stored under
    /// the fingerprint that the backend's `find_by_email` answers, `None` when it
    /// finds none; errors of the backend are passed on.
    pub fn find_by_email<B: AccountBackend>(backend: &B, email: &str) -> (r: Result<Option<Identity>>)
        ensures
            match backend_email_lookup(backend, email@) {
                Err(e) => r == Err::<Option<Identity>, AccountError>(e),
                Ok(None) => r == Ok::<Option<Identity>, AccountError>(None),
                Ok(Some(fp)) => r == backend.identity_entry(fp),
            },
            r matches Ok(Some(id)) ==> id.user_id.email@ == email@,
    {
        match backend.find_by_email(email) {
            Err(e) => Err(e),
            Ok(Some(fp)) => backend.load_identity(&fp),
            Ok(None) => Ok(None),
        }
    }

    /// What an export carries: the identity of the account and its encrypted
    /// private key.  An account without either is `AccountNotFound`; errors of the
    /// backend are passed on.
    pub fn export_contents<B: AccountBackend>(backend: &B, fingerprint: &Fingerprint) -> (r: Result<(Identity, SecretBytes)>)
        ensures
            match backend.identity_entry(fingerprint@) {
                Err(e) => r == Err::<(Identity, SecretBytes), AccountError>(e),
                Ok(None) => r matches Err(e) && not_found(e, fingerprint@),
                Ok(Some(id)) => match backend.key_entry(fingerprint@) {
                    Err(e) => r == Err::<(Identity, SecretBytes), AccountError>(e),
                    Ok(None) => r matches Err(e) && not_found(e, fingerprint@),
                    Ok(Some(k)) => r == Ok::<(Identity, SecretBytes), AccountError>((id, k)),
                },
            },
    {
        let identity = match backend.load_identity(fingerprint) {
            Err(e) => {
                return Err(e);
            },
            Ok(None) => {
                return Err(AccountError::AccountNotFound(fingerprint.to_string()));
            },
            Ok(Some(id)) => id,
        };
        let encrypted_key = match backend.load_encrypted_private_key(fingerprint) {
            Err(e) => {
                return Err(e);
            },
            Ok(None) => {
                return Err(AccountError::AccountNotFound(fingerprint.to_string()));
            },
            Ok(Some(k)) => k,
        };
        Ok((identity, encrypted_key))
    }

    /// Seals the serialized export under a passphrase: encrypts it and returns the
    /// ciphertext as lower-case hexadecimal text.  The passphrase needs at least
    /// eight characters; with one that long it succeeds.
    pub fn seal_export(payload: &[u8], passphrase: &str) -> (r: Result<String>)
        ensures
            passphrase@.len() < MIN_PASSPHRASE_LEN ==> (r matches Err(e) && account_too_short(
                e,
                passphrase@.len(),
            )),
            passphrase@.len() >= MIN_PASSPHRASE_LEN ==> r is Ok,
            r matches Ok(h) ==> exists|ct: Seq<u8>|
                h@ == hex_text(ct) && #[trigger] passphrase_plaintext(ct, passphrase@) == Some(
                    payload@,
                ),
            r matches Ok(h) ==> sealed(h@, passphrase@, payload@),
    {
        let exported = encrypt_with_passphrase(payload, passphrase)?;
        Ok(hex_encode(exported.as_slice()))
    }

    /// Opens a sealed export: decodes the hexadecimal text and decrypts it with the
    /// passphrase.  Text that is not hexadecimal is `InvalidData` in "hex decode"
    /// (and only such text is); a passphrase under eight characters is
    /// `PassphraseTooShort`; a decryption that fails is `DecryptionFailed` with the hint
    /// "Check passphrase".  Whether scrypt is accepted also depends on this machine.
    pub fn open_export(data: &str, passphrase: &str) -> (r: Result<Vec<u8>>)
        ensures
            hex_scan(data@) matches Err(f) ==> (r matches Err(AccountError::InvalidData { context, details })
                && context@ == "hex decode"@ && details@ == hex_fault_details(f, false)),
            hex_scan(data@) is Ok && passphrase@.len() < MIN_PASSPHRASE_LEN ==> (r matches Err(e)
                && account_too_short(e, passphrase@.len())),
            (hex_scan(data@) matches Ok(ct) && passphrase@.len() >= MIN_PASSPHRASE_LEN
                && passphrase_plaintext(ct, passphrase@) is None) ==> (r matches Err(e)
                && account_decryption_failure(e, "Check passphrase"@)),
            hex_scan(data@) is Ok && passphrase@.len() >= MIN_PASSPHRASE_LEN ==> (r matches Err(e)
                ==> account_decryption_failure(e, "Check passphrase"@)),
            (r matches Err(e) && e is InvalidData) ==> hex_scan(data@) is Err,
            r matches Ok(p) ==> export_opens(data@, passphrase@, p@),
            export_opening(data@, passphrase@, r),
    {
        let encrypted_bytes = match hex_decode(data) {
            Err(e) => {
                return Err(e);
            },
            Ok(b) => b,
        };
        decrypt_with_passphrase(encrypted_bytes.as_slice(), passphrase)
    }

    /// Stores an imported account: saves the identity, then its encrypted private
    /// key, and returns the identity; errors of the backend are passed on.
    pub fn import_contents<B: AccountBackend>(backend: &mut B, identity: Identity, encrypted_key: &[u8]) -> (r: Result<Identity>)
        ensures
            r matches Ok(id) ==> {
                &&& id == identity
                &&& final(backend).identity_entry(id.fingerprint@) matches Ok(Some(stored))
                    && same_identity(stored, id)
                &&& final(backend).key_entry(id.fingerprint@) matches Ok(Some(k)) && k@ == encrypted_key@
            },
    {
        backend.save_identity(&identity)?;
        backend.store_encrypted_private_key(&identity.fingerprint, encrypted_key)?;
        Ok(identity)
    }

    /// The identities of all listed fingerprints that have one, in order.  Since a
    /// backend lists exactly the fingerprints it stores an identity under, each once,
    /// a listing that succeeds gives every stored identity once: one per listed
    /// fingerprint, in the order of the list.
    pub fn list_accounts<B: AccountBackend>(backend: &B) -> (r: Result<Vec<Identity>>)
        ensures
            match backend.fingerprint_list() {
                Err(e) => r == Err::<Vec<Identity>, AccountError>(e),
                Ok(fps) => match listed_identities(backend, fps@) {
                    Err(e) => r == Err::<Vec<Identity>, AccountError>(e),
                    Ok(ids) => r matches Ok(v) && v@ == ids,
                },
            },
            backend.fingerprint_list() matches Ok(fps) ==> (r matches Ok(v) && v@.len() == fps@.len()
                && forall|i: int|
                0 <= i < fps@.len() ==> #[trigger] backend.identity_entry(fps@[i]@) == Ok::<
                    Option<Identity>,
                    AccountError,
                >(Some(v@[i]))),
            forall|fp: Seq<char>|
                has_identity(#[trigger] backend.identity_entry(fp)) ==> (r matches Ok(v)
                    ==> v@.contains(backend.identity_entry(fp)->Ok_0->Some_0)),
    {
        let fingerprints = match backend.list_fingerprints() {
            Err(e) => {
                return Err(e);
            },
            Ok(f) => f,
        };
        let ghost fps = fingerprints@;
        proof {
            assert forall|i: int| 0 <= i < fps.len() implies has_identity(
                #[trigger] backend.identity_entry(fps[i]@),
            ) by {
                assert(lists(fps, fps[i]@));
            }
            lemma_listed_all(backend, fps);
        }
        let mut identities: Vec<Identity> = Vec::new();
        let n = fingerprints.len();
        let mut i: usize = 0;
        while i < n
            invariant
                n == fps.len(),
                fps == fingerprints@,
                backend.fingerprint_list() == Ok::<Vec<Fingerprint>, AccountError>(fingerprints),
                i <= n,
                forall|k: int| 0 <= k < fps.len() ==> has_identity(#[trigger] backend.identity_entry(fps[k]@)),
                listed_identities(backend, fps.take(i as int)) == Ok::<Seq<Identity>, AccountError>(identities@),
            decreases n - i,
        {
            proof {
                assert(fps.take(i + 1).drop_last() =~= fps.take(i as int));
                assert(fps.take(i + 1).last() == fps[i as int]);
            }
            match backend.load_identity(&fingerprints[i]) {
                Err(e) => {
                    proof {
                        assert(listed_identities(backend, fps.take(i + 1)) == Err::<Seq<Identity>, AccountError>(e));
                        lemma_listed_error_sticks(backend, fps, (i + 1) as nat, e);
                        assert(fps.take(n as int) =~= fps);
                    }
                    return Err(e);
                },
                Ok(Some(id)) => {
                    identities.push(id);
                },
                Ok(None) => {},
            }
            i = i + 1;
        }
        proof {
            assert(fps.take(n as int) =~= fps);
            assert forall|fp: Seq<char>| has_identity(#[trigger] backend.identity_entry(fp)) implies identities@.contains(
                backend.identity_entry(fp)->Ok_0->Some_0,
            ) by {
                assert(lists(fps, fp));
                let k = choose|k: int| 0 <= k < fps.len() && #[trigger] fps[k]@ == fp;
                assert(backend.identity_entry(fps[k]@) == Ok::<Option<Identity>, AccountError>(Some(identities@[k])));
            }
        }
        Ok(identities)
    }
}

/// Decrypting for an account gives back what was encrypted for it: when the
/// stored key opens under the passphrase to the secret key of the account's
/// public key (as `create_account` leaves it) and the ciphertext opens to
/// `plaintext` for that public key (as `encrypt_for_account` returns it), every
/// plaintext that `decrypt_for_account` may answer is `plaintext`.
pub proof fn lemma_account_encrypt_decrypt(
    encrypted_key: Seq<u8>,
    passphrase: Seq<char>,
    public_key: Seq<char>,
    ciphertext: Seq<u8>,
    plaintext: Seq<u8>,
    recovered: Seq<u8>,
)
    requires
        key_for(encrypted_key, passphrase, public_key),
        opens_for(ciphertext, public_key, plaintext),
        opened_with_key(encrypted_key, passphrase, ciphertext, recovered),
    ensures
        recovered == plaintext,
{
    let sk = choose|sk: Seq<char>|
        sk.len() > 0 && age_public_key_of(sk) == public_key && #[trigger] passphrase_plaintext(
            encrypted_key,
            passphrase,
        ) == Some(encode_utf8(sk));
    vstd::utf8::encode_utf8_decode_utf8(sk);
    assert(decode_utf8(encode_utf8(sk)) == sk);
    assert(age_plaintext(ciphertext, sk) == Some(plaintext));
}

/// Decrypting for an account succeeds on what was encrypted for it: when the stored
/// key opens under a passphrase of at least eight characters to the secret key of
/// the account's public key (as `create_account` leaves it), and the ciphertext
/// opens to `plaintext` for that public key (as `encrypt_for_account` returns it),
/// `decrypt_for_account` answers `plaintext`, unless this machine refuses the
/// scrypt work factor.
pub proof fn law_account_round_trip(
    encrypted_key: Seq<u8>,
    passphrase: Seq<char>,
    public_key: Seq<char>,
    ciphertext: Seq<u8>,
    plaintext: Seq<u8>,
    r: Result<SecretBytes>,
)
    requires
        passphrase.len() >= MIN_PASSPHRASE_LEN,
        key_for(encrypted_key, passphrase, public_key),
        opens_for(ciphertext, public_key, plaintext),
        unlocked_decryption(encrypted_key, passphrase, ciphertext, r),
    ensures
        (r matches Ok(x) && x@ == plaintext) || (r matches Err(e) && account_work_refused(e)),
{
    let sk = choose|sk: Seq<char>|
        sk.len() > 0 && age_public_key_of(sk) == public_key && #[trigger] passphrase_plaintext(
            encrypted_key,
            passphrase,
        ) == Some(encode_utf8(sk));
    vstd::utf8::encode_utf8_decode_utf8(sk);
    vstd::utf8::encode_utf8_valid_utf8(sk);
    crate::text::lemma_utf8_len_bound(sk);
    assert(age_plaintext(ciphertext, sk) == Some(plaintext));
}

/// Changing the passphrase keeps the account usable: a key that opened to the
/// secret of a public key under the old passphrase is replaced by one that opens
/// to the same secret under the new passphrase.
pub proof fn lemma_change_passphrase_keeps_key(
    old_key: Seq<u8>,
    new_key: Seq<u8>,
    old_passphrase: Seq<char>,
    new_passphrase: Seq<char>,
    public_key: Seq<char>,
)
    requires
        key_for(old_key, old_passphrase, public_key),
        passphrase_plaintext(old_key, old_passphrase) matches Some(secret) && passphrase_plaintext(
            new_key,
            new_passphrase,
        ) == Some(secret),
    ensures
        key_for(new_key, new_passphrase, public_key),
{
    let sk = choose|sk: Seq<char>|
        sk.len() > 0 && age_public_key_of(sk) == public_key && #[trigger] passphrase_plaintext(
            old_key,
            old_passphrase,
        ) == Some(encode_utf8(sk));
    assert(passphrase_plaintext(new_key, new_passphrase) == Some(encode_utf8(sk)));
}

/// An export opens again: for a non-empty ciphertext that carries `payload` under
/// the passphrase, every payload that `open_export` may answer for its hexadecimal
/// text (what `seal_export` returns) is `payload`.
pub proof fn lemma_export_import(ciphertext: Seq<u8>, passphrase: Seq<char>, payload: Seq<u8>, recovered: Seq<u8>)
    requires
        ciphertext.len() > 0,
        passphrase_plaintext(ciphertext, passphrase) == Some(payload),
        export_opens(hex_text(ciphertext), passphrase, recovered),
    ensures
        recovered == payload,
{
    crate::agecore::output::ascii::lemma_hex_decode_encode(ciphertext);
}

/// Listing fingerprints that all carry an identity gives one identity for each of
/// them, in order.
pub proof fn lemma_listed_all<B: AccountBackend>(backend: &B, fps: Seq<Fingerprint>)
    requires
        forall|i: int| 0 <= i < fps.len() ==> has_identity(#[trigger] backend.identity_entry(fps[i]@)),
    ensures
        listed_identities(backend, fps) matches Ok(ids) && ids.len() == fps.len() && forall|i: int|
            0 <= i < fps.len() ==> #[trigger] backend.identity_entry(fps[i]@) == Ok::<
                Option<Identity>,
                AccountError,
            >(Some(ids[i])),
    decreases fps.len(),
{
    if fps.len() > 0 {
        let init = fps.drop_last();
        assert forall|i: int| 0 <= i < init.len() implies has_identity(
            #[trigger] backend.identity_entry(init[i]@),
        ) by {
            assert(init[i] == fps[i]);
        }
        lemma_listed_all(backend, init);
        assert(has_identity(backend.identity_entry(fps[fps.len() - 1]@)));
        let ids = listed_identities(backend, init)->Ok_0;
        assert forall|i: int| 0 <= i < fps.len() implies #[trigger] backend.identity_entry(fps[i]@)
            == Ok::<Option<Identity>, AccountError>(Some(listed_identities(backend, fps)->Ok_0[i])) by {
            if i < init.len() {
                assert(init[i] == fps[i]);
                assert(backend.identity_entry(init[i]@) == Ok::<Option<Identity>, AccountError>(
                    Some(ids[i]),
                ));
            }
        }
    }
}

/// Once a load has failed, listing more fingerprints gives the same error.
proof fn lemma_listed_error_sticks<B: AccountBackend>(backend: &B, fps: Seq<Fingerprint>, k: nat, e: AccountError)
    requires
        k <= fps.len(),
        listed_identities(backend, fps.take(k as int)) == Err::<Seq<Identity>, AccountError>(e),
    ensures
        listed_identities(backend, fps) == Err::<Seq<Identity>, AccountError>(e),
    decreases fps.len() - k,
{
    if k < fps.len() {
        assert(fps.take(k + 1 as int).drop_last() =~= fps.take(k as int));
        lemma_listed_error_sticks(backend, fps, k + 1, e);
    } else {
        assert(fps.take(k as int) =~= fps);
    }
}

/// An export opens again, with success: opening the text that `seal_export`
/// returned, or that text with white space around it (as a file read back
/// gives it), with the same passphrase of at least eight characters, answers the
/// payload, unless this machine refuses the scrypt work factor.
pub proof fn law_export_round_trip(
    payload: Seq<u8>,
    passphrase: Seq<char>,
    sealed_text: Seq<char>,
    data: Seq<char>,
    r: Result<Vec<u8>>,
)
    requires
        passphrase.len() >= MIN_PASSPHRASE_LEN,
        sealed(sealed_text, passphrase, payload),
        trim_chars(data) == sealed_text,
        export_opening(data, passphrase, r),
    ensures
        (r matches Ok(p) && p@ == payload) || (r matches Err(e) && account_work_refused(e)),
{
    let ct = choose|ct: Seq<u8>|
        ct.len() > 0 && sealed_text == hex_text(ct) && #[trigger] passphrase_plaintext(ct, passphrase)
            == Some(payload);
    crate::agecore::output::ascii::lemma_hex_decode_encode(ct);
    crate::agecore::output::ascii::lemma_hex_scan_trimmed(data);
}

/// Opening export text depends on the text only through the bytes it stands for:
/// surrounding white space changes nothing, so the answers allowed for `data` and
/// for `data` trimmed are the same.
pub proof fn law_export_ignores_surrounding_space(data: Seq<char>, passphrase: Seq<char>, r: Result<Vec<u8>>)
    ensures
        export_opening(data, passphrase, r) == export_opening(trim_chars(data), passphrase, r),
{
    crate::agecore::output::ascii::lemma_hex_scan_trimmed(data);
}

} // verus!
