//! The calls into `librage` (age encryption) and `age`, with what the library
//! relies on of them.
use vstd::prelude::*;
use crate::secret::SecretText;

verus! {

/// The error part of a `librage` response: a machine-readable code and a message.
pub struct RageError {
    pub code: String,
    pub message: String,
}

/// A `librage` response whose data is a byte buffer (a ciphertext or a plaintext).
pub struct RageBytes {
    pub success: bool,
    pub data: Option<Vec<u8>>,
    pub error: Option<RageError>,
}

/// A freshly generated key pair as `librage` reports it.
pub struct RageKeyPair {
    pub public_key: String,
    pub secret_key: SecretText,
}

/// A `librage` response to a key generation.
pub struct RageKeys {
    pub success: bool,
    pub data: Option<RageKeyPair>,
    pub error: Option<RageError>,
}

/// Every `librage` response is built by `LibrageResponse::ok` (success, data,
/// no error) or `LibrageResponse::err` (failure, error, no data).
pub open spec fn bytes_response_shape(r: RageBytes) -> bool {
    if r.success {
        r.data is Some && r.error is None
    } else {
        r.data is None && r.error is Some
    }
}

/// Whether `key` parses as an age X25519 recipient (`age::x25519::Recipient::from_str`).
pub uninterp spec fn age_recipient_parses(key: Seq<char>) -> bool;

/// The recipient string (`age1...`) of an age X25519 identity string
/// (`AGE-SECRET-KEY-1...`): `Identity::to_public` followed by `Recipient::to_string`.
pub uninterp spec fn age_public_key_of(secret_key: Seq<char>) -> Seq<char>;

/// What `librage::decrypt` recovers from `ciphertext` (binary or armored) with the
/// secret key: `Some(plaintext)` when it succeeds, `None` when it fails.
pub uninterp spec fn age_plaintext(ciphertext: Seq<u8>, secret_key: Seq<char>) -> Option<Seq<u8>>;

/// The error code that `librage::decrypt` reports when it fails on these arguments
/// (`INVALID_SECRET_KEY`, `NO_MATCHING_KEYS`, `DECRYPTION_FAILED`, `UNKNOWN_FORMAT`,
/// ...): the variant of the error decides it.
pub uninterp spec fn age_decrypt_error_code(ciphertext: Seq<u8>, secret_key: Seq<char>) -> Seq<char>;

/// The plaintext that a passphrase-encrypted (binary) `ciphertext` carries under
/// `passphrase`: what `librage::decrypt_with_passphrase` returns when the scrypt
/// work factor of the ciphertext is accepted; `None` when the passphrase does not
/// open it or the ciphertext is not such a file.
pub uninterp spec fn passphrase_plaintext(ciphertext: Seq<u8>, passphrase: Seq<char>) -> Option<
    Seq<u8>,
>;

/// A ciphertext that every holder of a secret key of the given recipient decrypts to `plaintext`.
pub open spec fn opens_for(ciphertext: Seq<u8>, recipient: Seq<char>, plaintext: Seq<u8>) -> bool {
    forall|sk: Seq<char>|
        age_public_key_of(sk) == recipient ==> #[trigger] age_plaintext(ciphertext, sk) == Some(
            plaintext,
        )
}

/// The data part of a Bech32 string as `bech32::decode` reads it, or `None` when
/// it does not decode.
pub uninterp spec fn bech32_payload(s: Seq<char>) -> Option<Seq<u8>>;

/// `x25519_dalek::x25519(k, u)`: the X25519 function of the scalar `k` (clamped)
/// and the u-coordinate `u`, both 32 bytes.
pub uninterp spec fn x25519_output(k: Seq<u8>, u: Seq<u8>) -> Seq<u8>;

/// The fixed scalar with which a recipient is probed for small order.
pub open spec fn probe_scalar() -> Seq<u8> {
    Seq::new(32, |_i: int| 9u8)
}

/// Thirty-two zero bytes: the X25519 output for a point of small order.
pub open spec fn zero_point() -> Seq<u8> {
    Seq::new(32, |_i: int| 0u8)
}

/// An age X25519 recipient whose point has small order.  Its X25519 agreement with
/// every clamped scalar is all zeros (clamped scalars are multiples of the
/// cofactor and never multiples of the large prime orders), so probing with one
/// fixed scalar tells it; age's `Recipient::wrap_file_key` panics on such a key.
pub open spec fn low_order_recipient(key: Seq<char>) -> bool {
    &&& age_recipient_parses(key)
    &&& bech32_payload(key) matches Some(point)
    &&& point.len() == 32
    &&& x25519_output(probe_scalar(), point) == zero_point()
}

/// A list of keys on which age would reach a small-order point: every key
/// parses (so librage goes on to encrypt) and one of them has small order.
pub open spec fn reaches_low_order(keys: Seq<Seq<char>>) -> bool {
    &&& forall|i: int| 0 <= i < keys.len() ==> age_recipient_parses(#[trigger] keys[i])
    &&& exists|i: int| 0 <= i < keys.len() && low_order_recipient(#[trigger] keys[i])
}

/// The first line of age's ASCII armor.
pub open spec fn armor_begin() -> Seq<u8> {
    vstd::utf8::encode_utf8("-----BEGIN AGE ENCRYPTED FILE-----"@)
}

/// The last line of age's ASCII armor, without its line ending.
pub open spec fn armor_end() -> Seq<u8> {
    vstd::utf8::encode_utf8("-----END AGE ENCRYPTED FILE-----"@)
}

/// ASCII armor as age's `ArmoredWriter` writes it: the begin marker and a line
/// ending first, the end marker and a line ending (`\n`, or `\r\n` on Windows) last.
pub open spec fn is_age_armor(bytes: Seq<u8>) -> bool {
    let b = armor_begin();
    let e = armor_end();
    &&& bytes.len() >= b.len() + e.len()
    &&& bytes.take(b.len() as int) == b
    &&& (bytes.skip(bytes.len() - e.len() - 1) == e.push(10u8) || bytes.skip(
        bytes.len() - e.len() - 2,
    ) == e.push(13u8).push(10u8))
}

/// `bech32::decode`: the data bytes of a Bech32 or Bech32m string.
#[verifier::external_body]
pub(crate) fn bech32_data(s: &str) -> (r: Option<Vec<u8>>)
    ensures
        r matches Some(v) ==> bech32_payload(s@) == Some(v@),
        r is None ==> bech32_payload(s@) is None,
{
    match bech32::decode(s) {
        Ok((_, data)) => Some(data),
        Err(_) => None,
    }
}

/// `x25519_dalek::x25519`: 32 output bytes for a 32-byte scalar and u-coordinate.
#[verifier::external_body]
pub(crate) fn x25519(k: &[u8], u: &[u8]) -> (r: Vec<u8>)
    requires
        k@.len() == 32,
        u@.len() == 32,
    ensures
        r@ == x25519_output(k@, u@),
        r@.len() == 32,
{
    x25519_dalek::x25519(k.try_into().unwrap(), u.try_into().unwrap()).to_vec()
}

/// `<age::x25519::Recipient as FromStr>::from_str` succeeds.
#[verifier::external_body]
pub(crate) fn recipient_parses(key: &str) -> (r: bool)
    ensures
        r == age_recipient_parses(key@),
{
    key.parse::<age::x25519::Recipient>().is_ok()
}

/// `librage::encrypt`: binary age encryption to one X25519 recipient with a fresh
/// random file key. The source shows: a key that does not parse is answered
/// `INVALID_PUBLIC_KEY`; a key that parses is encrypted to, since writing to a
/// `Vec` cannot fail, and the ciphertext opens to the plaintext under any secret
/// key of that recipient.  A small-order key is left out: age panics on it.  Which
/// bytes come out is random and not stated.
#[verifier::external_body]
pub(crate) fn rage_encrypt(plaintext: &[u8], public_key: &str) -> (r: RageBytes)
    requires
        !low_order_recipient(public_key@),
    ensures
        bytes_response_shape(r),
        r.success ==> age_recipient_parses(public_key@) && opens_for(
            r.data->0@,
            public_key@,
            plaintext@,
        ),
        !age_recipient_parses(public_key@) ==> !r.success && r.error->0.code@ == "INVALID_PUBLIC_KEY"@,
        age_recipient_parses(public_key@) ==> r.success,
{
    let r = librage::encrypt(plaintext, public_key);
    RageBytes {
        success: r.success,
        data: match r.data { Some(d) => Some(d.ciphertext.to_vec()), None => None },
        error: match r.error { Some(e) => Some(RageError { code: e.code, message: e.message }), None => None },
    }
}

/// `librage::encrypt_armored`: as `rage_encrypt`, with the output wrapped in age's
/// ASCII armor (begin and end marker lines), which `librage::decrypt` reads as well.
#[verifier::external_body]
pub(crate) fn rage_encrypt_armored(plaintext: &[u8], public_key: &str) -> (r: RageBytes)
    requires
        !low_order_recipient(public_key@),
    ensures
        bytes_response_shape(r),
        r.success ==> age_recipient_parses(public_key@) && opens_for(
            r.data->0@,
            public_key@,
            plaintext@,
        ),
        !age_recipient_parses(public_key@) ==> !r.success && r.error->0.code@ == "INVALID_PUBLIC_KEY"@,
        age_recipient_parses(public_key@) ==> r.success,
        r.success ==> is_age_armor(r.data->0@),
{
    let r = librage::encrypt_armored(plaintext, public_key);
    RageBytes {
        success: r.success,
        data: match r.data { Some(d) => Some(d.ciphertext.to_vec()), None => None },
        error: match r.error { Some(e) => Some(RageError { code: e.code, message: e.message }), None => None },
    }
}

/// The views of a list of string slices.
pub open spec fn str_views(keys: Seq<&str>) -> Seq<Seq<char>> {
    keys.map_values(|k: &str| k@)
}

/// `librage::encrypt_multiple`: binary age encryption to several X25519 recipients.
/// The source shows: if any key does not parse the answer is `INVALID_PUBLIC_KEY`;
/// a non-empty list of keys that all parse is encrypted to, and the ciphertext opens
/// to the plaintext for every recipient.  A list that reaches a small-order key is
/// left out: age panics on it.
#[verifier::external_body]
pub(crate) fn rage_encrypt_multiple(plaintext: &[u8], public_keys: &[&str]) -> (r: RageBytes)
    requires
        !reaches_low_order(str_views(public_keys@)),
    ensures
        bytes_response_shape(r),
        r.success ==> forall|i: int|
            0 <= i < public_keys@.len() ==> age_recipient_parses(#[trigger] public_keys@[i]@)
                && opens_for(r.data->0@, public_keys@[i]@, plaintext@),
        (exists|i: int| 0 <= i < public_keys@.len() && !age_recipient_parses(#[trigger] public_keys@[i]@))
            ==> !r.success && r.error->0.code@ == "INVALID_PUBLIC_KEY"@,
        public_keys@.len() > 0 && (forall|i: int|
            0 <= i < public_keys@.len() ==> age_recipient_parses(#[trigger] public_keys@[i]@))
            ==> r.success,
{
    let r = librage::encrypt_multiple(plaintext, public_keys);
    RageBytes {
        success: r.success,
        data: match r.data { Some(d) => Some(d.ciphertext.to_vec()), None => None },
        error: match r.error { Some(e) => Some(RageError { code: e.code, message: e.message }), None => None },
    }
}

/// `librage::encrypt_multiple_armored`: as `rage_encrypt_multiple`, with the output
/// in age's ASCII armor.
#[verifier::external_body]
pub(crate) fn rage_encrypt_multiple_armored(plaintext: &[u8], public_keys: &[&str]) -> (r: RageBytes)
    requires
        !reaches_low_order(str_views(public_keys@)),
    ensures
        bytes_response_shape(r),
        r.success ==> forall|i: int|
            0 <= i < public_keys@.len() ==> age_recipient_parses(#[trigger] public_keys@[i]@)
                && opens_for(r.data->0@, public_keys@[i]@, plaintext@),
        (exists|i: int| 0 <= i < public_keys@.len() && !age_recipient_parses(#[trigger] public_keys@[i]@))
            ==> !r.success && r.error->0.code@ == "INVALID_PUBLIC_KEY"@,
        public_keys@.len() > 0 && (forall|i: int|
            0 <= i < public_keys@.len() ==> age_recipient_parses(#[trigger] public_keys@[i]@))
            ==> r.success,
        r.success ==> is_age_armor(r.data->0@),
{
    let r = librage::encrypt_multiple_armored(plaintext, public_keys);
    RageBytes {
        success: r.success,
        data: match r.data { Some(d) => Some(d.ciphertext.to_vec()), None => None },
        error: match r.error { Some(e) => Some(RageError { code: e.code, message: e.message }), None => None },
    }
}

/// `librage::decrypt`: X25519 decryption of a binary or armored ciphertext.  It
/// succeeds exactly when `age_plaintext` names a plaintext, and returns it; on
/// failure its code is `age_decrypt_error_code`.  The message is not stated: for
/// some errors age words it in the user's language.
#[verifier::external_body]
pub(crate) fn rage_decrypt(ciphertext: &[u8], secret_key: &str) -> (r: RageBytes)
    ensures
        bytes_response_shape(r),
        r.success <==> age_plaintext(ciphertext@, secret_key@) is Some,
        r.success ==> age_plaintext(ciphertext@, secret_key@) == Some(r.data->0@),
        !r.success ==> r.error->0.code@ == age_decrypt_error_code(ciphertext@, secret_key@),
{
    let r = librage::decrypt(ciphertext, secret_key);
    RageBytes {
        success: r.success,
        data: match r.data { Some(d) => Some(d.plaintext.to_vec()), None => None },
        error: match r.error { Some(e) => Some(RageError { code: e.code, message: e.message }), None => None },
    }
}

/// `librage::encrypt_with_passphrase`: scrypt-based age encryption.  The source has
/// no failing path (one scrypt recipient, writing to a `Vec`), so it succeeds, and the
/// ciphertext (never empty: it starts with the age header) carries the plaintext
/// under the passphrase.  The work factor is
/// measured on the machine and the salt is random, so the bytes are not stated.
#[verifier::external_body]
pub(crate) fn rage_encrypt_with_passphrase(plaintext: &[u8], passphrase: &str) -> (r: RageBytes)
    ensures
        bytes_response_shape(r),
        r.success,
        passphrase_plaintext(r.data->0@, passphrase@) == Some(plaintext@),
        r.data->0@.len() > 0,
{
    let r = librage::encrypt_with_passphrase(plaintext, passphrase);
    RageBytes {
        success: r.success,
        data: match r.data { Some(d) => Some(d.ciphertext.to_vec()), None => None },
        error: match r.error { Some(e) => Some(RageError { code: e.code, message: e.message }), None => None },
    }
}

/// `librage::decrypt_with_passphrase`.  When it succeeds it returns the plaintext
/// that the ciphertext carries under the passphrase.  On a ciphertext that the
/// passphrase opens, the one way it fails is age's scrypt identity refusing the
/// work factor (above the limit it measures on this machine, or beyond scrypt's
/// parameters), which librage reports with code `EXCESSIVE_WORK`; whether that
/// happens depends on the machine and is not stated.
#[verifier::external_body]
pub(crate) fn rage_decrypt_with_passphrase(ciphertext: &[u8], passphrase: &str) -> (r: RageBytes)
    ensures
        bytes_response_shape(r),
        r.success ==> passphrase_plaintext(ciphertext@, passphrase@) == Some(r.data->0@),
        !r.success && passphrase_plaintext(ciphertext@, passphrase@) is Some ==> r.error->0.code@
            == "EXCESSIVE_WORK"@,
{
    let r = librage::decrypt_with_passphrase(ciphertext, passphrase);
    RageBytes {
        success: r.success,
        data: match r.data { Some(d) => Some(d.plaintext.to_vec()), None => None },
        error: match r.error { Some(e) => Some(RageError { code: e.code, message: e.message }), None => None },
    }
}

/// `librage::generate_keypair`: a fresh random X25519 identity.  The source always
/// answers with success and data; the public key is the recipient of the secret key,
/// written in Bech32 as `age1...`, and the secret key as `AGE-SECRET-KEY-1...`.
#[verifier::external_body]
pub(crate) fn rage_generate_keypair() -> (r: RageKeys)
    ensures
        r.success && r.error is None,
        r.data is Some,
        r.data->0.public_key@ == age_public_key_of(r.data->0.secret_key@),
        r.data->0.public_key@.len() > 4 && r.data->0.public_key@.take(4) == "age1"@,
        r.data->0.secret_key@.len() > 16 && r.data->0.secret_key@.take(16) == "AGE-SECRET-KEY-1"@,
{
    let r = librage::generate_keypair();
    RageKeys {
        success: r.success,
        data: match r.data {
            Some(d) => Some(RageKeyPair { public_key: d.public_key, secret_key: SecretText { inner: d.secret_key } }),
            None => None,
        },
        error: match r.error { Some(e) => Some(RageError { code: e.code, message: e.message }), None => None },
    }
}

} // verus!

verus! {

fn probe() -> (v: Vec<u8>)
    ensures
        v@ == probe_scalar(),
{
    let mut v: Vec<u8> = Vec::new();
    let mut i: usize = 0;
    while i < 32
        invariant
            i <= 32,
            v@ =~= Seq::new(i as nat, |_j: int| 9u8),
        decreases 32 - i,
    {
        v.push(9u8);
        i = i + 1;
    }
    proof {
        assert(v@ =~= probe_scalar());
    }
    v
}

/// Whether `key` is an age X25519 recipient whose point has small order, on which
/// age's encryption would panic.
pub fn is_low_order_recipient(key: &str) -> (r: bool)
    ensures
        r == low_order_recipient(key@),
{
    if !recipient_parses(key) {
        return false;
    }
    match bech32_data(key) {
        None => false,
        Some(point) => {
            if point.len() != 32 {
                return false;
            }
            let k = probe();
            let out = x25519(k.as_slice(), point.as_slice());
            let mut i: usize = 0;
            while i < 32
                invariant
                    out@.len() == 32,
                    out@ == x25519_output(probe_scalar(), point@),
                    bech32_payload(key@) == Some(point@),
                    point@.len() == 32,
                    age_recipient_parses(key@),
                    i <= 32,
                    forall|j: int| 0 <= j < i ==> out@[j] == 0u8,
                decreases 32 - i,
            {
                if out[i] != 0 {
                    proof {
                        assert(out@[i as int] != zero_point()[i as int]);
                        assert(out@ != zero_point());
                    }
                    return false;
                }
                i = i + 1;
            }
            proof {
                assert(out@ =~= zero_point());
            }
            true
        },
    }
}

/// Whether encrypting to `keys` would reach a small-order key: every key parses
/// and one of them has small order.
pub fn keys_reach_low_order(keys: &[&str]) -> (r: bool)
    ensures
        r == reaches_low_order(str_views(keys@)),
{
    let n = keys.len();
    let ghost ks = str_views(keys@);
    let mut all_parse = true;
    let mut any_low = false;
    let mut i: usize = 0;
    while i < n
        invariant
            n == keys@.len(),
            ks == str_views(keys@),
            ks.len() == n,
            i <= n,
            all_parse == (forall|j: int| 0 <= j < i ==> age_recipient_parses(#[trigger] ks[j])),
            any_low == (exists|j: int| 0 <= j < i && low_order_recipient(#[trigger] ks[j])),
        decreases n - i,
    {
        let k = keys[i];
        proof {
            assert(ks[i as int] == k@);
        }
        if !recipient_parses(k) {
            all_parse = false;
        }
        if is_low_order_recipient(k) {
            any_low = true;
        }
        proof {
            if !any_low {
                assert forall|j: int| 0 <= j < i + 1 implies !low_order_recipient(#[trigger] ks[j]) by {
                    if j < i {
                        assert(!low_order_recipient(ks[j]));
                    }
                }
            } else {
                if low_order_recipient(ks[i as int]) {
                    assert(0 <= i < i + 1 && low_order_recipient(ks[i as int]));
                }
            }
        }
        i = i + 1;
    }
    all_parse && any_low
}

} // verus!
