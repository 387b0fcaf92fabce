//! The data types of the keyring: fingerprints, user identifiers, identities
//! and metadata, together with the name and email rules.
use vstd::prelude::*;
use crate::handler::error::AgeCredentialsError;
use crate::secret::SecretText;
use crate::text::{byte_len, char_is_alphabetic, char_is_alphanumeric, char_is_numeric, decimal, push_char, push_decimal, str_trim, trim_chars, unicode_alphabetic, unicode_numeric, utf8_len};

verus! {

/// An ASCII hexadecimal digit (`0-9`, `a-f`, `A-F`).
pub open spec fn is_hex_digit(c: char) -> bool {
    ('0' <= c && c <= '9') || ('a' <= c && c <= 'f') || ('A' <= c && c <= 'F')
}

/// Text that a fingerprint may hold: non-empty and made of hexadecimal digits only.
pub open spec fn is_fingerprint_text(s: Seq<char>) -> bool {
    s.len() > 0 && forall|i: int| 0 <= i < s.len() ==> is_hex_digit(#[trigger] s[i])
}

/// `char::is_ascii_hexdigit`.
pub fn is_ascii_hex_digit(c: char) -> (r: bool)
    ensures
        r == is_hex_digit(c),
{
    ('0' <= c && c <= '9') || ('a' <= c && c <= 'f') || ('A' <= c && c <= 'F')
}

/// Whether every character of `s` is a hexadecimal digit.
pub fn all_hex_digits(s: &str) -> (r: bool)
    ensures
        r == (forall|i: int| 0 <= i < s@.len() ==> is_hex_digit(#[trigger] s@[i])),
{
    let n = s.unicode_len();
    let mut i: usize = 0;
    while i < n
        invariant
            n == s@.len(),
            i <= n,
            forall|j: int| 0 <= j < i ==> is_hex_digit(#[trigger] s@[j]),
        decreases n - i,
    {
        let c = s.get_char(i);
        if !is_ascii_hex_digit(c) {
            return false;
        }
        i = i + 1;
    }
    true
}

/// The first index at or after `i` whose character is not allowed in a name,
/// or the length of `s` when there is none.
pub open spec fn first_non_name_char(s: Seq<char>, i: nat) -> nat
    decreases s.len() - i,
{
    if i >= s.len() {
        s.len()
    } else if !is_name_char(s[i as int]) {
        i
    } else {
        first_non_name_char(s, i + 1)
    }
}

/// The first index at or after `i` whose character is not allowed in an email
/// address, or the length of `s` when there is none.
pub open spec fn first_non_email_char(s: Seq<char>, i: nat) -> nat
    decreases s.len() - i,
{
    if i >= s.len() {
        s.len()
    } else if !is_email_char(s[i as int]) {
        i
    } else {
        first_non_email_char(s, i + 1)
    }
}

/// An ASCII letter or digit, which Unicode counts as alphabetic or numeric.
pub open spec fn is_ascii_alphanumeric(c: char) -> bool {
    ('a' <= c <= 'z') || ('A' <= c <= 'Z') || ('0' <= c <= '9')
}

/// A character allowed in a user name: a letter or digit (ASCII or other Unicode),
/// a space, a hyphen, an apostrophe or a dot.
pub open spec fn is_name_char(c: char) -> bool {
    is_ascii_alphanumeric(c) || unicode_alphabetic(c) || unicode_numeric(c) || c == ' ' || c
        == '-' || c == '\'' || c == '.'
}

/// A character allowed in an email address: a letter or digit (ASCII or other
/// Unicode), `.`, `-`, `_`, `@` or `+`.
pub open spec fn is_email_char(c: char) -> bool {
    is_ascii_alphanumeric(c) || unicode_alphabetic(c) || unicode_numeric(c) || c == '.' || c
        == '-' || c == '_' || c == '@' || c == '+'
}

/// The message for the character at index `k` of `t`, which is not allowed;
/// its position counts bytes from one.
pub open spec fn invalid_char_reason(t: Seq<char>, k: int, tail: Seq<char>) -> Seq<char> {
    "Invalid character '"@ + seq![t[k]] + "' at position "@ + decimal(utf8_len(t.take(k)) + 1)
        + tail
}

/// Why `name` is refused as a user name, or `None` when it is accepted.
/// Lengths count the characters of the trimmed name.
pub open spec fn name_rejection(name: Seq<char>) -> Option<Seq<char>> {
    let t = trim_chars(name);
    let n = t.len();
    let k = first_non_name_char(t, 0);
    if t.len() == 0 {
        Some("Name cannot be empty"@)
    } else if n < 2 {
        Some("Name too short: "@ + decimal(n) + " chars, minimum 2"@)
    } else if n > 255 {
        Some("Name too long: "@ + decimal(n) + " chars, maximum 255"@)
    } else if k < t.len() {
        Some(invalid_char_reason(t, k as int, " in name"@))
    } else {
        None
    }
}

/// The number of occurrences of `c` in `s`.
pub open spec fn count_char(s: Seq<char>, c: char) -> nat
    decreases s.len(),
{
    if s.len() == 0 {
        0
    } else {
        count_char(s.drop_last(), c) + if s.last() == c { 1nat } else { 0nat }
    }
}

/// Why `email` is refused as an email address, or `None` when it is accepted.
pub open spec fn email_rejection(email: Seq<char>) -> Option<Seq<char>> {
    let t = trim_chars(email);
    let n = t.len();
    let k = first_non_email_char(t, 0);
    if t.len() == 0 {
        Some("Email cannot be empty"@)
    } else if n > 254 {
        Some("Email too long: "@ + decimal(n) + " chars, maximum 254"@)
    } else if count_char(t, '@') != 1 {
        Some("Email must contain exactly one '@'"@)
    } else if t[0] == '@' || t.last() == '@' {
        Some("Email local part or domain is empty"@)
    } else if k < t.len() {
        Some(invalid_char_reason(t, k as int, " in email"@))
    } else {
        None
    }
}

/// The outcome that the name and email rules give: `Ok` exactly when there
/// is no reason to refuse, otherwise `InvalidUserId` carrying the reason.
pub open spec fn user_id_outcome(
    r: Result<(), AgeCredentialsError>,
    rejection: Option<Seq<char>>,
) -> bool {
    match rejection {
        None => r is Ok,
        Some(reason) => r matches Err(AgeCredentialsError::InvalidUserId { reason: got })
            && got@ == reason,
    }
}

fn invalid_char_message(t: &str, k: usize, tail: &str) -> (r: String)
    requires
        k < t@.len(),
        t@.len() <= 255,
    ensures
        r@ == invalid_char_reason(t@, k as int, tail@),
{
    let mut s = String::new();
    s.append("Invalid character '");
    push_char(&mut s, t.get_char(k));
    s.append("' at position ");
    let prefix = t.substring_char(0, k);
    let pos = byte_len(prefix);
    proof {
        crate::text::lemma_utf8_len_bound(t@);
        assert(prefix@ =~= t@.take(k as int));
        assert(utf8_len(t@) == utf8_len(t@.take(k as int)) + utf8_len(t@.skip(k as int))) by {
            assert(t@ =~= t@.take(k as int) + t@.skip(k as int));
            crate::text::lemma_utf8_len_concat(t@.take(k as int), t@.skip(k as int));
        }
    }
    push_decimal(&mut s, pos as u64 + 1);
    s.append(tail);
    proof {
        assert(s@ =~= invalid_char_reason(t@, k as int, tail@));
    }
    s
}

/// The view of an optional text.
pub open spec fn option_text(o: Option<String>) -> Option<Seq<char>> {
    match o {
        Some(s) => Some(s@),
        None => None,
    }
}

fn validate_user_name_internal(name: &str) -> (r: Result<(), AgeCredentialsError>)
    ensures
        user_id_outcome(r, name_rejection(name@)),
{
    match user_name_problem(name) {
        None => Ok(()),
        Some(reason) => Err(AgeCredentialsError::InvalidUserId { reason }),
    }
}

fn validate_user_email_internal(email: &str) -> (r: Result<(), AgeCredentialsError>)
    ensures
        user_id_outcome(r, email_rejection(email@)),
{
    match user_email_problem(email) {
        None => Ok(()),
        Some(reason) => Err(AgeCredentialsError::InvalidUserId { reason }),
    }
}

/// Why `name` is refused as a user name, or `None` when it is accepted.
pub fn user_name_problem(name: &str) -> (r: Option<String>)
    ensures
        option_text(r) == name_rejection(name@),
{
    let trimmed = str_trim(name);
    let n = trimmed.unicode_len();
    if trimmed.unicode_len() == 0 {
        return Some("Name cannot be empty".to_owned());
    }
    if n < 2 {
        let mut s = "Name too short: ".to_owned();
        push_decimal(&mut s, n as u64);
        s.append(" chars, minimum 2");
        return Some(s);
    }
    if n > 255 {
        let mut s = "Name too long: ".to_owned();
        push_decimal(&mut s, n as u64);
        s.append(" chars, maximum 255");
        return Some(s);
    }
    let len = trimmed.unicode_len();
    let ghost t = trimmed@;
    let mut i: usize = 0;
    while i < len
        invariant
            len == t.len(),
            t == trimmed@,
            i <= len,
            2 <= t.len() <= 255,
            t == trim_chars(name@),
            first_non_name_char(t, 0) == first_non_name_char(t, i as nat),
        decreases len - i,
    {
        let c = trimmed.get_char(i);
        let valid = char_is_alphabetic(c) || char_is_numeric(c) || c == ' ' || c == '-' || c
            == '\'' || c == '.';
        if !valid {
            return Some(invalid_char_message(trimmed, i, " in name"));
        }
        i = i + 1;
    }
    None
}

/// Why `email` is refused as an email address, or `None` when it is accepted.
pub fn user_email_problem(email: &str) -> (r: Option<String>)
    ensures
        option_text(r) == email_rejection(email@),
{
    let trimmed = str_trim(email);
    let len = trimmed.unicode_len();
    if len == 0 {
        return Some("Email cannot be empty".to_owned());
    }
    let n = len;
    if n > 254 {
        let mut s = "Email too long: ".to_owned();
        push_decimal(&mut s, n as u64);
        s.append(" chars, maximum 254");
        return Some(s);
    }
    let ghost t = trimmed@;
    let mut at_count: usize = 0;
    let mut i: usize = 0;
    while i < len
        invariant
            len == t.len(),
            t == trimmed@,
            i <= len,
            at_count == count_char(t.take(i as int), '@'),
            at_count <= i,
        decreases len - i,
    {
        let c = trimmed.get_char(i);
        proof {
            assert(t.take(i + 1).drop_last() =~= t.take(i as int));
        }
        if c == '@' {
            at_count = at_count + 1;
        }
        i = i + 1;
    }
    proof {
        assert(t.take(len as int) =~= t);
    }
    if at_count != 1 {
        return Some("Email must contain exactly one '@'".to_owned());
    }
    if trimmed.get_char(0) == '@' || trimmed.get_char(len - 1) == '@' {
        return Some("Email local part or domain is empty".to_owned());
    }
    let mut i: usize = 0;
    while i < len
        invariant
            len == t.len(),
            t == trimmed@,
            i <= len,
            t.len() <= 254,
            t == trim_chars(email@),
            count_char(t, '@') == 1,
            t[0] != '@' && t.last() != '@',
            first_non_email_char(t, 0) == first_non_email_char(t, i as nat),
        decreases len - i,
    {
        let c = trimmed.get_char(i);
        let valid = char_is_alphanumeric(c) || c == '.' || c == '-' || c == '_' || c == '@' || c
            == '+';
        if !valid {
            return Some(invalid_char_message(trimmed, i, " in email"));
        }
        i = i + 1;
    }
    None
}

/// Checks a user name: after trimming it must be 2 to 255 characters long and made of
/// letters, digits, spaces, hyphens, apostrophes and dots.
pub fn validate_user_name(name: &str) -> (r: Result<(), AgeCredentialsError>)
    ensures
        user_id_outcome(r, name_rejection(name@)),
{
    validate_user_name_internal(name)
}

/// Checks an email address: after trimming it must be non-empty, at most 254 characters,
/// hold exactly one `@` with text on both sides, and be made of letters, digits,
/// `.`, `-`, `_`, `+` and `@`.
pub fn validate_user_email(email: &str) -> (r: Result<(), AgeCredentialsError>)
    ensures
        user_id_outcome(r, email_rejection(email@)),
{
    validate_user_email_internal(email)
}

/// The name and email rules look at the trimmed text only, so the trimmed values
/// that `UserID::new` keeps pass the rules again.
pub proof fn lemma_user_id_rules_stable(name: Seq<char>, email: Seq<char>)
    requires
        user_id_rejection(name, email) is None,
    ensures
        user_id_rejection(trim_chars(name), trim_chars(email)) is None,
        name_rejection(trim_chars(name)) == name_rejection(name),
        email_rejection(trim_chars(email)) == email_rejection(email),
{
    crate::text::lemma_trim_idempotent(name);
    crate::text::lemma_trim_idempotent(email);
}

/// A cryptographic fingerprint: a non-empty string of hexadecimal digits that
/// identifies an identity.
#[derive(Debug, PartialEq, Eq, Hash)]
pub struct Fingerprint(String);

impl View for Fingerprint {
    type V = Seq<char>;

    closed spec fn view(&self) -> Seq<char> {
        self.0@
    }
}

impl Fingerprint {
    #[verifier::type_invariant]
    spec fn holds_hex(self) -> bool {
        is_fingerprint_text(self.0@)
    }

    /// Accepts `hex` when it is non-empty and made of hexadecimal digits only.
    pub fn new(hex: &str) -> (r: std::result::Result<Self, AgeCredentialsError>)
        ensures
            r is Ok <==> is_fingerprint_text(hex@),
            r matches Ok(fp) ==> fp@ == hex@,
            r matches Err(e) ==> (e matches AgeCredentialsError::InvalidFingerprint { reason }
                && reason@ == "must be non-empty hexadecimal"@),
    {
        if hex.unicode_len() == 0 || !all_hex_digits(hex) {
            return Err(
                AgeCredentialsError::InvalidFingerprint {
                    reason: "must be non-empty hexadecimal".to_owned(),
                },
            );
        }
        Ok(Fingerprint(hex.to_owned()))
    }

    /// The fingerprint as text, which is always non-empty hexadecimal.
    pub fn to_string(&self) -> (r: String)
        ensures
            r@ == self@,
            is_fingerprint_text(r@),
    {
        proof {
            use_type_invariant(self);
        }
        self.0.clone()
    }
}

impl Clone for Fingerprint {
    fn clone(&self) -> (r: Self)
        ensures
            r@ == self@,
    {
        proof {
            use_type_invariant(self);
        }
        Fingerprint(self.0.clone())
    }
}

/// A user: a name and an email address, both trimmed and validated.
#[derive(Debug, PartialEq, Eq)]
pub struct UserID {
    /// The full name of the user.
    pub name: String,
    /// The email address of the user.
    pub email: String,
}

impl Clone for UserID {
    fn clone(&self) -> (r: Self)
        ensures
            r == *self,
    {
        UserID { name: self.name.clone(), email: self.email.clone() }
    }
}

/// The message for a user that is refused: the name's reason first, else the email's.
pub open spec fn user_id_rejection(name: Seq<char>, email: Seq<char>) -> Option<Seq<char>> {
    match name_rejection(name) {
        Some(reason) => Some(reason),
        None => email_rejection(email),
    }
}

impl UserID {
    /// Validates the name and the email, and keeps both trimmed.
    pub fn new(name: &str, email: &str) -> (r: std::result::Result<Self, AgeCredentialsError>)
        ensures
            r is Ok <==> user_id_rejection(name@, email@) is None,
            r matches Ok(u) ==> u.name@ == trim_chars(name@) && u.email@ == trim_chars(email@),
            r matches Err(e) ==> (e matches AgeCredentialsError::InvalidUserId { reason }
                && Some(reason@) == user_id_rejection(name@, email@)),
    {
        match validate_user_name_internal(name) {
            Ok(()) => {},
            Err(e) => {
                return Err(e);
            },
        }
        match validate_user_email_internal(email) {
            Ok(()) => {},
            Err(e) => {
                return Err(e);
            },
        }
        Ok(UserID { name: str_trim(name).to_owned(), email: str_trim(email).to_owned() })
    }

    /// The user as `Name <email>`.
    pub fn to_formatted(&self) -> (r: String)
        ensures
            r@ == self.name@ + " <"@ + self.email@ + ">"@,
    {
        let mut s = self.name.clone();
        s.append(" <");
        s.append(self.email.as_str());
        s.append(">");
        s
    }
}

/// An identity of the keyring: its fingerprint, its user, an optional label,
/// where its key files are, and when it was created (seconds since the epoch).
#[derive(Debug)]
pub struct Identity {
    pub fingerprint: Fingerprint,
    pub user_id: UserID,
    pub label: Option<String>,
    pub private_key_path: String,
    pub public_key_path: String,
    pub created_at: i64,
}

impl Clone for Identity {
    fn clone(&self) -> (r: Self)
        ensures
            r.fingerprint@ == self.fingerprint@,
            r.user_id == self.user_id,
            r.label == self.label,
            r.private_key_path == self.private_key_path,
            r.public_key_path == self.public_key_path,
            r.created_at == self.created_at,
    {
        Identity {
            fingerprint: self.fingerprint.clone(),
            user_id: self.user_id.clone(),
            label: match &self.label {
                Some(l) => Some(l.clone()),
                None => None,
            },
            private_key_path: self.private_key_path.clone(),
            public_key_path: self.public_key_path.clone(),
            created_at: self.created_at,
        }
    }
}

/// The whole metadata of a keyring: its identities and, optionally, the
/// fingerprint of the default one.
#[derive(Debug)]
pub struct Metadata {
    /// The identities of the keyring.
    pub identities: Vec<Identity>,
    /// The fingerprint of the default identity, if any.
    pub default_identity: Option<Fingerprint>,
}

impl Default for Metadata {
    fn default() -> (r: Self)
        ensures
            r.identities@.len() == 0,
            r.default_identity is None,
    {
        Metadata { identities: Vec::new(), default_identity: None }
    }
}

/// A freshly generated key pair: the age public key, and the secret key in a
/// buffer that is zeroed when dropped.
#[derive(Debug)]
pub struct KeyGenData {
    pub public_key: String,
    pub secret_key: SecretText,
}

impl Clone for KeyGenData {
    fn clone(&self) -> (r: Self)
        ensures
            r.public_key@ == self.public_key@,
            r.secret_key@ == self.secret_key@,
    {
        KeyGenData { public_key: self.public_key.clone(), secret_key: self.secret_key.clone() }
    }
}

} // verus!
