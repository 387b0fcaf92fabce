//! Text helpers shared by the validators, the hex codec and the error messages.
use vstd::prelude::*;

verus! {

#[verifier::external_type_specification]
#[verifier::external_body]
pub struct ExIoError(std::io::Error);

} // verus!

verus! {

/// Whether `c` has the Unicode `White_Space` property (what `char::is_whitespace`
/// reports and what `str::trim` removes): tab to carriage return, space, next line,
/// no-break space, ogham space mark, en quad to hair space, line and paragraph
/// separators, narrow no-break space, medium mathematical space and ideographic space.
pub open spec fn unicode_white_space(c: char) -> bool {
    let u = c as u32;
    (0x9 <= u && u <= 0xD) || u == 0x20 || u == 0x85 || u == 0xA0 || u == 0x1680
        || (0x2000 <= u && u <= 0x200A) || u == 0x2028 || u == 0x2029 || u == 0x202F
        || u == 0x205F || u == 0x3000
}

/// Drops leading white space.
pub open spec fn trim_start_chars(s: Seq<char>) -> Seq<char>
    decreases s.len(),
{
    if s.len() > 0 && unicode_white_space(s[0]) {
        trim_start_chars(s.drop_first())
    } else {
        s
    }
}

/// Drops trailing white space.
pub open spec fn trim_end_chars(s: Seq<char>) -> Seq<char>
    decreases s.len(),
{
    if s.len() > 0 && unicode_white_space(s.last()) {
        trim_end_chars(s.drop_last())
    } else {
        s
    }
}

/// `s` without leading and trailing white space.
pub open spec fn trim_chars(s: Seq<char>) -> Seq<char> {
    trim_end_chars(trim_start_chars(s))
}

proof fn lemma_trim_start_edges(s: Seq<char>)
    ensures
        trim_start_chars(s).len() > 0 ==> !unicode_white_space(trim_start_chars(s)[0]),
        trim_start_chars(s).len() > 0 ==> trim_start_chars(s).last() == s.last(),
    decreases s.len(),
{
    if s.len() > 0 && unicode_white_space(s[0]) {
        lemma_trim_start_edges(s.drop_first());
    }
}

proof fn lemma_trim_end_keeps_start(s: Seq<char>)
    requires
        s.len() > 0 ==> !unicode_white_space(s[0]),
    ensures
        trim_end_chars(s).len() > 0 ==> !unicode_white_space(trim_end_chars(s).last()),
        trim_end_chars(s).len() > 0 ==> trim_end_chars(s)[0] == s[0],
        s.len() > 0 ==> trim_end_chars(s).len() > 0,
    decreases s.len(),
{
    if s.len() > 0 && unicode_white_space(s.last()) {
        lemma_trim_end_keeps_start(s.drop_last());
    }
}

/// Trimming twice is trimming once.
pub proof fn lemma_trim_idempotent(s: Seq<char>)
    ensures
        trim_chars(trim_chars(s)) == trim_chars(s),
{
    let t = trim_chars(s);
    lemma_trim_start_edges(s);
    lemma_trim_end_keeps_start(trim_start_chars(s));
    assert(trim_start_chars(t) == t);
    assert(trim_end_chars(t) == t);
}

/// `str::trim`: the slice without leading and trailing characters that have the
/// Unicode `White_Space` property, as the standard library documents it.
#[verifier::external_body]
pub(crate) fn str_trim(s: &str) -> (r: &str)
    ensures
        r@ == trim_chars(s@),
        r@.len() > 0 ==> !unicode_white_space(r@[0]) && !unicode_white_space(r@.last()),
{
    s.trim()
}

/// `String::push`: appends one character.
#[verifier::external_body]
pub(crate) fn push_char(s: &mut String, c: char)
    ensures
        final(s)@ == old(s)@.push(c),
{
    s.push(c);
}

/// The ASCII digit for a value below ten.
pub open spec fn digit_char(d: nat) -> char {
    if d == 0 { '0' } else if d == 1 { '1' } else if d == 2 { '2' } else if d == 3 { '3' }
    else if d == 4 { '4' } else if d == 5 { '5' } else if d == 6 { '6' } else if d == 7 { '7' }
    else if d == 8 { '8' } else { '9' }
}

/// The decimal notation of `n`, without leading zeros.
pub open spec fn decimal(n: nat) -> Seq<char>
    decreases n,
{
    if n < 10 {
        seq![digit_char(n)]
    } else {
        decimal(n / 10).push(digit_char(n % 10))
    }
}

fn digit_to_char(d: u8) -> (c: char)
    requires
        d < 10,
    ensures
        c == digit_char(d as nat),
{
    if d == 0 { '0' } else if d == 1 { '1' } else if d == 2 { '2' } else if d == 3 { '3' }
    else if d == 4 { '4' } else if d == 5 { '5' } else if d == 6 { '6' } else if d == 7 { '7' }
    else if d == 8 { '8' } else { '9' }
}

/// Appends the decimal notation of `n`.
pub fn push_decimal(s: &mut String, n: u64)
    ensures
        final(s)@ == old(s)@ + decimal(n as nat),
    decreases n,
{
    if n >= 10 {
        push_decimal(s, n / 10);
    }
    let d: u8 = (n % 10) as u8;
    push_char(s, digit_to_char(d));
    proof {
        assert(final(s)@ =~= old(s)@ + decimal(n as nat));
    }
}

/// The number of bytes of the UTF-8 encoding of `s`.
pub open spec fn utf8_len(s: Seq<char>) -> nat {
    vstd::utf8::encode_utf8(s).len()
}

/// The UTF-8 length of a concatenation is the sum of the lengths.
pub proof fn lemma_utf8_len_concat(a: Seq<char>, b: Seq<char>)
    ensures
        utf8_len(a + b) == utf8_len(a) + utf8_len(b),
    decreases a.len(),
{
    if a.len() == 0 {
        assert(a + b =~= b);
    } else {
        assert((a + b).drop_first() =~= a.drop_first() + b);
        lemma_utf8_len_concat(a.drop_first(), b);
    }
}

/// A character takes one to four bytes in UTF-8.
pub proof fn lemma_utf8_len_bound(s: Seq<char>)
    ensures
        s.len() <= utf8_len(s) <= 4 * s.len(),
    decreases s.len(),
{
    if s.len() > 0 {
        lemma_utf8_len_bound(s.drop_first());
        assert(vstd::utf8::encode_utf8(s) == vstd::utf8::encode_scalar(s[0] as u32)
            + vstd::utf8::encode_utf8(s.drop_first()));
    }
}

/// `str::len`, read through the byte view: the UTF-8 length of `s`.
pub fn byte_len(s: &str) -> (n: usize)
    ensures
        n == utf8_len(s@),
{
    s.as_bytes().len()
}

/// Whether `c` has the Unicode `Alphabetic` property (what `char::is_alphabetic` reports).
pub uninterp spec fn unicode_alphabetic(c: char) -> bool;

/// Whether `c` is in a Unicode numeric general category (what `char::is_numeric` reports).
pub uninterp spec fn unicode_numeric(c: char) -> bool;

/// `char::is_alphabetic`; the ASCII letters are alphabetic.
#[verifier::external_body]
pub(crate) fn char_is_alphabetic(c: char) -> (r: bool)
    ensures
        r == unicode_alphabetic(c),
        ('a' <= c <= 'z' || 'A' <= c <= 'Z') ==> r,
{
    c.is_alphabetic()
}

/// `char::is_numeric`; the ASCII digits are numeric.
#[verifier::external_body]
pub(crate) fn char_is_numeric(c: char) -> (r: bool)
    ensures
        r == unicode_numeric(c),
        '0' <= c <= '9' ==> r,
{
    c.is_numeric()
}

/// `char::is_alphanumeric`, which the standard library documents as
/// `is_alphabetic() || is_numeric()`.
#[verifier::external_body]
pub(crate) fn char_is_alphanumeric(c: char) -> (r: bool)
    ensures
        r == (unicode_alphabetic(c) || unicode_numeric(c)),
        ('a' <= c <= 'z' || 'A' <= c <= 'Z' || '0' <= c <= '9') ==> r,
{
    c.is_alphanumeric()
}

/// `std::str::from_utf8`: the text that the bytes encode when they are valid UTF-8.
#[verifier::external_body]
pub(crate) fn utf8_text(bytes: &[u8]) -> (r: Option<&str>)
    ensures
        r is Some <==> vstd::utf8::valid_utf8(bytes@),
        r matches Some(s) ==> s@ == vstd::utf8::decode_utf8(bytes@),
{
    std::str::from_utf8(bytes).ok()
}

/// The text that `{:?}` prints for a list of strings.
pub uninterp spec fn debug_text_of_list(items: Seq<Seq<char>>) -> Seq<char>;

/// The text that `{:?}` prints for an optional string.
pub uninterp spec fn debug_text_of_option(item: Option<Seq<char>>) -> Seq<char>;

/// The views of a list of strings.
pub open spec fn string_views(v: Seq<String>) -> Seq<Seq<char>> {
    v.map_values(|s: String| s@)
}

/// The view of an optional string.
pub open spec fn option_string_view(o: Option<String>) -> Option<Seq<char>> {
    match o {
        Some(s) => Some(s@),
        None => None,
    }
}

/// `<Vec<String> as Debug>::fmt`: the bracketed, quoted and escaped list.
#[verifier::external_body]
pub(crate) fn debug_list(items: &Vec<String>) -> (r: String)
    ensures
        r@ == debug_text_of_list(string_views(items@)),
{
    format!("{:?}", items)
}

/// `<Option<String> as Debug>::fmt`: `None`, or `Some(..)` around the quoted, escaped string.
#[verifier::external_body]
pub(crate) fn debug_option(item: &Option<String>) -> (r: String)
    ensures
        r@ == debug_text_of_option(option_string_view(*item)),
{
    format!("{:?}", item)
}

/// `<std::io::Error as Display>::fmt`.  What it prints depends on the error's
/// kind and payload, which are opaque here, so nothing is stated of the text.
#[verifier::external_body]
pub(crate) fn io_error_text(e: &std::io::Error) -> (r: String) {
    e.to_string()
}

} // verus!
