//! Hexadecimal encoding and decoding.
use vstd::prelude::*;
use crate::handler::error::{AgeCredentialsError, Result};
use crate::text::{byte_len, decimal, push_char, push_decimal, str_trim, trim_chars};

verus! {

/// The lower-case hexadecimal digit for a value below sixteen.
pub open spec fn hex_digit_lower(d: nat) -> char {
    if d < 10 {
        ((d + 48) as u8) as char
    } else {
        ((d + 87) as u8) as char
    }
}

/// Each byte as two lower-case hexadecimal digits, high nibble first.
pub open spec fn hex_text(data: Seq<u8>) -> Seq<char> {
    Seq::new(
        2 * data.len(),
        |i: int|
            if i % 2 == 0 {
                hex_digit_lower((data[i / 2] / 16) as nat)
            } else {
                hex_digit_lower((data[i / 2] % 16) as nat)
            },
    )
}

/// The value of an ASCII hexadecimal digit, either case.
pub open spec fn hex_value(c: u8) -> Option<u8> {
    if 48 <= c <= 57 {
        Some((c - 48) as u8)
    } else if 97 <= c <= 102 {
        Some((c - 87) as u8)
    } else if 65 <= c <= 70 {
        Some((c - 55) as u8)
    } else {
        None
    }
}

/// The first index at or after `i` that is not a hexadecimal digit, or the length.
pub open spec fn first_non_hex(b: Seq<u8>, i: nat) -> nat
    decreases b.len() - i,
{
    if i >= b.len() {
        b.len()
    } else if hex_value(b[i as int]) is None {
        i
    } else {
        first_non_hex(b, i + 1)
    }
}

/// The bytes that pairs of hexadecimal digits stand for.
pub open spec fn hex_pairs_value(b: Seq<u8>) -> Seq<u8> {
    Seq::new(
        b.len() / 2,
        |i: int| (hex_value(b[2 * i])->0 * 16 + hex_value(b[2 * i + 1])->0) as u8,
    )
}

/// The UTF-8 bytes of the trimmed input, which the decoder reads.
pub open spec fn hex_input_bytes(hex: Seq<char>) -> Seq<u8> {
    vstd::utf8::encode_utf8(trim_chars(hex))
}

/// Why a text is not hexadecimal: it is empty after trimming, its byte length
/// is odd, or the byte at a position is not a hexadecimal digit.
#[derive(Debug, Clone, Copy, PartialEq, Eq)]
pub enum HexFault {
    Empty,
    OddLength(usize),
    BadDigit(u8, usize),
}

/// How the decoder reads `hex`: the bytes it stands for, or the first fault.
pub open spec fn hex_scan(hex: Seq<char>) -> std::result::Result<Seq<u8>, HexFault> {
    let b = hex_input_bytes(hex);
    let k = first_non_hex(b, 0);
    if trim_chars(hex).len() == 0 {
        Err(HexFault::Empty)
    } else if b.len() % 2 == 1 {
        Err(HexFault::OddLength(b.len() as usize))
    } else if k < b.len() {
        Err(HexFault::BadDigit(b[k as int], k as usize))
    } else {
        Ok(hex_pairs_value(b))
    }
}

/// The decoder reads only the trimmed text: trimming first changes nothing.
pub proof fn lemma_hex_scan_trimmed(hex: Seq<char>)
    ensures
        hex_scan(trim_chars(hex)) == hex_scan(hex),
{
    crate::text::lemma_trim_idempotent(hex);
}

/// The details text for a fault, with or without the position of a bad digit.
pub open spec fn hex_fault_details(f: HexFault, with_position: bool) -> Seq<char> {
    match f {
        HexFault::Empty => "Input string is empty"@,
        HexFault::OddLength(n) => "Input length "@ + decimal(n as nat) + " is odd, must be even"@,
        HexFault::BadDigit(c, k) => if with_position {
            "Invalid hex character '"@ + seq![c as char] + "' at position "@ + decimal(k as nat)
        } else {
            "Invalid hex character '"@ + seq![c as char] + "'"@
        },
    }
}

/// What `hex_decode` answers: the decoded bytes, or the `InvalidData` details.
pub open spec fn hex_decode_outcome(hex: Seq<char>) -> std::result::Result<Seq<u8>, Seq<char>> {
    match hex_scan(hex) {
        Ok(b) => Ok(b),
        Err(f) => Err(hex_fault_details(f, true)),
    }
}

/// The details text for a fault, with or without the position of a bad digit.
pub fn hex_fault_text(f: HexFault, with_position: bool) -> (r: String)
    ensures
        r@ == hex_fault_details(f, with_position),
{
    match f {
        HexFault::Empty => "Input string is empty".to_owned(),
        HexFault::OddLength(n) => {
            let mut s = "Input length ".to_owned();
            push_decimal(&mut s, n as u64);
            s.append(" is odd, must be even");
            s
        },
        HexFault::BadDigit(c, k) => {
            let mut s = "Invalid hex character '".to_owned();
            push_char(&mut s, c as char);
            if with_position {
                s.append("' at position ");
                push_decimal(&mut s, k as u64);
            } else {
                s.append("'");
            }
            s
        },
    }
}

fn hex_digit_char(d: u8) -> (c: char)
    requires
        d < 16,
    ensures
        c == hex_digit_lower(d as nat),
{
    if d < 10 {
        (d + 48) as char
    } else {
        (d + 87) as char
    }
}

/// Encodes bytes as lower-case hexadecimal, two digits per byte.
pub fn hex_encode(data: &[u8]) -> (r: String)
    ensures
        r@ == hex_text(data@),
{
    let mut s = String::new();
    let n = data.len();
    let mut i: usize = 0;
    while i < n
        invariant
            n == data@.len(),
            i <= n,
            s@ == hex_text(data@.take(i as int)),
        decreases n - i,
    {
        let byte = data[i];
        push_char(&mut s, hex_digit_char(byte / 16));
        push_char(&mut s, hex_digit_char(byte % 16));
        proof {
            assert(s@ =~= hex_text(data@.take(i + 1)));
        }
        i = i + 1;
    }
    proof {
        assert(data@.take(n as int) =~= data@);
    }
    s
}

fn hex_char_to_val(c: u8) -> (r: std::result::Result<u8, ()>)
    ensures
        r matches Ok(v) ==> hex_value(c) == Some(v),
        r is Err ==> hex_value(c) is None,
{
    if 48 <= c && c <= 57 {
        Ok(c - 48)
    } else if 97 <= c && c <= 102 {
        Ok(c - 87)
    } else if 65 <= c && c <= 70 {
        Ok(c - 55)
    } else {
        Err(())
    }
}

/// Reads trimmed hexadecimal text (either case) as bytes, or reports the first fault.
pub fn scan_hex(hex: &str) -> (r: std::result::Result<Vec<u8>, HexFault>)
    ensures
        match hex_scan(hex@) {
            Ok(bytes) => r matches Ok(v) && v@ == bytes,
            Err(f) => r == Err::<Vec<u8>, HexFault>(f),
        },
{
    let t = str_trim(hex);
    if t.unicode_len() == 0 {
        return Err(HexFault::Empty);
    }
    let b = t.as_bytes();
    let n = b.len();
    if n % 2 == 1 {
        return Err(HexFault::OddLength(n));
    }
    let ghost bs = b@;
    let mut bytes: Vec<u8> = Vec::new();
    let mut i: usize = 0;
    while i < n / 2
        invariant
            bs == b@,
            bs == hex_input_bytes(hex@),
            n == bs.len(),
            n % 2 == 0,
            trim_chars(hex@).len() != 0,
            i <= n / 2,
            first_non_hex(bs, 0) == first_non_hex(bs, 2 * i as nat),
            bytes@ =~= hex_pairs_value(bs.take(2 * i as int)),
        decreases n / 2 - i,
    {
        let high = match hex_char_to_val(b[2 * i]) {
            Ok(v) => v,
            Err(()) => {
                return Err(HexFault::BadDigit(b[2 * i], 2 * i));
            },
        };
        assert(first_non_hex(bs, 2 * i as nat) == first_non_hex(bs, (2 * i + 1) as nat));
        let low = match hex_char_to_val(b[2 * i + 1]) {
            Ok(v) => v,
            Err(()) => {
                return Err(HexFault::BadDigit(b[2 * i + 1], 2 * i + 1));
            },
        };
        assert(high < 16 && low < 16);
        assert(first_non_hex(bs, (2 * i + 1) as nat) == first_non_hex(bs, (2 * i + 2) as nat));
        bytes.push(high * 16 + low);
        proof {
            assert(bytes@ =~= hex_pairs_value(bs.take(2 * i + 2)));
        }
        i = i + 1;
    }
    proof {
        assert(bs.take(n as int) =~= bs);
    }
    Ok(bytes)
}

/// Decodes hexadecimal text (either case) into bytes after trimming white space.
/// The trimmed input must be non-empty, have an even number of bytes and hold
/// hexadecimal digits only; otherwise the answer is `InvalidData` in "hex decode"
/// with the reason.
pub fn hex_decode(hex: &str) -> (r: Result<Vec<u8>>)
    ensures
        match hex_decode_outcome(hex@) {
            Ok(bytes) => r matches Ok(v) && v@ == bytes,
            Err(details) => r matches Err(AgeCredentialsError::InvalidData { context, details: d })
                && context@ == "hex decode"@ && d@ == details,
        },
{
    match scan_hex(hex) {
        Ok(v) => Ok(v),
        Err(f) => Err(
            AgeCredentialsError::InvalidData { context: "hex decode", details: hex_fault_text(f, true) },
        ),
    }
}

proof fn lemma_first_non_hex_none(b: Seq<u8>, i: nat)
    requires
        forall|j: int| i <= j < b.len() ==> hex_value(#[trigger] b[j]) is Some,
    ensures
        first_non_hex(b, i) == b.len(),
    decreases b.len() - i,
{
    if i < b.len() {
        lemma_first_non_hex_none(b, i + 1);
    }
}

proof fn lemma_hex_digit_value(d: nat)
    requires
        d < 16,
    ensures
        hex_value(hex_digit_lower(d) as u8) == Some(d as u8),
        '\0' <= hex_digit_lower(d) <= '\u{7f}',
        !crate::text::unicode_white_space(hex_digit_lower(d)),
{
}

/// Decoding the text that `hex_encode` makes of non-empty bytes gives those bytes back.
pub proof fn lemma_hex_decode_encode(data: Seq<u8>)
    requires
        data.len() > 0,
    ensures
        hex_decode_outcome(hex_text(data)) == Ok::<Seq<u8>, Seq<char>>(data),
{
    let s = hex_text(data);
    assert forall|i: int| 0 <= i < s.len() implies ('\0' <= #[trigger] s[i] <= '\u{7f}'
        && hex_value(s[i] as u8) is Some && !crate::text::unicode_white_space(s[i])) by {
        lemma_hex_digit_value((data[i / 2] / 16) as nat);
        lemma_hex_digit_value((data[i / 2] % 16) as nat);
    }
    assert(trim_chars(s) == s) by {
        assert(crate::text::trim_start_chars(s) == s);
        assert(crate::text::trim_end_chars(s) == s);
    }
    let b = vstd::utf8::encode_utf8(s);
    vstd::utf8::is_ascii_chars_encode_utf8(s);
    assert(b.len() == s.len());
    assert forall|j: int| 0 <= j < b.len() implies hex_value(#[trigger] b[j]) is Some by {
        assert(s[j] as u8 == b[j]);
    }
    lemma_first_non_hex_none(b, 0);
    assert forall|i: int| 0 <= i < data.len() implies #[trigger] hex_pairs_value(b)[i] == data[i] by {
        let hi = (data[i] / 16) as nat;
        let lo = (data[i] % 16) as nat;
        lemma_hex_digit_value(hi);
        lemma_hex_digit_value(lo);
        assert(s[2 * i] == hex_digit_lower(hi));
        assert(s[2 * i + 1] == hex_digit_lower(lo));
        assert(s[2 * i] as u8 == b[2 * i]);
        assert(s[2 * i + 1] as u8 == b[2 * i + 1]);
        assert(hi * 16 + lo == data[i]);
    }
    assert(hex_pairs_value(b) =~= data);
}

/// The hexadecimal text of non-empty bytes is a valid fingerprint.
pub proof fn lemma_hex_text_is_fingerprint(data: Seq<u8>)
    requires
        data.len() > 0,
    ensures
        crate::handler::types::is_fingerprint_text(hex_text(data)),
{
    let s = hex_text(data);
    assert forall|i: int| 0 <= i < s.len() implies crate::handler::types::is_hex_digit(
        #[trigger] s[i],
    ) by {
        let d = if i % 2 == 0 { (data[i / 2] / 16) as nat } else { (data[i / 2] % 16) as nat };
        assert(s[i] == hex_digit_lower(d));
    }
}

/// A character with ASCII upper-case letters mapped to lower case.
pub open spec fn ascii_lower(c: char) -> char {
    if 'A' <= c <= 'Z' {
        ((c as u32) + 32) as char
    } else {
        c
    }
}

proof fn lemma_char_below_128(d: char)
    requires
        (d as u32) <= 0x7F,
    ensures
        '\0' <= d <= '\u{7f}',
{
    vstd::utf8::char_u32_cast(d, d as u32);
}

proof fn lemma_ascii_bytes_ascii_chars(t: Seq<char>)
    requires
        forall|j: int|
            0 <= j < vstd::utf8::encode_utf8(t).len() ==> #[trigger] vstd::utf8::encode_utf8(t)[j]
                < 128,
    ensures
        vstd::utf8::is_ascii_chars(t),
    decreases t.len(),
{
    if t.len() > 0 {
        let c = t[0] as u32;
        let e = vstd::utf8::encode_scalar(c);
        assert(vstd::utf8::encode_utf8(t) == e + vstd::utf8::encode_utf8(t.drop_first()));
        assert(vstd::utf8::encode_utf8(t)[0] == e[0]);
        if !vstd::utf8::has_width_1_encoding(c) {
            assert(e[0] >= 0xC0) by {
                let x = c;
                assert((0xC0 | ((x >> 6) & 0x1F) as u8) >= 0xC0u8) by (bit_vector);
                assert((0xE0 | ((x >> 12) & 0x0F) as u8) >= 0xC0u8) by (bit_vector);
                assert((0xF0 | ((x >> 18) & 0x7) as u8) >= 0xC0u8) by (bit_vector);
            }
            assert(false);
        }
        let rest = t.drop_first();
        assert forall|j: int| 0 <= j < vstd::utf8::encode_utf8(rest).len() implies #[trigger] vstd::utf8::encode_utf8(rest)[j] < 128 by {
            assert(vstd::utf8::encode_utf8(rest)[j] == vstd::utf8::encode_utf8(t)[j + 1]);
        }
        lemma_ascii_bytes_ascii_chars(rest);
        assert forall|i: int| 0 <= i < t.len() implies '\0' <= #[trigger] t[i] <= '\u{7f}' by {
            if i > 0 {
                assert(t[i] == rest[i - 1]);
            } else {
                assert(c <= 0x7F);
                lemma_char_below_128(t[0]);
            }
        }
    }
}

/// Encoding what `hex_decode` accepted gives back the trimmed input in lower case.
pub proof fn lemma_hex_encode_decode(hex: Seq<char>, bytes: Seq<u8>)
    requires
        hex_decode_outcome(hex) == Ok::<Seq<u8>, Seq<char>>(bytes),
    ensures
        hex_text(bytes) == trim_chars(hex).map_values(|c: char| ascii_lower(c)),
{
    let t = trim_chars(hex);
    let b = hex_input_bytes(hex);
    assert forall|j: int| 0 <= j < b.len() implies hex_value(#[trigger] b[j]) is Some by {
        if hex_value(b[j]) is None {
            lemma_first_non_hex_bound(b, 0, j as nat);
        }
    }
    lemma_ascii_bytes_ascii_chars(t);
    vstd::utf8::is_ascii_chars_encode_utf8(t);
    let lower = t.map_values(|c: char| ascii_lower(c));
    assert forall|i: int| 0 <= i < lower.len() implies #[trigger] hex_text(bytes)[i] == lower[i] by {
        let k = i / 2;
        assert(t[2 * k] as u8 == b[2 * k]);
        assert(t[2 * k + 1] as u8 == b[2 * k + 1]);
        assert(hex_value(b[2 * k]) is Some);
        assert(hex_value(b[2 * k + 1]) is Some);
        assert(bytes[k] == (hex_value(b[2 * k])->0 * 16 + hex_value(b[2 * k + 1])->0) as u8);
    }
    assert(hex_text(bytes) =~= lower);
}

proof fn lemma_first_non_hex_bound(b: Seq<u8>, i: nat, j: nat)
    requires
        i <= j < b.len(),
        hex_value(b[j as int]) is None,
    ensures
        first_non_hex(b, i) <= j,
    decreases j - i,
{
    if i < j && hex_value(b[i as int]) is Some {
        lemma_first_non_hex_bound(b, i + 1, j);
    }
}

} // verus!
