//! Hexadecimal encoding and decoding for account data.
use vstd::prelude::*;
use crate::agecore::output::ascii::{hex_fault_details, hex_fault_text, hex_scan, scan_hex};
use crate::domain::error::{AccountError, Result};

pub use crate::agecore::output::ascii::hex_encode;

verus! {

/// Decodes hexadecimal text (either case) into bytes after trimming white space.
/// Empty input, an odd byte length or a non-hexadecimal byte is `InvalidData` in
/// "hex decode"; the message for a bad byte names the character.
pub fn hex_decode(hex: &str) -> (r: Result<Vec<u8>>)
    ensures
        match hex_scan(hex@) {
            Ok(bytes) => r matches Ok(v) && v@ == bytes,
            Err(f) => r matches Err(AccountError::InvalidData { context, details })
                && context@ == "hex decode"@ && details@ == hex_fault_details(f, false),
        },
{
    match scan_hex(hex) {
        Ok(v) => Ok(v),
        Err(f) => Err(AccountError::InvalidData { context: "hex decode", details: hex_fault_text(f, false) }),
    }
}

} // verus!
