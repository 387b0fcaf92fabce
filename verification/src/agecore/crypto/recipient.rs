//! Recipient lists: one age public key per line, with blank lines and `#` comments.
use vstd::prelude::*;
use crate::handler::error::{AgeCredentialsError, Result};
use crate::text::{decimal, push_decimal, str_trim, string_views, trim_chars};

verus! {

/// A trimmed line that carries no key: blank, or a comment starting with `#`.
pub open spec fn is_skipped_line(t: Seq<char>) -> bool {
    t.len() == 0 || t[0] == '#'
}

/// A trimmed line that starts like an age public key, with `age`.
pub open spec fn looks_like_key(t: Seq<char>) -> bool {
    t.len() >= 3 && t[0] == 'a' && t[1] == 'g' && t[2] == 'e'
}

/// The keys of the lines, trimmed, in order, skipping blank and comment lines.
pub open spec fn recipient_keys(lines: Seq<Seq<char>>) -> Seq<Seq<char>>
    decreases lines.len(),
{
    if lines.len() == 0 {
        seq![]
    } else {
        let t = trim_chars(lines.last());
        if is_skipped_line(t) {
            recipient_keys(lines.drop_last())
        } else {
            recipient_keys(lines.drop_last()).push(t)
        }
    }
}

/// The index of the first line, from `i` on, that is neither skipped nor a key,
/// or the number of lines when there is none.
pub open spec fn first_bad_line(lines: Seq<Seq<char>>, i: nat) -> nat
    decreases lines.len() - i,
{
    if i >= lines.len() {
        lines.len()
    } else {
        let t = trim_chars(lines[i as int]);
        if !is_skipped_line(t) && !looks_like_key(t) {
            i
        } else {
            first_bad_line(lines, i + 1)
        }
    }
}

/// The details for the line at index `k`, which does not look like a key.
pub open spec fn bad_line_details(lines: Seq<Seq<char>>, k: nat) -> Seq<char> {
    "Line "@ + decimal(k + 1) + " does not look like an age public key: "@ + trim_chars(
        lines[k as int],
    )
}

/// What reading the lines gives, before the check that some key was found:
/// the keys, or the details for the first line that is not a key.
pub open spec fn scan_outcome(lines: Seq<Seq<char>>) -> std::result::Result<Seq<Seq<char>>, Seq<char>> {
    let k = first_bad_line(lines, 0);
    if k < lines.len() {
        Err(bad_line_details(lines, k))
    } else {
        Ok(recipient_keys(lines))
    }
}

/// What reading a whole recipient list gives: the keys, or the `InvalidData` details.
pub open spec fn recipients_outcome(lines: Seq<Seq<char>>) -> std::result::Result<Seq<Seq<char>>, Seq<char>> {
    match scan_outcome(lines) {
        Err(d) => Err(d),
        Ok(keys) => if keys.len() == 0 {
            Err("No valid recipient found in file"@)
        } else {
            Ok(keys)
        },
    }
}

/// The answer that matches an outcome: the keys, or `InvalidData` in "recipient file".
pub open spec fn answers(
    r: Result<Vec<String>>,
    outcome: std::result::Result<Seq<Seq<char>>, Seq<char>>,
) -> bool {
    match outcome {
        Ok(keys) => r matches Ok(v) && string_views(v@) == keys,
        Err(details) => r matches Err(AgeCredentialsError::InvalidData { context, details: d })
            && context@ == "recipient file"@ && d@ == details,
    }
}

/// Reads recipient lines in order: blank lines and `#` comments are skipped, every
/// other line is trimmed and must start with `age`.  The keys found so far may be
/// none; the first line that is not a key is `InvalidData` naming its number.
pub fn scan_recipient_lines(lines: &Vec<String>) -> (r: Result<Vec<String>>)
    ensures
        answers(r, scan_outcome(string_views(lines@))),
{
    let ghost ls = string_views(lines@);
    let mut keys: Vec<String> = Vec::new();
    let n = lines.len();
    let mut i: usize = 0;
    while i < n
        invariant
            n == lines@.len(),
            ls == string_views(lines@),
            i <= n,
            first_bad_line(ls, 0) == first_bad_line(ls, i as nat),
            string_views(keys@) =~= recipient_keys(ls.take(i as int)),
        decreases n - i,
    {
        let t = str_trim(lines[i].as_str());
        proof {
            assert(ls[i as int] == lines@[i as int]@);
            assert(ls.take(i + 1).drop_last() =~= ls.take(i as int));
            assert(ls.take(i + 1).last() == ls[i as int]);
        }
        let len = t.unicode_len();
        let skipped = len == 0 || t.get_char(0) == '#';
        if !skipped {
            let is_key = len >= 3 && t.get_char(0) == 'a' && t.get_char(1) == 'g' && t.get_char(2)
                == 'e';
            if !is_key {
                let mut s = "Line ".to_owned();
                push_decimal(&mut s, i as u64 + 1);
                s.append(" does not look like an age public key: ");
                s.append(t);
                return Err(AgeCredentialsError::InvalidData { context: "recipient file", details: s });
            }
            let ghost old_keys = keys@;
            keys.push(t.to_owned());
            proof {
                assert(string_views(old_keys).len() == old_keys.len());
                assert forall|j: int| 0 <= j < keys@.len() implies #[trigger] string_views(keys@)[j]
                    == recipient_keys(ls.take(i + 1))[j] by {
                    if j < old_keys.len() {
                        assert(keys@[j] == old_keys[j]);
                    }
                }
            }
        }
        proof {
            assert(string_views(keys@) =~= recipient_keys(ls.take(i + 1)));
        }
        i = i + 1;
    }
    proof {
        assert(ls.take(n as int) =~= ls);
    }
    Ok(keys)
}

/// Reads a whole recipient list (see `scan_recipient_lines`); a list without any
/// key is `InvalidData` "No valid recipient found in file".
pub fn parse_recipient_lines(lines: &Vec<String>) -> (r: Result<Vec<String>>)
    ensures
        answers(r, recipients_outcome(string_views(lines@))),
{
    let keys = scan_recipient_lines(lines)?;
    if keys.len() == 0 {
        return Err(
            AgeCredentialsError::InvalidData {
                context: "recipient file",
                details: "No valid recipient found in file".to_owned(),
            },
        );
    }
    Ok(keys)
}

} // verus!
