//! The syntax of account identifiers, stated over their bytes.
use vstd::prelude::*;

verus! {

/// The shortest length, in bytes, of a valid account identifier.
pub const MIN_ACCOUNT_ID_LEN: usize = 2;

/// The longest length, in bytes, of a valid account identifier.
pub const MAX_ACCOUNT_ID_LEN: usize = 64;

/// The byte of `a`.
pub const ASCII_LOWER_A: u8 = 0x61;
/// The byte of `z`.
pub const ASCII_LOWER_Z: u8 = 0x7a;
/// The byte of `0`.
pub const ASCII_DIGIT_0: u8 = 0x30;
/// The byte of `9`.
pub const ASCII_DIGIT_9: u8 = 0x39;
/// The byte of `-`.
pub const ASCII_HYPHEN: u8 = 0x2d;
/// The byte of `_`.
pub const ASCII_UNDERSCORE: u8 = 0x5f;
/// The byte of `.`.
pub const ASCII_DOT: u8 = 0x2e;

/// A lowercase ASCII letter or an ASCII digit.
pub open spec fn is_alphanumeric_byte(b: u8) -> bool {
    (ASCII_LOWER_A <= b && b <= ASCII_LOWER_Z) || (ASCII_DIGIT_0 <= b && b <= ASCII_DIGIT_9)
}

/// One of the separators `-`, `_` and `.`.
pub open spec fn is_separator_byte(b: u8) -> bool {
    b == ASCII_HYPHEN || b == ASCII_UNDERSCORE || b == ASCII_DOT
}

/// A valid account identifier: 2 to 64 bytes, each a lowercase letter, a
/// digit or a separator, that neither starts nor ends with a separator and
/// has no two separators next to each other.
pub open spec fn valid_account_id_bytes(b: Seq<u8>) -> bool {
    &&& MIN_ACCOUNT_ID_LEN <= b.len() <= MAX_ACCOUNT_ID_LEN
    &&& forall|i: int| 0 <= i < b.len() ==> is_alphanumeric_byte(#[trigger] b[i]) || is_separator_byte(b[i])
    &&& !is_separator_byte(b[0])
    &&& !is_separator_byte(b[b.len() - 1])
    &&& forall|i: int| 0 <= i < b.len() - 1 ==> !(is_separator_byte(#[trigger] b[i]) && is_separator_byte(b[i + 1]))
}

/// Tells whether `account_id` is a valid account identifier.
pub fn is_valid_account_id(account_id: &[u8]) -> (r: bool)
    ensures
        r == valid_account_id_bytes(account_id@),
{
    let len = account_id.len();
    if len < MIN_ACCOUNT_ID_LEN || len > MAX_ACCOUNT_ID_LEN {
        return false;
    }
    // Before the first byte, a separator is taken to precede it.
    let mut last_is_separator = true;
    let mut i: usize = 0;
    while i < len
        invariant
            len == account_id@.len(),
            MIN_ACCOUNT_ID_LEN <= len <= MAX_ACCOUNT_ID_LEN,
            0 <= i <= len,
            forall|j: int| 0 <= j < i ==> is_alphanumeric_byte(#[trigger] account_id@[j]) || is_separator_byte(account_id@[j]),
            i > 0 ==> !is_separator_byte(account_id@[0]),
            forall|j: int| 0 <= j < i - 1 ==> !(is_separator_byte(#[trigger] account_id@[j]) && is_separator_byte(account_id@[j + 1])),
            last_is_separator == (i == 0 || is_separator_byte(account_id@[i - 1])),
        decreases len - i,
    {
        let c = account_id[i];
        let is_separator = if (ASCII_LOWER_A <= c && c <= ASCII_LOWER_Z) || (ASCII_DIGIT_0 <= c && c <= ASCII_DIGIT_9) {
            false
        } else if c == ASCII_HYPHEN || c == ASCII_UNDERSCORE || c == ASCII_DOT {
            true
        } else {
            assert(!(is_alphanumeric_byte(account_id@[i as int]) || is_separator_byte(account_id@[i as int])));
            return false;
        };
        if is_separator && last_is_separator {
            assert(i == 0 || (is_separator_byte(account_id@[i - 1]) && is_separator_byte(account_id@[(i - 1) + 1])));
            return false;
        }
        last_is_separator = is_separator;
        i = i + 1;
    }
    !last_is_separator
}

} // verus!
