//! The binary (borsh) encoding of account identifiers: a little-endian `u32`
//! byte length followed by the UTF-8 bytes of the text.
use vstd::prelude::*;
use vstd::utf8::{decode_utf8, encode_utf8, valid_utf8};
use crate::account::{AccountId, ValidAccountId};

verus! {

#[verifier::external_type_specification]
#[verifier::external_body]
pub struct ExIoError(std::io::Error);

/// The four little-endian bytes of `n`.
pub open spec fn le_bytes_u32(n: u32) -> Seq<u8> {
    seq![
        (n & 0xff) as u8,
        ((n >> 8u32) & 0xff) as u8,
        ((n >> 16u32) & 0xff) as u8,
        ((n >> 24u32) & 0xff) as u8,
    ]
}

/// The `u32` whose little-endian bytes are the first four of `b`.
pub open spec fn le_u32_value(b: Seq<u8>) -> u32
    recommends
        b.len() >= 4,
{
    (b[0] as u32) | ((b[1] as u32) << 8u32) | ((b[2] as u32) << 16u32) | ((b[3] as u32) << 24u32)
}

/// The binary encoding of the text `s`, whose UTF-8 length fits in a `u32`.
pub open spec fn string_encoding(s: Seq<char>) -> Seq<u8> {
    le_bytes_u32(encode_utf8(s).len() as u32) + encode_utf8(s)
}

/// `b` is exactly one encoded string: a length prefix, then that many bytes
/// of valid UTF-8, and nothing after them.
pub open spec fn is_string_encoding(b: Seq<u8>) -> bool {
    &&& b.len() >= 4
    &&& b.len() - 4 == le_u32_value(b) as int
    &&& valid_utf8(b.subrange(4, b.len() as int))
}

/// The text held by an encoded string.
pub open spec fn decoded_string(b: Seq<u8>) -> Seq<char> {
    decode_utf8(b.subrange(4, b.len() as int))
}

/// Relies on `borsh::to_vec` for a `String`: it writes the byte length as a
/// little-endian `u32`, then the UTF-8 bytes, and fails only when the length
/// does not fit in a `u32`.
#[verifier::external_body]
fn borsh_encode_string(s: &AccountId) -> (r: Result<Vec<u8>, std::io::Error>)
    ensures
        r is Ok <==> encode_utf8(s@).len() <= u32::MAX,
        r is Ok ==> r->Ok_0@ == string_encoding(s@),
{
    borsh::to_vec(s)
}

/// Relies on `borsh::from_slice` for a `String`: it reads a little-endian
/// `u32` length and that many bytes, checks that they are UTF-8, and fails
/// when the input is short, invalid UTF-8, or has bytes left over.
#[verifier::external_body]
fn borsh_decode_string(b: &[u8]) -> (r: Result<AccountId, std::io::Error>)
    ensures
        r is Ok <==> is_string_encoding(b@),
        r is Ok ==> r->Ok_0@ == decoded_string(b@),
{
    borsh::from_slice::<String>(b)
}

/// The error of the binary encoding: a text too long for its length prefix,
/// or bytes that are not one encoded string.
#[derive(Debug, Clone, Copy, PartialEq, Eq, Structural)]
pub struct BinaryFormatError;

impl ValidAccountId {
    /// Encodes the stored text exactly as the raw identifier would be encoded.
    pub fn try_to_vec(&self) -> (r: Result<Vec<u8>, BinaryFormatError>)
        ensures
            r is Ok <==> encode_utf8(self@).len() <= u32::MAX,
            r is Ok ==> r->Ok_0@ == string_encoding(self@),
    {
        match borsh_encode_string(self.as_account_id()) {
            Ok(v) => Ok(v),
            Err(_) => Err(BinaryFormatError),
        }
    }

    /// Decodes an instance from bytes as the raw identifier would be decoded.
    /// The syntax check is not run: the bytes are trusted to come from an
    /// instance that was encoded earlier, so the result is not promised to be
    /// valid.
    pub fn try_from_slice(b: &[u8]) -> (r: Result<ValidAccountId, BinaryFormatError>)
        ensures
            r is Ok <==> is_string_encoding(b@),
            r is Ok ==> r->Ok_0@ == decoded_string(b@),
    {
        match borsh_decode_string(b) {
            Ok(s) => Ok(ValidAccountId::from_trusted_bytes(s)),
            Err(_) => Err(BinaryFormatError),
        }
    }
}

/// The four bytes of `n` read back give `n`.
pub proof fn lemma_le_u32_round_trip(n: u32)
    ensures
        le_u32_value(le_bytes_u32(n)) == n,
{
    assert(((n & 0xff) as u8) as u32 | ((((n >> 8u32) & 0xff) as u8) as u32) << 8u32
        | ((((n >> 16u32) & 0xff) as u8) as u32) << 16u32
        | ((((n >> 24u32) & 0xff) as u8) as u32) << 24u32 == n) by (bit_vector);
}

/// Decoding the encoding of any text whose UTF-8 length fits in a `u32`
/// gives that text back.
pub proof fn lemma_string_round_trip(s: Seq<char>)
    requires
        encode_utf8(s).len() <= u32::MAX,
    ensures
        is_string_encoding(string_encoding(s)),
        decoded_string(string_encoding(s)) == s,
{
    let bytes = encode_utf8(s);
    let e = string_encoding(s);
    lemma_le_u32_round_trip(bytes.len() as u32);
    assert(le_u32_value(e) == le_u32_value(le_bytes_u32(bytes.len() as u32)));
    assert(e.subrange(4, e.len() as int) =~= bytes);
    vstd::utf8::encode_utf8_valid_utf8(s);
    vstd::utf8::encode_utf8_decode_utf8(s);
}

/// Decoding the binary encoding of a valid identifier gives an equal
/// instance, which is valid again.
pub proof fn lemma_binary_round_trip(v: ValidAccountId)
    requires
        v.is_valid(),
    ensures
        encode_utf8(v@).len() <= u32::MAX,
        is_string_encoding(string_encoding(v@)),
        decoded_string(string_encoding(v@)) == v@,
        crate::account::valid_account_text(decoded_string(string_encoding(v@))),
{
    lemma_string_round_trip(v@);
}

} // verus!
