//! The structured-text (JSON) form of account identifiers: a single string
//! scalar.
use vstd::prelude::*;
use vstd::utf8::encode_utf8;
use crate::account::{valid_account_text, AccountId, ParseAccountIdError, ValidAccountId};
use crate::syntax::{is_alphanumeric_byte, is_separator_byte, valid_account_id_bytes};

verus! {

#[verifier::external_type_specification]
#[verifier::external_body]
pub struct ExJsonError(serde_json::Error);

/// A character that a JSON string cannot hold as it is.
pub open spec fn json_needs_escape(c: char) -> bool {
    c == '"' || c == '\\' || (c as u32) < 0x20
}

/// A lowercase hexadecimal digit.
pub open spec fn hex_digit(d: u32) -> char
    recommends
        d < 16,
{
    seq!['0', '1', '2', '3', '4', '5', '6', '7', '8', '9', 'a', 'b', 'c', 'd', 'e', 'f'][d as int]
}

/// How one character is written inside a JSON string.
pub open spec fn json_escape_char(c: char) -> Seq<char> {
    if c == '"' {
        seq!['\\', '"']
    } else if c == '\\' {
        seq!['\\', '\\']
    } else if c == '\u{8}' {
        seq!['\\', 'b']
    } else if c == '\u{c}' {
        seq!['\\', 'f']
    } else if c == '\n' {
        seq!['\\', 'n']
    } else if c == '\r' {
        seq!['\\', 'r']
    } else if c == '\t' {
        seq!['\\', 't']
    } else if (c as u32) < 0x20 {
        seq!['\\', 'u', '0', '0', hex_digit((c as u32) / 16), hex_digit((c as u32) % 16)]
    } else {
        seq![c]
    }
}

/// The characters of `s`, each written as inside a JSON string.
pub open spec fn json_escape(s: Seq<char>) -> Seq<char>
    decreases s.len(),
{
    if s.len() == 0 {
        Seq::empty()
    } else {
        json_escape_char(s[0]) + json_escape(s.drop_first())
    }
}

/// The JSON string scalar that holds `s`.
pub open spec fn json_quote(s: Seq<char>) -> Seq<char> {
    seq!['"'] + json_escape(s) + seq!['"']
}

/// `t` is a quoted JSON string with no escape and nothing around it.
pub open spec fn is_plain_json_string(t: Seq<char>) -> bool {
    &&& t.len() >= 2
    &&& t[0] == '"'
    &&& t[t.len() - 1] == '"'
    &&& forall|i: int| 1 <= i < t.len() - 1 ==> !json_needs_escape(#[trigger] t[i])
}

/// The string that serde_json reads out of the JSON text `t`, if `t` is one
/// JSON string scalar.
pub uninterp spec fn json_string_value(t: Seq<char>) -> Option<Seq<char>>;

/// The string that the JSON text `t` holds, if it is one JSON string scalar.
pub open spec fn json_decode_string(t: Seq<char>) -> Option<Seq<char>> {
    if is_plain_json_string(t) {
        Some(t.subrange(1, t.len() - 1))
    } else {
        json_string_value(t)
    }
}

/// Relies on `serde_json::to_string` for a `String`: a quoted string in which
/// `"`, `\` and the control characters are escaped and every other character
/// is written as it is; writing into memory cannot fail.
#[verifier::external_body]
fn json_encode_string(s: &AccountId) -> (r: Result<String, serde_json::Error>)
    ensures
        r is Ok,
        r is Ok ==> r->Ok_0@ == json_quote(s@),
{
    serde_json::to_string(s)
}

/// Relies on `serde_json::from_str::<String>`: it reads one JSON string
/// scalar; a quoted string without escapes or control characters gives the
/// characters between the quotes.
#[verifier::external_body]
fn json_decode_text(t: &str) -> (r: Result<String, serde_json::Error>)
    ensures
        is_plain_json_string(t@) ==> r is Ok && r->Ok_0@ == t@.subrange(1, t@.len() - 1),
        !is_plain_json_string(t@) ==> (r is Ok <==> json_string_value(t@) is Some),
        !is_plain_json_string(t@) && r is Ok ==> json_string_value(t@) == Some(r->Ok_0@),
{
    serde_json::from_str::<String>(t)
}

/// The error of the JSON text: it is not one JSON string scalar.
#[derive(Debug, Clone, Copy, PartialEq, Eq, Structural)]
pub struct JsonFormatError;

/// Why decoding from structured text failed: the decoder could not read a
/// string, or the string read is not a valid account identifier.
#[derive(Debug, Clone, Copy, PartialEq, Eq)]
pub enum TextDecodeError<E> {
    Decode(E),
    Invalid(ParseAccountIdError),
}

impl ValidAccountId {
    /// Finishes decoding from structured text, given what the decoder read
    /// for the string scalar: a decoder error is handed on, and a string read
    /// is validated.
    pub fn from_decoded_text<E>(decoded: Result<AccountId, E>) -> (r: Result<ValidAccountId, TextDecodeError<E>>)
        ensures
            decoded is Err ==> r is Err && r->Err_0 is Decode && r->Err_0->Decode_0 == decoded->Err_0,
            decoded is Ok ==> (r is Ok <==> valid_account_text(decoded->Ok_0@)),
            decoded is Ok && r is Ok ==> r->Ok_0@ == decoded->Ok_0@,
            decoded is Ok && r is Err ==> r->Err_0 is Invalid,
    {
        match decoded {
            Ok(s) => match ValidAccountId::from_account_id(s) {
                Ok(v) => Ok(v),
                Err(e) => Err(TextDecodeError::Invalid(e)),
            },
            Err(e) => Err(TextDecodeError::Decode(e)),
        }
    }

    /// Decodes an instance from JSON text holding one string scalar.
    pub fn from_json(text: &str) -> (r: Result<ValidAccountId, TextDecodeError<JsonFormatError>>)
        ensures
            json_decode_string(text@) is None <==> r == Err::<ValidAccountId, TextDecodeError<JsonFormatError>>(TextDecodeError::Decode(JsonFormatError)),
            json_decode_string(text@) is Some ==> (r is Ok <==> valid_account_text(json_decode_string(text@)->0)),
            r is Ok ==> json_decode_string(text@) == Some(r->Ok_0@),
            json_decode_string(text@) is Some && r is Err ==> r->Err_0 is Invalid,
    {
        let decoded = match json_decode_text(text) {
            Ok(s) => Ok(s),
            Err(_) => Err(JsonFormatError),
        };
        ValidAccountId::from_decoded_text(decoded)
    }

    /// The stored text as one JSON string scalar.
    pub fn to_json(&self) -> (r: String)
        ensures
            r@ == json_quote(self@),
    {
        match json_encode_string(self.as_account_id()) {
            Ok(t) => t,
            Err(_) => {
                proof {
                    assert(false);
                }
                String::new()
            },
        }
    }
}

/// Text whose UTF-8 bytes are all below 0x80 has one byte per character,
/// equal to the character's code.
pub proof fn lemma_ascii_encoding(s: Seq<char>)
    requires
        forall|i: int| 0 <= i < encode_utf8(s).len() ==> #[trigger] encode_utf8(s)[i] < 0x80,
    ensures
        encode_utf8(s).len() == s.len(),
        forall|i: int| 0 <= i < s.len() ==> (#[trigger] s[i] as u32) == encode_utf8(s)[i] as u32,
    decreases s.len(),
{
    if s.len() > 0 {
        let c = s[0] as u32;
        vstd::utf8::char_is_scalar(s[0]);
        let head = vstd::utf8::encode_scalar(c);
        let rest = encode_utf8(s.drop_first());
        assert(encode_utf8(s) == head + rest);
        assert(encode_utf8(s)[0] == head[0]);
        if !vstd::utf8::has_width_1_encoding(c) {
            assert(head[0] >= 0xC0) by {
                let x2 = #[verifier::truncate] (((c >> 6) & 0x1F) as u8);
                let x3 = #[verifier::truncate] (((c >> 12) & 0x0F) as u8);
                let x4 = #[verifier::truncate] (((c >> 18) & 0x7) as u8);
                assert((0xC0u8 | x2) >= 0xC0u8) by (bit_vector);
                assert((0xE0u8 | x3) >= 0xC0u8) by (bit_vector);
                assert((0xF0u8 | x4) >= 0xC0u8) by (bit_vector);
            }
        }
        assert(head.len() == 1);
        assert((#[verifier::truncate] ((c & 0x7F) as u8)) as u32 == c) by (bit_vector)
            requires
                c <= 0x7F,
        ;
        assert forall|i: int| 0 <= i < rest.len() implies #[trigger] rest[i] < 0x80 by {
            assert(rest[i] == encode_utf8(s)[i + 1]);
        }
        lemma_ascii_encoding(s.drop_first());
        assert forall|i: int| 0 <= i < s.len() implies (#[trigger] s[i] as u32) == encode_utf8(s)[i] as u32 by {
            if i > 0 {
                assert(s[i] == s.drop_first()[i - 1]);
                assert(encode_utf8(s)[i] == rest[i - 1]);
            }
        }
    }
}

/// None of the characters of a valid identifier needs escaping in a JSON
/// string.
pub proof fn lemma_valid_text_needs_no_escape(s: Seq<char>)
    requires
        valid_account_text(s),
    ensures
        forall|i: int| 0 <= i < s.len() ==> !json_needs_escape(#[trigger] s[i]),
{
    let b = encode_utf8(s);
    assert forall|i: int| 0 <= i < b.len() implies #[trigger] b[i] < 0x80 by {
        assert(is_alphanumeric_byte(b[i]) || is_separator_byte(b[i]));
    }
    lemma_ascii_encoding(s);
    assert forall|i: int| 0 <= i < s.len() implies !json_needs_escape(#[trigger] s[i]) by {
        assert((s[i] as u32) == b[i] as u32);
        assert(is_alphanumeric_byte(b[i]) || is_separator_byte(b[i]));
    }
}

/// Text none of whose characters needs escaping is written as it is.
pub proof fn lemma_escape_plain(s: Seq<char>)
    requires
        forall|i: int| 0 <= i < s.len() ==> !json_needs_escape(#[trigger] s[i]),
    ensures
        json_escape(s) == s,
    decreases s.len(),
{
    if s.len() > 0 {
        assert(!json_needs_escape(s[0]));
        assert forall|i: int| 0 <= i < s.drop_first().len() implies !json_needs_escape(#[trigger] s.drop_first()[i]) by {
            assert(s.drop_first()[i] == s[i + 1]);
        }
        lemma_escape_plain(s.drop_first());
        assert(json_escape(s) =~= s);
    }
}

/// Decoding the JSON form of a valid identifier gives its text back, which
/// is valid again.
pub proof fn lemma_text_round_trip(v: ValidAccountId)
    requires
        v.is_valid(),
    ensures
        json_decode_string(json_quote(v@)) == Some(v@),
        valid_account_text(v@),
{
    lemma_valid_text_needs_no_escape(v@);
    lemma_escape_plain(v@);
    let t = json_quote(v@);
    assert(t =~= seq!['"'] + v@ + seq!['"']);
    assert forall|i: int| 1 <= i < t.len() - 1 implies !json_needs_escape(#[trigger] t[i]) by {
        assert(t[i] == v@[i - 1]);
    }
    assert(t.subrange(1, t.len() - 1) =~= v@);
}

} // verus!
