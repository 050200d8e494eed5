//! The validated account identifier and its error.
use vstd::prelude::*;
use vstd::utf8::encode_utf8;
use crate::syntax::{is_valid_account_id, valid_account_id_bytes};
use vstd::std_specs::cmp::PartialEqSpec;

verus! {

/// The raw, unvalidated account identifier.
pub type AccountId = String;

/// Text whose UTF-8 bytes form a valid account identifier.
pub open spec fn valid_account_text(s: Seq<char>) -> bool {
    valid_account_id_bytes(encode_utf8(s))
}

/// An account identifier. Every instance built from text passed the syntax
/// check; one decoded from the binary encoding was not checked (see
/// `try_from_slice`). Its stored text never changes. Equality and order are
/// those of the stored text.
#[derive(Debug, Clone, Eq, PartialOrd, Ord)]
pub struct ValidAccountId(AccountId);

impl View for ValidAccountId {
    type V = Seq<char>;

    closed spec fn view(&self) -> Seq<char> {
        self.0@
    }
}

impl ValidAccountId {
    /// The stored text satisfies the syntax rule.
    pub open spec fn is_valid(&self) -> bool {
        valid_account_text(self@)
    }

    /// Checks `text` and, when it is valid, copies it into a new instance.
    pub fn parse(text: &str) -> (r: Result<ValidAccountId, ParseAccountIdError>)
        ensures
            r is Ok <==> valid_account_text(text@),
            r is Ok ==> r->Ok_0@ == text@ && r->Ok_0.is_valid(),
    {
        match validate_account_id(text) {
            Ok(()) => Ok(ValidAccountId(text.to_owned())),
            Err(e) => Err(e),
        }
    }

    /// Checks `value` and, when it is valid, keeps it as the stored text.
    pub fn from_account_id(value: AccountId) -> (r: Result<ValidAccountId, ParseAccountIdError>)
        ensures
            r is Ok <==> valid_account_text(value@),
            r is Ok ==> r->Ok_0@ == value@ && r->Ok_0.is_valid(),
    {
        match validate_account_id(value.as_str()) {
            Ok(()) => Ok(ValidAccountId(value)),
            Err(e) => Err(e),
        }
    }

    /// Builds an instance from text decoded out of the binary encoding,
    /// without the syntax check.
    pub(crate) fn from_trusted_bytes(value: AccountId) -> (r: ValidAccountId)
        ensures
            r@ == value@,
    {
        ValidAccountId(value)
    }

    /// A copy of the stored text.
    pub fn to_string(&self) -> (r: String)
        ensures
            r@ == self@,
    {
        self.0.clone()
    }

    /// The stored text, borrowed as a raw account identifier.
    pub fn as_account_id(&self) -> (r: &AccountId)
        ensures
            r@ == self@,
    {
        &self.0
    }

    /// Gives up the validity guarantee and hands back the stored text.
    pub fn into_account_id(self) -> (r: AccountId)
        ensures
            r@ == self@,
    {
        self.0
    }
}

impl<'a> TryFrom<&'a str> for ValidAccountId {
    type Error = ParseAccountIdError;

    fn try_from(value: &'a str) -> (r: Result<ValidAccountId, ParseAccountIdError>)
        ensures
            r is Ok <==> valid_account_text(value@),
            r is Ok ==> r->Ok_0@ == value@,
    {
        ValidAccountId::parse(value)
    }
}

impl TryFrom<AccountId> for ValidAccountId {
    type Error = ParseAccountIdError;

    fn try_from(value: AccountId) -> (r: Result<ValidAccountId, ParseAccountIdError>)
        ensures
            r is Ok <==> valid_account_text(value@),
            r is Ok ==> r->Ok_0@ == value@,
    {
        ValidAccountId::from_account_id(value)
    }
}

impl std::str::FromStr for ValidAccountId {
    type Err = ParseAccountIdError;

    fn from_str(value: &str) -> (r: Result<ValidAccountId, ParseAccountIdError>)
        ensures
            r is Ok <==> valid_account_text(value@),
            r is Ok ==> r->Ok_0@ == value@,
    {
        ValidAccountId::parse(value)
    }
}

impl AsRef<AccountId> for ValidAccountId {
    fn as_ref(&self) -> (r: &AccountId)
        ensures
            r@ == self@,
    {
        self.as_account_id()
    }
}

impl From<ValidAccountId> for AccountId {
    fn from(value: ValidAccountId) -> (r: AccountId)
        ensures
            r@ == value@,
    {
        value.into_account_id()
    }
}

// The results of these conversions are stated by the `ensures` of the impls
// above; no spec function describes them.
impl<'a> vstd::std_specs::convert::TryFromSpecImpl<&'a str> for ValidAccountId {
    open spec fn obeys_try_from_spec() -> bool {
        false
    }

    closed spec fn try_from_spec(value: &'a str) -> Result<ValidAccountId, ParseAccountIdError> {
        arbitrary()
    }
}

impl vstd::std_specs::convert::TryFromSpecImpl<AccountId> for ValidAccountId {
    open spec fn obeys_try_from_spec() -> bool {
        false
    }

    closed spec fn try_from_spec(value: AccountId) -> Result<ValidAccountId, ParseAccountIdError> {
        arbitrary()
    }
}

impl vstd::std_specs::convert::FromSpecImpl<ValidAccountId> for AccountId {
    open spec fn obeys_from_spec() -> bool {
        false
    }

    closed spec fn from_spec(value: ValidAccountId) -> AccountId {
        arbitrary()
    }
}

impl PartialEq for ValidAccountId {
    fn eq(&self, other: &ValidAccountId) -> (r: bool) {
        self.0 == other.0
    }
}

impl vstd::std_specs::cmp::PartialEqSpecImpl for ValidAccountId {
    open spec fn obeys_eq_spec() -> bool {
        true
    }

    open spec fn eq_spec(&self, other: &ValidAccountId) -> bool {
        self@ == other@
    }
}

/// What went wrong while checking an account identifier.
#[derive(Debug, Clone, Copy, PartialEq, Eq, Structural)]
enum ParseAccountIdErrorKind {
    InvalidAccountId,
}

/// The error of a failed validation. It does not keep the rejected text.
#[derive(Debug, Clone, Copy, PartialEq, Eq, Structural)]
pub struct ParseAccountIdError {
    kind: ParseAccountIdErrorKind,
}

impl ParseAccountIdError {
    /// The human-readable message of this error.
    pub fn message(&self) -> (r: String)
        ensures
            r@ == "the account ID is invalid"@,
    {
        match self.kind {
            ParseAccountIdErrorKind::InvalidAccountId => "the account ID is invalid".to_owned(),
        }
    }
}

/// Runs the syntax check on the bytes of `id`.
pub fn validate_account_id(id: &str) -> (r: Result<(), ParseAccountIdError>)
    ensures
        r is Ok <==> valid_account_text(id@),
{
    if is_valid_account_id(id.as_bytes()) {
        Ok(())
    } else {
        Err(ParseAccountIdError { kind: ParseAccountIdErrorKind::InvalidAccountId })
    }
}

/// Parsing the text of a valid instance again succeeds, and any instance
/// holding that text is equal to the first.
pub proof fn lemma_reparse_valid(v: ValidAccountId)
    requires
        v.is_valid(),
    ensures
        valid_account_text(v@),
        forall|w: ValidAccountId| #[trigger] w@ == v@ ==> w.eq_spec(&v),
{
}

} // verus!
