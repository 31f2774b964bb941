//! Ledger account identifiers, validated on construction.
use vstd::prelude::*;
use vstd::utf8::encode_utf8;

verus! {

/// A separator inside an account identifier.
pub open spec fn is_id_separator(c: char) -> bool {
    c == '-' || c == '_' || c == '.'
}

/// A character that may stand in an account identifier.
pub open spec fn is_id_char(c: char) -> bool {
    ('a' <= c && c <= 'z') || ('0' <= c && c <= '9') || is_id_separator(c)
}

/// Whether `s` is a well-formed account identifier of the target ledger:
/// 2 to 64 characters, lower-case letters, digits and separators, where a
/// separator neither starts nor ends the identifier nor follows another.
pub open spec fn account_id_ok(s: Seq<char>) -> bool {
    &&& 2 <= s.len() <= 64
    &&& forall|i: int| 0 <= i < s.len() ==> is_id_char(#[trigger] s[i])
    &&& forall|i: int|
        0 <= i < s.len() && is_id_separator(#[trigger] s[i]) ==> 0 < i < s.len() - 1
            && !is_id_separator(s[i - 1])
}

/// A text of characters below 128 has one UTF-8 byte per character.
pub proof fn lemma_ascii_utf8_len(s: Seq<char>)
    requires
        forall|i: int| 0 <= i < s.len() ==> (#[trigger] s[i] as u32) < 128,
    ensures
        encode_utf8(s).len() == s.len(),
    decreases s.len(),
{
    if s.len() > 0 {
        assert forall|i: int| 0 <= i < s.drop_first().len() implies (#[trigger] s.drop_first()[i]
            as u32) < 128 by {
            assert(s.drop_first()[i] == s[i + 1]);
        }
        lemma_ascii_utf8_len(s.drop_first());
        assert((s[0] as u32) < 128);
    }
}

/// Relies on `near_sdk::AccountId::validate` (near_account_id's
/// `validation::validate`): it accepts exactly the identifiers above.
#[verifier::external_body]
fn validate_account_id(s: &str) -> (r: bool)
    ensures
        r == account_id_ok(s@),
{
    near_sdk::AccountId::validate(s).is_ok()
}

/// An account identifier that has passed validation.
#[derive(Debug, PartialEq, Eq)]
pub struct AccountId {
    id: String,
}

impl View for AccountId {
    type V = Seq<char>;

    closed spec fn view(&self) -> Seq<char> {
        self.id@
    }
}

impl AccountId {
    #[verifier::type_invariant]
    spec fn valid(&self) -> bool {
        account_id_ok(self.id@)
    }

    /// Validates `s`; `None` when it is not a well-formed identifier.
    pub fn parse(s: &str) -> (r: Option<AccountId>)
        ensures
            r is Some <==> account_id_ok(s@),
            r matches Some(a) ==> a@ == s@,
    {
        if validate_account_id(s) {
            Some(AccountId { id: s.to_owned() })
        } else {
            None
        }
    }

    /// The identifier's text, which is well-formed and has one byte per
    /// character.
    pub fn as_str(&self) -> (r: &str)
        ensures
            r@ == self@,
            account_id_ok(self@),
            encode_utf8(self@).len() == self@.len(),
    {
        proof {
            use_type_invariant(self);
            lemma_ascii_utf8_len(self.id@);
        }
        self.id.as_str()
    }

    pub fn to_string(&self) -> (r: String)
        ensures
            r@ == self@,
    {
        self.id.clone()
    }

    /// A copy of the identifier.
    pub fn duplicate(&self) -> (r: AccountId)
        ensures
            r@ == self@,
    {
        proof {
            use_type_invariant(self);
        }
        AccountId { id: self.id.clone() }
    }

    pub fn equals(&self, other: &AccountId) -> (r: bool)
        ensures
            r == (self@ == other@),
    {
        self.id == other.id
    }
}

} // verus!
