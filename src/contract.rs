//! The gateway's state and its operations: who may ask for a signature, what
//! may be signed, and the request forwarded to the signing service.
use vstd::prelude::*;
use vstd::utf8::encode_utf8;
use crate::account::{AccountId, account_id_ok, lemma_ascii_utf8_len};
use crate::codec::{
    base58, base58_of, fits_u32, hash_payload, near_transaction_bytes, serialize_sign_request,
    sha256_of, sign_request_encoding, transaction_encoding, SignRequest,
};

verus! {

/// Gas that a signature request must be prepaid with, and that is attached
/// to the forwarded call: 10 Tgas.
pub const GAS_FOR_REQUEST_SIGNATURE: u64 = 10_000_000_000_000;

/// Key tag of an ED25519 public key.
pub const ED25519_TAG: u8 = 0;

/// Key tag of a SECP256K1 public key.
pub const SECP256K1_TAG: u8 = 1;

/// Why a call was refused.
#[derive(Debug)]
pub enum ProxyError {
    /// The gateway's state exists already.
    AlreadyInitialized,
    /// An identifier the gateway is built with is malformed; the built-in
    /// signing service's identifier is proved well-formed, so `new` does
    /// not return it.
    InvalidAccountId,
    /// Less gas was prepaid than a signature request needs.
    InsufficientGas,
    /// Permission denied: the caller is not the owner.
    NotOwner,
    /// Permission denied: the caller is not an authorized user.
    Unauthorized,
    /// Policy violation: the target contract is not allowed; with the
    /// contracts that are.
    ContractNotAllowed(String, Vec<String>),
    /// Policy violation: the method is restricted.
    MethodRestricted(String),
    /// The signer's key is not an ED25519 key.
    UnsupportedCurve,
    /// A length does not fit the wire format.
    SerializationFailure,
}

/// The texts of a list of strings, in order.
pub open spec fn texts_of(v: Seq<String>) -> Seq<Seq<char>> {
    v.map_values(|s: String| s@)
}

/// The texts joined by ` and `.
pub open spec fn joined(v: Seq<Seq<char>>) -> Seq<char>
    decreases v.len(),
{
    if v.len() == 0 {
        Seq::empty()
    } else if v.len() == 1 {
        v[0]
    } else {
        joined(v.drop_last()) + " and "@ + v.last()
    }
}

/// The strings of `v` joined by ` and `.
fn join_with_and(v: &Vec<String>) -> (r: String)
    ensures
        r@ == joined(texts_of(v@)),
{
    let mut r = String::new();
    let mut i: usize = 0;
    while i < v.len()
        invariant
            i <= v@.len(),
            r@ == joined(texts_of(v@.subrange(0, i as int))),
        decreases v@.len() - i,
    {
        let ghost before = r@;
        if i > 0 {
            r.append(" and ");
        }
        r.append(v[i].as_str());
        proof {
            let t = texts_of(v@.subrange(0, i + 1));
            assert(t.drop_last() =~= texts_of(v@.subrange(0, i as int)));
            assert(t.last() == v@[i as int]@);
            if i == 0 {
                assert(before =~= Seq::<char>::empty());
                assert(r@ =~= joined(t));
            }
        }
        i = i + 1;
    }
    assert(v@.subrange(0, v@.len() as int) =~= v@);
    r
}

/// The text that an abort with `e` reports.
pub open spec fn error_message(e: ProxyError) -> Seq<char> {
    match e {
        ProxyError::AlreadyInitialized => "Contract is already initialized"@,
        ProxyError::InvalidAccountId => "Malformed account id"@,
        ProxyError::InsufficientGas => "Not enough gas attached. Please attach 10 TGas"@,
        ProxyError::NotOwner => "Be gone. You have no power here."@,
        ProxyError::Unauthorized => "Unauthorized: only authorized users can request signatures"@,
        ProxyError::ContractNotAllowed(c, p) => "Contract "@ + c@ + " is not allowed. Only "@
            + joined(texts_of(p@)) + " are permitted"@,
        ProxyError::MethodRestricted(m) => "Method "@ + m@ + " is restricted"@,
        ProxyError::UnsupportedCurve => "Unsupported curve type"@,
        ProxyError::SerializationFailure => "Failed to serialize the sign request"@,
    }
}

impl ProxyError {
    /// The text that an abort with this error reports.
    pub fn message(&self) -> (r: String)
        ensures
            r@ == error_message(*self),
    {
        match self {
            ProxyError::AlreadyInitialized => String::from_str("Contract is already initialized"),
            ProxyError::InvalidAccountId => String::from_str("Malformed account id"),
            ProxyError::InsufficientGas => String::from_str(
                "Not enough gas attached. Please attach 10 TGas",
            ),
            ProxyError::NotOwner => String::from_str("Be gone. You have no power here."),
            ProxyError::Unauthorized => String::from_str(
                "Unauthorized: only authorized users can request signatures",
            ),
            ProxyError::ContractNotAllowed(c, p) => {
                let mut r = String::from_str("Contract ");
                r.append(c.as_str());
                r.append(" is not allowed. Only ");
                let list = join_with_and(p);
                r.append(list.as_str());
                r.append(" are permitted");
                r
            },
            ProxyError::MethodRestricted(m) => {
                let mut r = String::from_str("Method ");
                r.append(m.as_str());
                r.append(" is restricted");
                r
            },
            ProxyError::UnsupportedCurve => String::from_str("Unsupported curve type"),
            ProxyError::SerializationFailure => String::from_str(
                "Failed to serialize the sign request",
            ),
        }
    }
}

/// What the host tells a call about itself.
#[derive(Debug)]
pub struct CallContext {
    /// The account that made the call.
    pub predecessor_account_id: AccountId,
    /// The signer's public key: a one-byte curve tag, then the key.
    pub signer_account_pk: Vec<u8>,
    pub prepaid_gas: u64,
    pub attached_deposit: u128,
}

/// An action that a caller asks to have signed.
#[derive(Debug)]
pub struct NearAction {
    pub method_name: String,
    pub contract_id: AccountId,
    pub gas_attached: u64,
    pub deposit_attached: u128,
}

/// The call to make on the signing service.
#[derive(Debug)]
pub struct ForwardCall {
    pub receiver_id: AccountId,
    pub method_name: String,
    pub args: Vec<u8>,
    pub deposit: u128,
    pub gas: u64,
}

/// The texts of a list of strings.
pub open spec fn strings_of(v: Seq<String>) -> Set<Seq<char>> {
    Set::new(|s: Seq<char>| exists|i: int| 0 <= i < v.len() && v[i]@ == s)
}

/// Contracts that actions may target on a new gateway.
pub open spec fn default_allowed_contracts() -> Set<Seq<char>> {
    set!["wrap.near"@, "intents.near"@]
}

/// Methods that actions may not call on a new gateway.
pub open spec fn default_restricted_methods() -> Set<Seq<char>> {
    set!["deposit"@, "add_public_key"@]
}

/// The texts of a two-element list.
proof fn lemma_strings_of_pair(v: Seq<String>)
    requires
        v.len() == 2,
    ensures
        strings_of(v) == set![v[0]@, v[1]@],
{
    assert forall|s: Seq<char>| #[trigger] strings_of(v).contains(s) <==> set![v[0]@, v[1]@].contains(s) by {
        if set![v[0]@, v[1]@].contains(s) {
            if s == v[0]@ {
                assert(0 <= 0 < v.len() && v[0]@ == s);
            } else {
                assert(0 <= 1 < v.len() && v[1]@ == s);
            }
        }
    }
    assert(strings_of(v) =~= set![v[0]@, v[1]@]);
}

/// Whether `s` is among the strings of `v`.
fn contains_string(v: &Vec<String>, s: &String) -> (r: bool)
    ensures
        r == strings_of(v@).contains(s@),
{
    let mut i: usize = 0;
    while i < v.len()
        invariant
            i <= v@.len(),
            forall|k: int| 0 <= k < i ==> v@[k]@ != s@,
        decreases v@.len() - i,
    {
        if v[i] == *s {
            return true;
        }
        i = i + 1;
    }
    false
}

/// A copy of a list of strings.
fn copy_strings(v: &Vec<String>) -> (r: Vec<String>)
    ensures
        r@ == v@,
{
    let mut r: Vec<String> = Vec::new();
    let mut i: usize = 0;
    while i < v.len()
        invariant
            i <= v@.len(),
            r@ == v@.subrange(0, i as int),
        decreases v@.len() - i,
    {
        r.push(v[i].clone());
        i = i + 1;
    }
    assert(r@ =~= v@);
    r
}

/// The 32 key bytes of an ED25519 key given with its curve tag.
pub open spec fn ed25519_key(raw: Seq<u8>) -> Option<Seq<u8>> {
    if raw.len() == 33 && raw[0] == ED25519_TAG {
        Some(raw.subrange(1, 33))
    } else {
        None
    }
}

/// The derivation path of a key given with its curve tag.
pub open spec fn key_path(raw: Seq<u8>) -> Option<Seq<char>> {
    if raw.len() >= 1 && raw[0] == ED25519_TAG {
        Some("ed25519:"@ + base58_of(raw.drop_first()))
    } else if raw.len() >= 1 && raw[0] == SECP256K1_TAG {
        Some("secp256k1:"@ + base58_of(raw.drop_first()))
    } else {
        None
    }
}

/// A list without repeats has as many distinct views as entries.
proof fn lemma_users_len(v: Seq<AccountId>, users: Set<Seq<char>>)
    requires
        forall|i: int, j: int| 0 <= i < j < v.len() ==> v[i]@ != v[j]@,
        users == Set::new(|p: Seq<char>| exists|i: int| 0 <= i < v.len() && v[i]@ == p),
    ensures
        users.finite(),
        users.len() == v.len(),
    decreases v.len(),
{
    if v.len() == 0 {
        assert(users =~= Set::<Seq<char>>::empty());
    } else {
        let w = v.drop_last();
        let rest = Set::new(|p: Seq<char>| exists|i: int| 0 <= i < w.len() && w[i]@ == p);
        lemma_users_len(w, rest);
        assert forall|p: Seq<char>| #[trigger] users.contains(p) <==> rest.insert(v.last()@).contains(p) by {
            if users.contains(p) {
                let i = choose|i: int| 0 <= i < v.len() && v[i]@ == p;
                if i < w.len() {
                    assert(w[i] == v[i]);
                }
            }
            if rest.contains(p) {
                let i = choose|i: int| 0 <= i < w.len() && w[i]@ == p;
                assert(v[i] == w[i]);
            }
        }
        assert(users =~= rest.insert(v.last()@));
        assert(!rest.contains(v.last()@)) by {
            if rest.contains(v.last()@) {
                let i = choose|i: int| 0 <= i < w.len() && w[i]@ == v.last()@;
                assert(v[i] == w[i]);
            }
        }
    }
}

/// The digest that a request asks to have signed: SHA-256 of the encoded
/// transaction from the owner to `contract_id`.
pub open spec fn request_payload(
    owner: Seq<char>,
    key: Seq<u8>,
    nonce: u64,
    contract_id: Seq<char>,
    block_hash: Seq<u8>,
    method_name: Seq<char>,
    args: Seq<u8>,
    gas: u64,
    deposit: u128,
) -> Seq<u8> {
    sha256_of(
        transaction_encoding(owner, key, nonce, contract_id, block_hash, method_name, args, gas, deposit),
    )
}

/// Whether the caller-supplied method name and arguments fit the wire
/// format's 32-bit lengths; account identifiers and key paths always do.
pub open spec fn encodable(method_name: Seq<char>, args: Seq<u8>) -> bool {
    fits_u32(encode_utf8(method_name)) && fits_u32(args)
}

/// The number of bytes of the UTF-8 encoding of `s`.
fn utf8_len(s: &str) -> (n: usize)
    ensures
        n == encode_utf8(s@).len(),
{
    s.as_bytes().len()
}

/// The digest's bytes, in order.
fn digest_to_vec(digest: &[u8; 32]) -> (r: Vec<u8>)
    ensures
        r@ == digest@,
{
    let mut r: Vec<u8> = Vec::new();
    let mut i: usize = 0;
    while i < 32
        invariant
            i <= 32,
            r@ == digest@.subrange(0, i as int),
        decreases 32 - i,
    {
        r.push(digest[i]);
        i = i + 1;
    }
    assert(r@ =~= digest@);
    r
}

/// The built-in signing service's identifier is well-formed.
proof fn lemma_testnet_signer_ok()
    ensures
        account_id_ok("v1.signer-prod.testnet"@),
{
    reveal_strlit("v1.signer-prod.testnet");
    let s = "v1.signer-prod.testnet"@;
    assert(s =~= seq![
        'v', '1', '.', 's', 'i', 'g', 'n', 'e', 'r', '-', 'p', 'r', 'o', 'd', '.', 't', 'e', 's',
        't', 'n', 'e', 't',
    ]);
}

/// The gateway's persistent state.
pub struct ProxyContract {
    owner_id: AccountId,
    authorized_users: Vec<AccountId>,
    signer_contract: AccountId,
    allowed_contracts: Vec<String>,
    restricted_methods: Vec<String>,
}

impl ProxyContract {
    /// No user is listed twice.
    pub closed spec fn well_formed(&self) -> bool {
        forall|i: int, j: int|
            0 <= i < j < self.authorized_users@.len() ==> self.authorized_users@[i]@
                != self.authorized_users@[j]@
    }

    /// The owner.
    pub closed spec fn owner(&self) -> Seq<char> {
        self.owner_id@
    }

    /// The signing service that requests go to.
    pub closed spec fn signer(&self) -> Seq<char> {
        self.signer_contract@
    }

    /// Contracts that actions may target, as listed.
    pub closed spec fn allowed_contract_list(&self) -> Seq<String> {
        self.allowed_contracts@
    }

    /// Contracts that actions may target.
    pub open spec fn allowed_contracts(&self) -> Set<Seq<char>> {
        strings_of(self.allowed_contract_list())
    }

    /// Methods that actions may not call.
    pub closed spec fn restricted_methods(&self) -> Set<Seq<char>> {
        strings_of(self.restricted_methods@)
    }

    /// The authorized users.
    pub closed spec fn users(&self) -> Set<Seq<char>> {
        Set::new(
            |p: Seq<char>|
                exists|i: int| 0 <= i < self.authorized_users@.len() && self.authorized_users@[i]@ == p,
        )
    }

    /// A gateway owned by `owner_id`, with no authorized users, that sends
    /// requests to the testnet signing service.
    pub fn new(owner_id: AccountId, state_exists: bool) -> (r: Result<ProxyContract, ProxyError>)
        ensures
            state_exists ==> (r matches Err(ProxyError::AlreadyInitialized)),
            !state_exists ==> r is Ok,
            r matches Ok(c) ==> c.well_formed() && c.owner() == owner_id@ && c.signer() == "v1.signer-prod.testnet"@
                && c.users() == Set::<Seq<char>>::empty()
                && c.allowed_contracts() == default_allowed_contracts()
                && texts_of(c.allowed_contract_list()) == seq!["wrap.near"@, "intents.near"@]
                && c.restricted_methods() == default_restricted_methods(),
    {
        if state_exists {
            return Err(ProxyError::AlreadyInitialized);
        }
        proof {
            lemma_testnet_signer_ok();
        }
        match AccountId::parse("v1.signer-prod.testnet") {
            Some(signer_contract) => {
                let mut allowed_contracts: Vec<String> = Vec::new();
                allowed_contracts.push(String::from_str("wrap.near"));
                allowed_contracts.push(String::from_str("intents.near"));
                let mut restricted_methods: Vec<String> = Vec::new();
                restricted_methods.push(String::from_str("deposit"));
                restricted_methods.push(String::from_str("add_public_key"));
                proof {
                    lemma_strings_of_pair(allowed_contracts@);
                    lemma_strings_of_pair(restricted_methods@);
                }
                let c = ProxyContract {
                    owner_id,
                    authorized_users: Vec::new(),
                    signer_contract,
                    allowed_contracts,
                    restricted_methods,
                };
                assert(c.users() =~= Set::<Seq<char>>::empty());
                Ok(c)
            },
            None => Err(ProxyError::InvalidAccountId),
        }
    }

    /// Fails with `NotOwner` unless `caller` is the owner.
    pub fn assert_owner(&self, caller: &AccountId) -> (r: Result<(), ProxyError>)
        ensures
            r is Ok <==> caller@ == self.owner(),
            r is Err ==> (r matches Err(ProxyError::NotOwner)),
    {
        if caller.equals(&self.owner_id) {
            Ok(())
        } else {
            Err(ProxyError::NotOwner)
        }
    }

    /// Replaces the signing service; owner only.
    pub fn set_signer_contract(&mut self, caller: &AccountId, new_signer: AccountId) -> (r: Result<
        (),
        ProxyError,
    >)
        requires
            old(self).well_formed(),
        ensures
            final(self).well_formed(),
            r is Ok <==> caller@ == old(self).owner(),
            r is Err ==> (r matches Err(ProxyError::NotOwner)),
            r is Err ==> *final(self) == *old(self),
            r is Ok ==> final(self).signer() == new_signer@,
            final(self).allowed_contract_list() == old(self).allowed_contract_list(),
            final(self).restricted_methods() == old(self).restricted_methods(),
            r is Ok ==> final(self).owner() == old(self).owner(),
            r is Ok ==> final(self).users() == old(self).users(),
    {
        match self.assert_owner(caller) {
            Err(e) => Err(e),
            Ok(()) => {
                self.signer_contract = new_signer;
                Ok(())
            },
        }
    }

    /// The owner.
    pub fn get_owner(&self) -> (r: AccountId)
        ensures
            r@ == self.owner(),
    {
        self.owner_id.duplicate()
    }

    /// The signing service that requests go to.
    pub fn get_signer_contract(&self) -> (r: AccountId)
        ensures
            r@ == self.signer(),
    {
        self.signer_contract.duplicate()
    }

    /// The position of `account_id` among the authorized users.
    fn find_user(&self, account_id: &AccountId) -> (r: Option<usize>)
        ensures
            r is Some <==> self.users().contains(account_id@),
            r matches Some(i) ==> i < self.authorized_users@.len()
                && self.authorized_users@[i as int]@ == account_id@,
    {
        let mut i: usize = 0;
        while i < self.authorized_users.len()
            invariant
                i <= self.authorized_users@.len(),
                forall|k: int| 0 <= k < i ==> self.authorized_users@[k]@ != account_id@,
            decreases self.authorized_users@.len() - i,
        {
            if self.authorized_users[i].equals(account_id) {
                return Some(i);
            }
            i = i + 1;
        }
        None
    }

    /// Whether `account_id` is an authorized user.
    pub fn is_authorized(&self, account_id: AccountId) -> (r: bool)
        ensures
            r == self.users().contains(account_id@),
    {
        self.find_user(&account_id).is_some()
    }

    /// Adds an authorized user; owner only. Adding a present user changes
    /// nothing.
    pub fn add_authorized_user(&mut self, caller: &AccountId, account_id: AccountId) -> (r: Result<
        (),
        ProxyError,
    >)
        requires
            old(self).well_formed(),
        ensures
            final(self).well_formed(),
            r is Ok <==> caller@ == old(self).owner(),
            r is Err ==> (r matches Err(ProxyError::NotOwner)),
            r is Err ==> *final(self) == *old(self),
            r is Ok ==> final(self).users() == old(self).users().insert(account_id@),
            final(self).allowed_contract_list() == old(self).allowed_contract_list(),
            final(self).restricted_methods() == old(self).restricted_methods(),
            r is Ok ==> final(self).owner() == old(self).owner(),
            r is Ok ==> final(self).signer() == old(self).signer(),
    {
        match self.assert_owner(caller) {
            Err(e) => Err(e),
            Ok(()) => {
                if self.find_user(&account_id).is_none() {
                    let ghost before = self.authorized_users@;
                    let ghost a = account_id@;
                    self.authorized_users.push(account_id);
                    assert(self.authorized_users@ == before.push(self.authorized_users@.last()));
                    assert(self.users() =~= old(self).users().insert(a)) by {
                        assert forall|p: Seq<char>| #[trigger]
                            self.users().contains(p) implies old(self).users().insert(a).contains(
                            p,
                        ) by {
                            let i = choose|i: int|
                                0 <= i < self.authorized_users@.len()
                                    && self.authorized_users@[i]@ == p;
                            if i < before.len() {
                                assert(before[i] == self.authorized_users@[i]);
                            }
                        }
                        assert forall|p: Seq<char>| #[trigger]
                            old(self).users().insert(a).contains(p) implies self.users().contains(
                            p,
                        ) by {
                            if p != a {
                                let i = choose|i: int| 0 <= i < before.len() && before[i]@ == p;
                                assert(self.authorized_users@[i] == before[i]);
                            } else {
                                assert(self.authorized_users@[before.len() as int]@ == a);
                            }
                        }
                    }
                } else {
                    assert(self.users() =~= old(self).users().insert(account_id@));
                }
                Ok(())
            },
        }
    }
    /// Removes an authorized user; owner only. Removing an absent user
    /// changes nothing.
    pub fn remove_authorized_user(&mut self, caller: &AccountId, account_id: AccountId) -> (r:
        Result<(), ProxyError>)
        requires
            old(self).well_formed(),
        ensures
            final(self).well_formed(),
            r is Ok <==> caller@ == old(self).owner(),
            r is Err ==> (r matches Err(ProxyError::NotOwner)),
            r is Err ==> *final(self) == *old(self),
            r is Ok ==> final(self).users() == old(self).users().remove(account_id@),
            final(self).allowed_contract_list() == old(self).allowed_contract_list(),
            final(self).restricted_methods() == old(self).restricted_methods(),
            r is Ok ==> final(self).owner() == old(self).owner(),
            r is Ok ==> final(self).signer() == old(self).signer(),
    {
        match self.assert_owner(caller) {
            Err(e) => Err(e),
            Ok(()) => {
                match self.find_user(&account_id) {
                    None => {
                        assert(self.users() =~= old(self).users().remove(account_id@));
                    },
                    Some(i) => {
                        let ghost before = self.authorized_users@;
                        let ghost a = account_id@;
                        let _gone = self.authorized_users.remove(i);
                        assert(self.authorized_users@ == before.remove(i as int));
                        assert(self.users() =~= old(self).users().remove(a)) by {
                            assert forall|p: Seq<char>| #[trigger]
                                self.users().contains(p) implies old(self).users().remove(
                                a,
                            ).contains(p) by {
                                let k = choose|k: int|
                                    0 <= k < self.authorized_users@.len()
                                        && self.authorized_users@[k]@ == p;
                                if k < i {
                                    assert(self.authorized_users@[k] == before[k]);
                                    assert(before[k]@ != before[i as int]@);
                                } else {
                                    assert(self.authorized_users@[k] == before[k + 1]);
                                    assert(before[k + 1]@ != before[i as int]@);
                                }
                            }
                            assert forall|p: Seq<char>| #[trigger]
                                old(self).users().remove(a).contains(p) implies self.users().contains(
                                p,
                            ) by {
                                let k = choose|k: int| 0 <= k < before.len() && before[k]@ == p;
                                if k < i {
                                    assert(self.authorized_users@[k] == before[k]);
                                } else {
                                    assert(k != i);
                                    assert(self.authorized_users@[k - 1] == before[k]);
                                }
                            }
                        }
                    },
                }
                Ok(())
            },
        }
    }

    /// The authorized users, each once, in no particular order.
    pub fn get_authorized_users(&self) -> (r: Vec<AccountId>)
        requires
            self.well_formed(),
        ensures
            r@.len() == self.users().len(),
            forall|p: Seq<char>| #[trigger]
                self.users().contains(p) <==> exists|i: int| 0 <= i < r@.len() && r@[i]@ == p,
            forall|i: int, j: int| 0 <= i < j < r@.len() ==> r@[i]@ != r@[j]@,
    {
        let mut r: Vec<AccountId> = Vec::new();
        let mut i: usize = 0;
        while i < self.authorized_users.len()
            invariant
                i <= self.authorized_users@.len(),
                r@.len() == i,
                forall|k: int| 0 <= k < i ==> r@[k]@ == self.authorized_users@[k]@,
            decreases self.authorized_users@.len() - i,
        {
            r.push(self.authorized_users[i].duplicate());
            i = i + 1;
        }
        proof {
            lemma_users_len(self.authorized_users@, self.users());
            assert forall|p: Seq<char>| #[trigger]
                self.users().contains(p) <==> exists|i: int| 0 <= i < r@.len() && r@[i]@ == p by {
                if self.users().contains(p) {
                    let i = choose|i: int|
                        0 <= i < self.authorized_users@.len() && self.authorized_users@[i]@ == p;
                    assert(r@[i]@ == p);
                }
                if exists|i: int| 0 <= i < r@.len() && r@[i]@ == p {
                    let i = choose|i: int| 0 <= i < r@.len() && r@[i]@ == p;
                    assert(self.authorized_users@[i]@ == p);
                }
            }
        }
        r
    }

    /// Checks an action against the allow-lists: the contract first, then the
    /// method; the first violation is reported.
    pub fn assert_action_allowed(&self, action: &NearAction) -> (r: Result<(), ProxyError>)
        ensures
            !self.allowed_contracts().contains(action.contract_id@) ==> (r matches Err(
                ProxyError::ContractNotAllowed(c, p),
            ) && c@ == action.contract_id@ && p@ == self.allowed_contract_list()),
            self.allowed_contracts().contains(action.contract_id@)
                && self.restricted_methods().contains(action.method_name@) ==> (r matches Err(
                ProxyError::MethodRestricted(m),
            ) && m@ == action.method_name@),
            self.allowed_contracts().contains(action.contract_id@)
                && !self.restricted_methods().contains(action.method_name@) ==> r is Ok,
    {
        let contract = action.contract_id.to_string();
        if !contains_string(&self.allowed_contracts, &contract) {
            return Err(ProxyError::ContractNotAllowed(contract, copy_strings(&self.allowed_contracts)));
        }
        if contains_string(&self.restricted_methods, &action.method_name) {
            return Err(ProxyError::MethodRestricted(action.method_name.clone()));
        }
        Ok(())
    }

    /// The 32 bytes of an ED25519 key given with its curve tag; any other key
    /// is refused.
    pub fn convert_pk_to_omni(pk: &Vec<u8>) -> (r: Result<[u8; 32], ProxyError>)
        ensures
            ed25519_key(pk@) matches Some(k) ==> (r matches Ok(b) && b@ == k),
            ed25519_key(pk@) is None ==> (r matches Err(ProxyError::UnsupportedCurve)),
    {
        if pk.len() != 33 || pk[0] != ED25519_TAG {
            return Err(ProxyError::UnsupportedCurve);
        }
        let mut key: [u8; 32] = [0u8; 32];
        let mut i: usize = 0;
        while i < 32
            invariant
                i <= 32,
                pk@.len() == 33,
                forall|k: int| 0 <= k < i ==> key@[k] == pk@[k + 1],
            decreases 32 - i,
        {
            key[i] = pk[i + 1];
            i = i + 1;
        }
        assert(key@ =~= pk@.subrange(1, 33));
        Ok(key)
    }

    /// The derivation path of a key given with its curve tag:
    /// `ed25519:` or `secp256k1:`, then the key bytes in base58.
    pub fn public_key_to_string(public_key: &Vec<u8>) -> (r: Result<String, ProxyError>)
        ensures
            key_path(public_key@) matches Some(p) ==> (r matches Ok(s) && s@ == p),
            r matches Ok(s) ==> encode_utf8(s@).len() <= 10 + 2 * public_key@.len(),
            key_path(public_key@) is None ==> (r matches Err(ProxyError::UnsupportedCurve)),
    {
        if public_key.len() == 0 {
            return Err(ProxyError::UnsupportedCurve);
        }
        let tag = public_key[0];
        if tag != ED25519_TAG && tag != SECP256K1_TAG {
            return Err(ProxyError::UnsupportedCurve);
        }
        let mut data: Vec<u8> = Vec::new();
        let mut i: usize = 1;
        while i < public_key.len()
            invariant
                1 <= i <= public_key@.len(),
                data@ == public_key@.subrange(1, i as int),
            decreases public_key@.len() - i,
        {
            data.push(public_key[i]);
            i = i + 1;
        }
        assert(data@ =~= public_key@.drop_first());
        let encoded = base58(&data);
        let mut path = if tag == ED25519_TAG {
            String::from_str("ed25519:")
        } else {
            String::from_str("secp256k1:")
        };
        path.append(encoded.as_str());
        proof {
            reveal_strlit("ed25519:");
            reveal_strlit("secp256k1:");
            let prefix = if tag == ED25519_TAG { "ed25519:"@ } else { "secp256k1:"@ };
            assert(path@ == prefix + encoded@);
            assert forall|i: int| 0 <= i < path@.len() implies (#[trigger] path@[i] as u32) < 128 by {
                if i >= prefix.len() {
                    assert(path@[i] == encoded@[i - prefix.len()]);
                }
            }
            lemma_ascii_utf8_len(path@);
        }
        Ok(path)
    }

    /// Replaces the action policy; owner only.
    pub fn set_action_policy(
        &mut self,
        caller: &AccountId,
        allowed_contracts: Vec<String>,
        restricted_methods: Vec<String>,
    ) -> (r: Result<(), ProxyError>)
        requires
            old(self).well_formed(),
        ensures
            final(self).well_formed(),
            r is Ok <==> caller@ == old(self).owner(),
            r is Err ==> (r matches Err(ProxyError::NotOwner)),
            r is Err ==> *final(self) == *old(self),
            r is Ok ==> final(self).allowed_contract_list() == allowed_contracts@,
            r is Ok ==> final(self).restricted_methods() == strings_of(restricted_methods@),
            r is Ok ==> final(self).owner() == old(self).owner(),
            r is Ok ==> final(self).signer() == old(self).signer(),
            r is Ok ==> final(self).users() == old(self).users(),
    {
        match self.assert_owner(caller) {
            Err(e) => Err(e),
            Ok(()) => {
                self.allowed_contracts = allowed_contracts;
                self.restricted_methods = restricted_methods;
                Ok(())
            },
        }
    }

    /// Contracts that actions may target.
    pub fn get_allowed_contracts(&self) -> (r: Vec<String>)
        ensures
            strings_of(r@) == self.allowed_contracts(),
    {
        copy_strings(&self.allowed_contracts)
    }

    /// Methods that actions may not call.
    pub fn get_restricted_methods(&self) -> (r: Vec<String>)
        ensures
            strings_of(r@) == self.restricted_methods(),
    {
        copy_strings(&self.restricted_methods)
    }

    /// Whether a call passes the gas and the authorization checks.
    pub open spec fn admits(&self, ctx: &CallContext) -> bool {
        ctx.prepaid_gas >= GAS_FOR_REQUEST_SIGNATURE && self.users().contains(
            ctx.predecessor_account_id@,
        )
    }

    /// Checks the prepaid gas, the caller and the action, encodes the
    /// transaction from the owner to `contract_id`, hashes it, and returns the
    /// `sign` call to make on the signing service, with the caller's deposit.
    pub fn request_signature(
        &mut self,
        ctx: &CallContext,
        contract_id: AccountId,
        method_name: String,
        args: Vec<u8>,
        gas: u64,
        deposit: u128,
        nonce: u64,
        block_hash: [u8; 32],
    ) -> (r: Result<ForwardCall, ProxyError>)
        ensures
            *final(self) == *old(self),
            ctx.prepaid_gas < GAS_FOR_REQUEST_SIGNATURE ==> (r matches Err(
                ProxyError::InsufficientGas,
            )),
            ctx.prepaid_gas >= GAS_FOR_REQUEST_SIGNATURE && !old(self).users().contains(
                ctx.predecessor_account_id@,
            ) ==> (r matches Err(ProxyError::Unauthorized)),
            old(self).admits(ctx) && !old(self).allowed_contracts().contains(contract_id@) ==> (r matches Err(
                ProxyError::ContractNotAllowed(c, p),
            ) && c@ == contract_id@ && p@ == old(self).allowed_contract_list()),
            old(self).admits(ctx) && old(self).allowed_contracts().contains(contract_id@) && old(self).restricted_methods().contains(method_name@) ==> (r matches Err(ProxyError::MethodRestricted(m)) && m@ == method_name@),
            old(self).admits(ctx) && old(self).allowed_contracts().contains(contract_id@) && !old(self).restricted_methods().contains(method_name@) && ed25519_key(ctx.signer_account_pk@) is None ==> (r matches Err(
                ProxyError::UnsupportedCurve,
            )),
            old(self).admits(ctx) && old(self).allowed_contracts().contains(contract_id@) && !old(self).restricted_methods().contains(method_name@) && ed25519_key(ctx.signer_account_pk@) is Some && !encodable(method_name@, args@) ==> (r matches Err(ProxyError::SerializationFailure)),
            old(self).admits(ctx) && old(self).allowed_contracts().contains(contract_id@) && !old(self).restricted_methods().contains(method_name@) && ed25519_key(ctx.signer_account_pk@) is Some && encodable(method_name@, args@) ==> (r matches Ok(call) && call.receiver_id@ == old(self).signer()
                && call.method_name@ == "sign"@ && call.deposit == ctx.attached_deposit
                && call.gas == GAS_FOR_REQUEST_SIGNATURE && call.args@ == sign_request_encoding(
                request_payload(
                    old(self).owner(),
                    ed25519_key(ctx.signer_account_pk@)->0,
                    nonce,
                    contract_id@,
                    block_hash@,
                    method_name@,
                    args@,
                    gas,
                    deposit,
                ),
                key_path(ctx.signer_account_pk@)->0,
                0,
            )),
    {
        if ctx.prepaid_gas < GAS_FOR_REQUEST_SIGNATURE {
            return Err(ProxyError::InsufficientGas);
        }
        if self.find_user(&ctx.predecessor_account_id).is_none() {
            return Err(ProxyError::Unauthorized);
        }
        let action = NearAction {
            method_name: method_name.clone(),
            contract_id: contract_id.duplicate(),
            gas_attached: gas,
            deposit_attached: deposit,
        };
        if let Err(e) = self.assert_action_allowed(&action) {
            return Err(e);
        }
        let key = match ProxyContract::convert_pk_to_omni(&ctx.signer_account_pk) {
            Ok(k) => k,
            Err(e) => return Err(e),
        };
        let path = match ProxyContract::public_key_to_string(&ctx.signer_account_pk) {
            Ok(p) => p,
            Err(e) => return Err(e),
        };
        let limit = u32::MAX as usize;
        if !(utf8_len(method_name.as_str()) <= limit && args.len() <= limit) {
            return Err(ProxyError::SerializationFailure);
        }
        // Both identifiers are well-formed, so their lengths fit as well.
        let _owner = self.owner_id.as_str();
        let _receiver = contract_id.as_str();
        let tx = near_transaction_bytes(
            &self.owner_id,
            key,
            nonce,
            &contract_id,
            block_hash,
            &method_name,
            &args,
            gas,
            deposit,
        );
        let hashed_payload = hash_payload(&tx);
        let request = SignRequest {
            payload: digest_to_vec(&hashed_payload),
            path,
            key_version: 0,
        };
        let request_bytes = match serialize_sign_request(&request) {
            Some(b) => b,
            None => return Err(ProxyError::SerializationFailure),
        };
        Ok(
            ForwardCall {
                receiver_id: self.signer_contract.duplicate(),
                method_name: String::from_str("sign"),
                args: request_bytes,
                deposit: ctx.attached_deposit,
                gas: GAS_FOR_REQUEST_SIGNATURE,
            },
        )
    }

    /// The profile that trusts a caller-supplied digest: the same gas,
    /// caller and action checks as `request_signature`, then `payload` is
    /// forwarded for signing as it is, with the path of the signer's key.
    /// Nothing ties the digest to the checked action.
    pub fn request_signature_prehashed(
        &mut self,
        ctx: &CallContext,
        contract_id: AccountId,
        method_name: String,
        payload: [u8; 32],
    ) -> (r: Result<ForwardCall, ProxyError>)
        ensures
            *final(self) == *old(self),
            ctx.prepaid_gas < GAS_FOR_REQUEST_SIGNATURE ==> (r matches Err(
                ProxyError::InsufficientGas,
            )),
            ctx.prepaid_gas >= GAS_FOR_REQUEST_SIGNATURE && !old(self).users().contains(
                ctx.predecessor_account_id@,
            ) ==> (r matches Err(ProxyError::Unauthorized)),
            old(self).admits(ctx) && !old(self).allowed_contracts().contains(contract_id@) ==> (r matches Err(
                ProxyError::ContractNotAllowed(c, p),
            ) && c@ == contract_id@ && p@ == old(self).allowed_contract_list()),
            old(self).admits(ctx) && old(self).allowed_contracts().contains(contract_id@) && old(self).restricted_methods().contains(method_name@) ==> (r matches Err(ProxyError::MethodRestricted(m)) && m@ == method_name@),
            old(self).admits(ctx) && old(self).allowed_contracts().contains(contract_id@) && !old(self).restricted_methods().contains(method_name@) && key_path(ctx.signer_account_pk@) is None ==> (r matches Err(
                ProxyError::UnsupportedCurve,
            )),
            old(self).admits(ctx) && old(self).allowed_contracts().contains(contract_id@) && !old(self).restricted_methods().contains(method_name@) && key_path(ctx.signer_account_pk@) is Some && !fits_u32(
                encode_utf8(key_path(ctx.signer_account_pk@)->0),
            ) ==> (r matches Err(ProxyError::SerializationFailure)),
            old(self).admits(ctx) && old(self).allowed_contracts().contains(contract_id@) && !old(self).restricted_methods().contains(method_name@) && key_path(ctx.signer_account_pk@) is Some && fits_u32(
                encode_utf8(key_path(ctx.signer_account_pk@)->0),
            ) ==> (r matches Ok(call) && call.receiver_id@ == old(self).signer()
                && call.method_name@ == "sign"@ && call.deposit == ctx.attached_deposit
                && call.gas == GAS_FOR_REQUEST_SIGNATURE && call.args@ == sign_request_encoding(
                payload@,
                key_path(ctx.signer_account_pk@)->0,
                0,
            )),
    {
        if ctx.prepaid_gas < GAS_FOR_REQUEST_SIGNATURE {
            return Err(ProxyError::InsufficientGas);
        }
        if self.find_user(&ctx.predecessor_account_id).is_none() {
            return Err(ProxyError::Unauthorized);
        }
        let action = NearAction {
            method_name,
            contract_id,
            gas_attached: 0,
            deposit_attached: 0,
        };
        if let Err(e) = self.assert_action_allowed(&action) {
            return Err(e);
        }
        let path = match ProxyContract::public_key_to_string(&ctx.signer_account_pk) {
            Ok(p) => p,
            Err(e) => return Err(e),
        };
        let request = SignRequest { payload: digest_to_vec(&payload), path, key_version: 0 };
        let request_bytes = match serialize_sign_request(&request) {
            Some(b) => b,
            None => return Err(ProxyError::SerializationFailure),
        };
        Ok(
            ForwardCall {
                receiver_id: self.signer_contract.duplicate(),
                method_name: String::from_str("sign"),
                args: request_bytes,
                deposit: ctx.attached_deposit,
                gas: GAS_FOR_REQUEST_SIGNATURE,
            },
        )
    }

}

} // verus!
