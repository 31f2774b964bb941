//! Properties of the gateway that relate several calls.
use vstd::prelude::*;
use crate::contract::{
    default_allowed_contracts, default_restricted_methods, error_message, joined, request_payload,
    texts_of, ProxyError,
};

verus! {

/// The authorized users after a history of owner calls on a fresh gateway:
/// `(true, p)` adds `p`, `(false, p)` removes it.
pub open spec fn users_after(ops: Seq<(bool, Seq<char>)>) -> Set<Seq<char>>
    decreases ops.len(),
{
    if ops.len() == 0 {
        Set::empty()
    } else {
        let (adds, p) = ops.last();
        if adds {
            users_after(ops.drop_last()).insert(p)
        } else {
            users_after(ops.drop_last()).remove(p)
        }
    }
}

/// Whether the last call of the history that names `p` added it.
pub open spec fn last_named_adds(ops: Seq<(bool, Seq<char>)>, p: Seq<char>) -> bool
    decreases ops.len(),
{
    if ops.len() == 0 {
        false
    } else if ops.last().1 == p {
        ops.last().0
    } else {
        last_named_adds(ops.drop_last(), p)
    }
}

/// A principal is authorized exactly when it was added and not removed
/// since.
pub proof fn lemma_authorized_iff_added_not_removed(ops: Seq<(bool, Seq<char>)>, p: Seq<char>)
    ensures
        users_after(ops).contains(p) == last_named_adds(ops, p),
    decreases ops.len(),
{
    if ops.len() > 0 {
        lemma_authorized_iff_added_not_removed(ops.drop_last(), p);
    }
}

/// The users seen after `new` and after each successful add or remove,
/// whose contracts give exactly these steps, are those of `users_after`: a
/// principal is authorized exactly when the last call naming it added it.
pub proof fn lemma_history_membership(states: Seq<Set<Seq<char>>>, ops: Seq<(bool, Seq<char>)>)
    requires
        states.len() == ops.len() + 1,
        states[0] == Set::<Seq<char>>::empty(),
        forall|k: int|
            0 <= k < ops.len() ==> #[trigger] states[k + 1] == (if ops[k].0 {
                states[k].insert(ops[k].1)
            } else {
                states[k].remove(ops[k].1)
            }),
    ensures
        states.last() == users_after(ops),
        forall|p: Seq<char>| #[trigger] states.last().contains(p) == last_named_adds(ops, p),
    decreases ops.len(),
{
    if ops.len() > 0 {
        let n = ops.len() - 1;
        assert forall|k: int| 0 <= k < ops.drop_last().len() implies #[trigger] states.drop_last()[k
            + 1] == (if ops.drop_last()[k].0 {
            states.drop_last()[k].insert(ops.drop_last()[k].1)
        } else {
            states.drop_last()[k].remove(ops.drop_last()[k].1)
        }) by {
            assert(states[k + 1] == states.drop_last()[k + 1]);
        }
        lemma_history_membership(states.drop_last(), ops.drop_last());
        assert(states[n + 1] == states.last());
    }
    assert forall|p: Seq<char>| #[trigger] states.last().contains(p) == last_named_adds(ops, p) by {
        lemma_authorized_iff_added_not_removed(ops, p);
    }
}

/// Adding a user twice is adding it once.
pub proof fn lemma_add_idempotent(users: Set<Seq<char>>, p: Seq<char>)
    ensures
        users.insert(p).insert(p) == users.insert(p),
{
    assert(users.insert(p).insert(p) =~= users.insert(p));
}

/// Removing a user twice is removing it once.
pub proof fn lemma_remove_idempotent(users: Set<Seq<char>>, p: Seq<char>)
    ensures
        users.remove(p).remove(p) == users.remove(p),
{
    assert(users.remove(p).remove(p) =~= users.remove(p));
}

/// Adding a user after removing it makes it a member again, and leaves the
/// others as they were.
pub proof fn lemma_readd_restores(users: Set<Seq<char>>, p: Seq<char>)
    ensures
        users.remove(p).insert(p).contains(p),
        users.remove(p).insert(p) == users.insert(p),
{
    assert(users.remove(p).insert(p) =~= users.insert(p));
}

/// Under the policy a gateway starts with, which only the owner can change,
/// actions may target exactly `wrap.near` and `intents.near`, and may call
/// any method but `deposit` and `add_public_key`.
pub proof fn lemma_default_policy(c: Seq<char>, m: Seq<char>)
    ensures
        default_allowed_contracts().contains(c) <==> (c == "wrap.near"@ || c == "intents.near"@),
        default_restricted_methods().contains(m) <==> (m == "deposit"@ || m == "add_public_key"@),
{
}

/// Under the contracts a gateway starts with, a refused contract `c` is
/// reported as "Contract c is not allowed. Only wrap.near and intents.near
/// are permitted".
pub proof fn lemma_default_refusal_message(c: String, permitted: Vec<String>)
    requires
        texts_of(permitted@) == seq!["wrap.near"@, "intents.near"@],
    ensures
        error_message(ProxyError::ContractNotAllowed(c, permitted)) == "Contract "@ + c@
            + " is not allowed. Only wrap.near and intents.near are permitted"@,
{
    let t = texts_of(permitted@);
    assert(t.drop_last() =~= seq!["wrap.near"@]);
    assert(joined(t.drop_last()) == "wrap.near"@);
    assert(joined(t) == "wrap.near"@ + " and "@ + "intents.near"@);
    reveal_strlit(" is not allowed. Only ");
    reveal_strlit("wrap.near");
    reveal_strlit(" and ");
    reveal_strlit("intents.near");
    reveal_strlit(" are permitted");
    reveal_strlit(" is not allowed. Only wrap.near and intents.near are permitted");
    assert(" is not allowed. Only "@ + ("wrap.near"@ + " and "@ + "intents.near"@) + " are permitted"@
        =~= " is not allowed. Only wrap.near and intents.near are permitted"@);
    assert(error_message(ProxyError::ContractNotAllowed(c, permitted)) =~= "Contract "@ + c@
        + " is not allowed. Only wrap.near and intents.near are permitted"@);
}

/// The digest of a request depends on the transaction's fields alone: equal
/// fields give byte-identical 32-byte inputs to the signer.
pub proof fn lemma_digest_deterministic(
    owner: Seq<char>,
    key: Seq<u8>,
    nonce: u64,
    contract_id: Seq<char>,
    block_hash: Seq<u8>,
    method_name: Seq<char>,
    args: Seq<u8>,
    gas: u64,
    deposit: u128,
    owner2: Seq<char>,
    key2: Seq<u8>,
    nonce2: u64,
    contract_id2: Seq<char>,
    block_hash2: Seq<u8>,
    method_name2: Seq<char>,
    args2: Seq<u8>,
    gas2: u64,
    deposit2: u128,
)
    requires
        owner == owner2,
        key == key2,
        nonce == nonce2,
        contract_id == contract_id2,
        block_hash == block_hash2,
        method_name == method_name2,
        args == args2,
        gas == gas2,
        deposit == deposit2,
    ensures
        request_payload(owner, key, nonce, contract_id, block_hash, method_name, args, gas, deposit)
            == request_payload(
            owner2,
            key2,
            nonce2,
            contract_id2,
            block_hash2,
            method_name2,
            args2,
            gas2,
            deposit2,
        ),
{
}

} // verus!
