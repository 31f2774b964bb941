use proxy_contract::account::AccountId;
use proxy_contract::contract::{
    CallContext, ForwardCall, NearAction, ProxyContract, ProxyError, GAS_FOR_REQUEST_SIGNATURE,
};
use sha2::Digest;

const TGAS: u64 = 1_000_000_000_000;
const ONE_NEAR: u128 = 1_000_000_000_000_000_000_000_000;

fn accounts(i: usize) -> AccountId {
    let names = ["alice", "bob", "charlie", "danny", "eugene", "fargo"];
    AccountId::parse(names[i]).unwrap()
}

fn id(s: &str) -> AccountId {
    AccountId::parse(s).unwrap()
}

fn ed25519_pk(fill: u8) -> Vec<u8> {
    let mut pk = vec![0u8];
    pk.extend_from_slice(&[fill; 32]);
    pk
}

fn context(predecessor: AccountId) -> CallContext {
    CallContext {
        predecessor_account_id: predecessor,
        signer_account_pk: ed25519_pk(7),
        prepaid_gas: 300 * TGAS,
        attached_deposit: 0,
    }
}

fn le32(n: usize) -> Vec<u8> {
    (n as u32).to_le_bytes().to_vec()
}

fn framed(b: &[u8]) -> Vec<u8> {
    let mut v = le32(b.len());
    v.extend_from_slice(b);
    v
}

fn request(
    contract: &mut ProxyContract,
    ctx: &CallContext,
    contract_id: AccountId,
    method: &str,
) -> Result<ForwardCall, ProxyError> {
    contract.request_signature(
        ctx,
        contract_id,
        method.to_string(),
        vec![1, 2, 3],
        10 * TGAS,
        ONE_NEAR,
        1,
        [0u8; 32],
    )
}

#[test]
fn test_new() {
    let contract = ProxyContract::new(accounts(1), false).unwrap();
    let owner = accounts(1);
    assert!(contract.assert_owner(&owner).is_ok());
    assert_eq!(contract.get_signer_contract().as_str(), "v1.signer-prod.testnet");
    assert!(contract.get_authorized_users().is_empty());
}

#[test]
fn new_fails_when_state_exists() {
    let r = ProxyContract::new(accounts(1), true);
    assert!(matches!(r, Err(ProxyError::AlreadyInitialized)));
}

#[test]
fn test_authorize_user() {
    let mut contract = ProxyContract::new(accounts(1), false).unwrap();
    contract.add_authorized_user(&accounts(1), accounts(2)).unwrap();
    assert!(contract.is_authorized(accounts(2)));
}

#[test]
fn auth_proxy_test_remove_authorized_user() {
    let mut contract = ProxyContract::new(accounts(1), false).unwrap();
    contract.add_authorized_user(&accounts(1), accounts(2)).unwrap();
    assert!(contract.is_authorized(accounts(2)));
    contract.remove_authorized_user(&accounts(1), accounts(2)).unwrap();
    assert!(!contract.is_authorized(accounts(2)));
}

#[test]
fn test_unauthorized_add_user() {
    let mut contract = ProxyContract::new(accounts(1), false).unwrap();
    let r = contract.add_authorized_user(&accounts(2), accounts(3));
    assert!(matches!(r, Err(ProxyError::NotOwner)));
    assert!(!contract.is_authorized(accounts(3)));
}

#[test]
fn auth_proxy_test_get_authorized_users() {
    let mut contract = ProxyContract::new(accounts(1), false).unwrap();
    contract.add_authorized_user(&accounts(1), accounts(2)).unwrap();
    contract.add_authorized_user(&accounts(1), accounts(3)).unwrap();
    let users = contract.get_authorized_users();
    assert_eq!(users.len(), 2);
    assert!(users.contains(&accounts(2)));
    assert!(users.contains(&accounts(3)));
}

#[test]
fn auth_proxy_test_set_signer_contract() {
    let mut contract = ProxyContract::new(accounts(1), false).unwrap();
    contract.set_signer_contract(&accounts(1), accounts(2)).unwrap();
    assert_eq!(contract.get_signer_contract(), accounts(2));
}

#[test]
fn test_unauthorized_set_signer() {
    let mut contract = ProxyContract::new(accounts(1), false).unwrap();
    let r = contract.set_signer_contract(&accounts(2), accounts(3));
    assert!(matches!(r, Err(ProxyError::NotOwner)));
    assert_eq!(contract.get_signer_contract().as_str(), "v1.signer-prod.testnet");
}

#[test]
fn test_unauthorized_request_signature() {
    let mut contract = ProxyContract::new(accounts(1), false).unwrap();
    let r = request(&mut contract, &context(accounts(2)), accounts(3), "test_method");
    assert!(matches!(r, Err(ProxyError::Unauthorized)));
}

#[test]
fn test_disallowed_action() {
    let mut contract = ProxyContract::new(accounts(1), false).unwrap();
    contract.add_authorized_user(&accounts(1), accounts(2)).unwrap();
    let r = request(&mut contract, &context(accounts(2)), accounts(3), "test_method");
    match r {
        Err(e) => {
            assert!(matches!(&e, ProxyError::ContractNotAllowed(c, _) if c.as_str() == "danny"));
            assert!(e
                .message()
                .contains("danny is not allowed. Only wrap.near and intents.near are permitted"));
        }
        Ok(_) => panic!("expected a refused contract"),
    }
}

#[test]
fn test_successful_request_signature() {
    let mut contract = ProxyContract::new(accounts(1), false).unwrap();
    contract.add_authorized_user(&accounts(1), accounts(2)).unwrap();
    let r = request(&mut contract, &context(accounts(2)), id("wrap.near"), "ft_transfer");
    assert!(r.is_ok());
}

#[test]
fn test_add_authorized_user() {
    let mut contract = ProxyContract::new(accounts(0), false).unwrap();
    let user = id("dev-20240101-user.test.near");
    contract.add_authorized_user(&accounts(0), id("dev-20240101-user.test.near")).unwrap();
    assert!(contract.is_authorized(user), "New user should be authorized");
}

#[test]
fn proxy_test_test_remove_authorized_user() {
    let mut contract = ProxyContract::new(accounts(0), false).unwrap();
    contract.add_authorized_user(&accounts(0), id("user.test.near")).unwrap();
    contract.remove_authorized_user(&accounts(0), id("user.test.near")).unwrap();
    assert!(!contract.is_authorized(id("user.test.near")), "User should no longer be authorized");
}

#[test]
fn test_request_signature_unauthorized() {
    let mut contract = ProxyContract::new(accounts(0), false).unwrap();
    let ctx = CallContext {
        predecessor_account_id: id("unauthorized.test.near"),
        signer_account_pk: ed25519_pk(1),
        prepaid_gas: 200 * TGAS,
        attached_deposit: 0,
    };
    let r = contract.request_signature(
        &ctx,
        id("test.near"),
        "test_method".to_string(),
        vec![1, 2, 3],
        30_000_000_000_000,
        0,
        1,
        [0u8; 32],
    );
    assert!(matches!(r, Err(ProxyError::Unauthorized)));
}

#[test]
fn proxy_test_test_set_signer_contract() {
    let mut contract = ProxyContract::new(accounts(0), false).unwrap();
    let new_signer = "new-signer.near".to_string();
    contract.set_signer_contract(&accounts(0), id("new-signer.near")).unwrap();
    assert_eq!(
        contract.get_signer_contract().to_string(),
        new_signer,
        "Signer contract should be updated"
    );
}

#[test]
fn proxy_test_test_get_authorized_users() {
    let mut contract = ProxyContract::new(accounts(0), false).unwrap();
    contract.add_authorized_user(&accounts(0), id("user1.test.near")).unwrap();
    contract.add_authorized_user(&accounts(0), id("user2.test.near")).unwrap();
    let users: Vec<String> =
        contract.get_authorized_users().iter().map(|a| a.to_string()).collect();
    assert!(users.contains(&"user1.test.near".to_string()));
    assert!(users.contains(&"user2.test.near".to_string()));
}

#[test]
fn add_and_remove_are_idempotent_and_readd_restores() {
    let mut contract = ProxyContract::new(accounts(0), false).unwrap();
    contract.add_authorized_user(&accounts(0), accounts(1)).unwrap();
    contract.add_authorized_user(&accounts(0), accounts(1)).unwrap();
    assert_eq!(contract.get_authorized_users().len(), 1);
    contract.remove_authorized_user(&accounts(0), accounts(1)).unwrap();
    contract.remove_authorized_user(&accounts(0), accounts(1)).unwrap();
    assert!(!contract.is_authorized(accounts(1)));
    assert!(contract.get_authorized_users().is_empty());
    contract.add_authorized_user(&accounts(0), accounts(1)).unwrap();
    assert!(contract.is_authorized(accounts(1)));
    assert!(!contract.is_authorized(accounts(0)));
}

#[test]
fn non_owner_cannot_remove() {
    let mut contract = ProxyContract::new(accounts(0), false).unwrap();
    contract.add_authorized_user(&accounts(0), accounts(1)).unwrap();
    let r = contract.remove_authorized_user(&accounts(1), accounts(1));
    assert!(matches!(r, Err(ProxyError::NotOwner)));
    assert!(contract.is_authorized(accounts(1)));
}

#[test]
fn invalid_account_id_is_refused() {
    assert!(AccountId::parse("Not A Valid Id!").is_none());
    assert!(AccountId::parse("").is_none());
    assert!(AccountId::parse("wrap.near").is_some());
}

#[test]
fn scenario_authorized_request_is_forwarded() {
    let mut contract = ProxyContract::new(accounts(0), false).unwrap();
    contract.add_authorized_user(&accounts(0), accounts(1)).unwrap();
    let mut ctx = context(accounts(1));
    ctx.attached_deposit = 5;
    let call = request(&mut contract, &ctx, id("wrap.near"), "ft_transfer").unwrap();
    assert_eq!(call.receiver_id.as_str(), "v1.signer-prod.testnet");
    assert_eq!(call.method_name, "sign");
    assert_eq!(call.deposit, 5);
    assert_eq!(call.gas, GAS_FOR_REQUEST_SIGNATURE);
    assert_eq!(GAS_FOR_REQUEST_SIGNATURE, 10 * TGAS);

    // The unsigned transaction, written out field by field.
    let mut tx = framed(b"alice");
    tx.push(0);
    tx.extend_from_slice(&[7u8; 32]);
    tx.extend_from_slice(&1u64.to_le_bytes());
    tx.extend_from_slice(&framed(b"wrap.near"));
    tx.extend_from_slice(&[0u8; 32]);
    tx.extend_from_slice(&le32(1));
    tx.push(2);
    tx.extend_from_slice(&framed(b"ft_transfer"));
    tx.extend_from_slice(&framed(&[1, 2, 3]));
    tx.extend_from_slice(&(10 * TGAS).to_le_bytes());
    tx.extend_from_slice(&ONE_NEAR.to_le_bytes());
    let digest: [u8; 32] = sha2::Sha256::digest(&tx).into();

    let path = format!("ed25519:{}", bs58::encode([7u8; 32]).into_string());
    let mut expected = framed(&digest);
    expected.extend_from_slice(&framed(path.as_bytes()));
    expected.extend_from_slice(&0u32.to_le_bytes());
    assert_eq!(call.args, expected);
}

#[test]
fn request_digest_is_deterministic() {
    let mut contract = ProxyContract::new(accounts(0), false).unwrap();
    contract.add_authorized_user(&accounts(0), accounts(1)).unwrap();
    let a = request(&mut contract, &context(accounts(1)), id("intents.near"), "ft_transfer");
    let b = request(&mut contract, &context(accounts(1)), id("intents.near"), "ft_transfer");
    assert_eq!(a.unwrap().args, b.unwrap().args);
}

#[test]
fn scenario_unauthorized_caller_is_refused() {
    let mut contract = ProxyContract::new(accounts(0), false).unwrap();
    contract.add_authorized_user(&accounts(0), accounts(1)).unwrap();
    let r = request(&mut contract, &context(id("carol")), id("wrap.near"), "ft_transfer");
    assert!(matches!(r, Err(ProxyError::Unauthorized)));
}

#[test]
fn scenario_disallowed_contract_is_refused() {
    let mut contract = ProxyContract::new(accounts(0), false).unwrap();
    contract.add_authorized_user(&accounts(0), accounts(1)).unwrap();
    let r = request(&mut contract, &context(accounts(1)), id("danny.near"), "ft_transfer");
    match r {
        Err(ProxyError::ContractNotAllowed(c, _)) => assert_eq!(c, "danny.near"),
        _ => panic!("expected a refused contract"),
    }
}

#[test]
fn scenario_gas_check_precedes_authorization() {
    let mut contract = ProxyContract::new(accounts(0), false).unwrap();
    let mut ctx = context(id("carol"));
    ctx.prepaid_gas = 10 * TGAS - 1;
    let r = request(&mut contract, &ctx, id("danny.near"), "deposit");
    assert!(matches!(r, Err(ProxyError::InsufficientGas)));
    ctx.prepaid_gas = 10 * TGAS;
    let r = request(&mut contract, &ctx, id("danny.near"), "deposit");
    assert!(matches!(r, Err(ProxyError::Unauthorized)));
}

#[test]
fn restricted_methods_are_refused() {
    let mut contract = ProxyContract::new(accounts(0), false).unwrap();
    contract.add_authorized_user(&accounts(0), accounts(1)).unwrap();
    for m in ["deposit", "add_public_key"] {
        let r = request(&mut contract, &context(accounts(1)), id("wrap.near"), m);
        match r {
            Err(ProxyError::MethodRestricted(x)) => assert_eq!(x, m),
            _ => panic!("expected a restricted method"),
        }
    }
}

#[test]
fn contract_is_checked_before_method() {
    let contract = ProxyContract::new(accounts(0), false).unwrap();
    let action = NearAction {
        method_name: "deposit".to_string(),
        contract_id: id("danny.near"),
        gas_attached: 0,
        deposit_attached: 0,
    };
    assert!(matches!(
        contract.assert_action_allowed(&action),
        Err(ProxyError::ContractNotAllowed(_, _))
    ));
    let ok = NearAction {
        method_name: "ft_transfer".to_string(),
        contract_id: id("intents.near"),
        gas_attached: 0,
        deposit_attached: 0,
    };
    assert!(contract.assert_action_allowed(&ok).is_ok());
}

#[test]
fn secp256k1_signer_key_is_unsupported() {
    let mut contract = ProxyContract::new(accounts(0), false).unwrap();
    contract.add_authorized_user(&accounts(0), accounts(1)).unwrap();
    let mut ctx = context(accounts(1));
    let mut pk = vec![1u8];
    pk.extend_from_slice(&[9u8; 64]);
    ctx.signer_account_pk = pk;
    let r = request(&mut contract, &ctx, id("wrap.near"), "ft_transfer");
    assert!(matches!(r, Err(ProxyError::UnsupportedCurve)));
}

#[test]
fn key_codec() {
    let key = ProxyContract::convert_pk_to_omni(&ed25519_pk(3)).unwrap();
    assert_eq!(key, [3u8; 32]);
    assert!(matches!(
        ProxyContract::convert_pk_to_omni(&vec![1u8; 65]),
        Err(ProxyError::UnsupportedCurve)
    ));
    assert!(matches!(
        ProxyContract::convert_pk_to_omni(&vec![0u8; 10]),
        Err(ProxyError::UnsupportedCurve)
    ));
    assert_eq!(
        ProxyContract::public_key_to_string(&ed25519_pk(0)).unwrap(),
        "ed25519:11111111111111111111111111111111"
    );
    let mut secp = vec![1u8];
    secp.extend_from_slice(&[0u8, 0, 1]);
    assert_eq!(ProxyContract::public_key_to_string(&secp).unwrap(), "secp256k1:112");
    assert!(matches!(
        ProxyContract::public_key_to_string(&vec![2u8, 5]),
        Err(ProxyError::UnsupportedCurve)
    ));
    assert!(matches!(
        ProxyContract::public_key_to_string(&vec![]),
        Err(ProxyError::UnsupportedCurve)
    ));
}

#[test]
fn error_messages_name_the_violation() {
    let mut contract = ProxyContract::new(accounts(0), false).unwrap();
    contract.add_authorized_user(&accounts(0), accounts(1)).unwrap();
    let e = request(&mut contract, &context(id("carol")), id("wrap.near"), "ft_transfer")
        .unwrap_err();
    assert!(e.message().contains("Unauthorized"));
    let e = request(&mut contract, &context(accounts(1)), id("danny.near"), "ft_transfer")
        .unwrap_err();
    assert_eq!(
        e.message(),
        "Contract danny.near is not allowed. Only wrap.near and intents.near are permitted"
    );
    assert!(e.message().contains("not allowed"));
    let e = request(&mut contract, &context(accounts(1)), id("wrap.near"), "deposit").unwrap_err();
    assert_eq!(e.message(), "Method deposit is restricted");
    assert_eq!(ProxyError::NotOwner.message(), "Be gone. You have no power here.");
    assert_eq!(
        ProxyError::InsufficientGas.message(),
        "Not enough gas attached. Please attach 10 TGas"
    );
}

#[test]
fn prehashed_profile_forwards_the_given_digest() {
    let mut contract = ProxyContract::new(accounts(0), false).unwrap();
    contract.add_authorized_user(&accounts(0), accounts(1)).unwrap();
    let ctx = context(accounts(1));
    let call = contract
        .request_signature_prehashed(&ctx, id("intents.near"), "ft_transfer".to_string(), [5u8; 32])
        .unwrap();
    let path = format!("ed25519:{}", bs58::encode([7u8; 32]).into_string());
    let mut expected = framed(&[5u8; 32]);
    expected.extend_from_slice(&framed(path.as_bytes()));
    expected.extend_from_slice(&0u32.to_le_bytes());
    assert_eq!(call.args, expected);
    assert_eq!(call.method_name, "sign");

    let r = contract.request_signature_prehashed(
        &ctx,
        id("danny.near"),
        "ft_transfer".to_string(),
        [5u8; 32],
    );
    assert!(matches!(r, Err(ProxyError::ContractNotAllowed(_, _))));
    let r = contract.request_signature_prehashed(
        &context(id("carol")),
        id("wrap.near"),
        "ft_transfer".to_string(),
        [5u8; 32],
    );
    assert!(matches!(r, Err(ProxyError::Unauthorized)));
}

#[test]
fn owner_can_replace_the_action_policy() {
    let mut contract = ProxyContract::new(accounts(0), false).unwrap();
    contract.add_authorized_user(&accounts(0), accounts(1)).unwrap();
    assert_eq!(contract.get_allowed_contracts(), vec!["wrap.near", "intents.near"]);
    assert_eq!(contract.get_restricted_methods(), vec!["deposit", "add_public_key"]);
    let r = contract.set_action_policy(&accounts(1), vec!["danny.near".to_string()], vec![]);
    assert!(matches!(r, Err(ProxyError::NotOwner)));
    assert_eq!(contract.get_allowed_contracts(), vec!["wrap.near", "intents.near"]);
    contract
        .set_action_policy(&accounts(0), vec!["danny.near".to_string()], vec!["ft_transfer".to_string()])
        .unwrap();
    assert!(request(&mut contract, &context(accounts(1)), id("danny.near"), "deposit").is_ok());
    let r = request(&mut contract, &context(accounts(1)), id("danny.near"), "ft_transfer");
    assert!(matches!(r, Err(ProxyError::MethodRestricted(_))));
    let r = request(&mut contract, &context(accounts(1)), id("wrap.near"), "deposit");
    assert!(matches!(r, Err(ProxyError::ContractNotAllowed(_, _))));
}
