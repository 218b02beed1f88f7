use k256::ecdsa::signature::hazmat::PrehashSigner;
use k256::ecdsa::{Signature, SigningKey};
use k256::sha2::{Digest, Sha256};
use reward_pool::contract::{
    cancel, claim, deposit, edit_admin, execute, instantiate, query, query_campaign_pool,
    set_cpool, withdraw,
};
use reward_pool::crypto::{pubkey_to_account, pubkey_to_canonical, verify_arbitrary, HRP};
use reward_pool::ledger::Ledger;
use reward_pool::msg::{ExecuteMsg, InstantiateMsg, Invocation, QueryMsg};
use reward_pool::payload::{decimal_string, generate_amino_transaction_string, SignedData};
use reward_pool::state::{Campaign, Coin, ContractError, ErrorKind, Transfer};

fn key() -> SigningKey {
    SigningKey::from_slice(&[7u8; 32]).unwrap()
}

fn pubkey_of(sk: &SigningKey) -> Vec<u8> {
    sk.verifying_key().to_encoded_point(true).as_bytes().to_vec()
}

fn sign(sk: &SigningKey, data: &SignedData) -> Vec<u8> {
    let pk = pubkey_of(sk);
    let signer = pubkey_to_account(&pk, HRP);
    let doc = generate_amino_transaction_string(&signer, &data.canonical_json());
    let digest = Sha256::digest(doc.as_bytes());
    let sig: Signature = sk.sign_prehash(&digest).unwrap();
    sig.to_bytes().to_vec()
}

fn voucher(campaign_id: &str, amount: u128, denom: &str, nonce: &str, sender: &str) -> SignedData {
    SignedData {
        campaign_id: campaign_id.to_string(),
        nonce: nonce.to_string(),
        denom: denom.to_string(),
        amount,
        sender: sender.to_string(),
    }
}

fn coins(amount: u128, denom: &str) -> Vec<Coin> {
    vec![Coin { denom: denom.to_string(), amount }]
}

fn s(x: &str) -> String {
    x.to_string()
}

fn funded(sk: &SigningKey, campaign_id: &str, amount: u128) -> Ledger {
    let mut ledger = instantiate(s("admin"), InstantiateMsg { pubkey: pubkey_of(sk) });
    set_cpool(&mut ledger, &s("admin"), s(campaign_id), amount).unwrap();
    ledger
}

fn claim_with(ledger: &mut Ledger, sk: &SigningKey, v: &SignedData, native: &str) -> Result<Transfer, ContractError> {
    let sig = sign(sk, v);
    claim(ledger, &v.sender, &s(native), v.campaign_id.clone(), v.denom.clone(), v.amount, v.nonce.clone(), &sig)
}

#[test]
fn two_deposits_add_up() {
    let mut ledger = instantiate(s("admin"), InstantiateMsg { pubkey: vec![2u8; 33] });
    deposit(&mut ledger, &s("first"), &coins(300, "token"), &s("token"), s("c")).unwrap();
    deposit(&mut ledger, &s("second"), &coins(45, "token"), &s("token"), s("c")).unwrap();
    assert_eq!(query_campaign_pool(&ledger, &s("c")), Ok(Campaign { amount: 345, owner: s("first") }));
}

#[test]
fn set_cpool_by_non_admin_changes_nothing() {
    let mut ledger = instantiate(s("admin"), InstantiateMsg { pubkey: vec![2u8; 33] });
    deposit(&mut ledger, &s("owner"), &coins(10, "token"), &s("token"), s("c")).unwrap();
    let err = set_cpool(&mut ledger, &s("owner"), s("c"), 99).unwrap_err();
    assert_eq!(err, ContractError::Unauthorized);
    assert_eq!(err.kind(), ErrorKind::Authorization);
    assert_eq!(query_campaign_pool(&ledger, &s("c")), Ok(Campaign { amount: 10, owner: s("owner") }));
}

#[test]
fn replayed_nonce_is_rejected() {
    let sk = key();
    let mut ledger = funded(&sk, "c1", 1000);
    let v = voucher("c1", 100, "token", "n1", "alice");
    claim_with(&mut ledger, &sk, &v, "token").unwrap();
    let again = claim_with(&mut ledger, &sk, &v, "token").unwrap_err();
    assert_eq!(again, ContractError::NonceUsed);
    assert_eq!(again.kind(), ErrorKind::Replay);
    let garbage = claim(&mut ledger, &s("bob"), &s("token"), s("c1"), s("token"), 1, s("n1"), &vec![0u8; 64]);
    assert_eq!(garbage, Err(ContractError::NonceUsed));
}

#[test]
fn claim_beyond_balance_changes_nothing() {
    let sk = key();
    let mut ledger = funded(&sk, "c1", 100);
    let err = claim_with(&mut ledger, &sk, &voucher("c1", 100, "token", "n1", "alice"), "token").unwrap_err();
    assert_eq!(err, ContractError::InsufficientCampaignFunds);
    assert_eq!(err.kind(), ErrorKind::Arithmetic);
    assert_eq!(query_campaign_pool(&ledger, &s("c1")).unwrap().amount, 100);
    assert!(!ledger.has_nonce(&s("n1")));
    let err = claim_with(&mut ledger, &sk, &voucher("c1", 101, "token", "n2", "alice"), "token").unwrap_err();
    assert_eq!(err, ContractError::InsufficientCampaignFunds);
}

#[test]
fn cancel_empty_campaign_pays_nothing() {
    let mut ledger = instantiate(s("admin"), InstantiateMsg { pubkey: vec![2u8; 33] });
    set_cpool(&mut ledger, &s("admin"), s("c"), 0).unwrap();
    assert_eq!(cancel(&mut ledger, &s("admin"), &s("token"), s("c")), Ok(None));
    assert_eq!(query_campaign_pool(&ledger, &s("c")), Err(ContractError::CampaignNotFound));
}

#[test]
fn cancel_funded_campaign_pays_owner() {
    let mut ledger = instantiate(s("admin"), InstantiateMsg { pubkey: vec![2u8; 33] });
    deposit(&mut ledger, &s("owner"), &coins(77, "token"), &s("token"), s("c")).unwrap();
    assert_eq!(
        cancel(&mut ledger, &s("admin"), &s("token"), s("c")),
        Ok(Some(Transfer { to_address: s("owner"), denom: s("token"), amount: 77 }))
    );
    assert_eq!(query_campaign_pool(&ledger, &s("c")), Err(ContractError::CampaignNotFound));
}

#[test]
fn cancel_by_stranger_is_refused() {
    let mut ledger = instantiate(s("admin"), InstantiateMsg { pubkey: vec![2u8; 33] });
    deposit(&mut ledger, &s("owner"), &coins(77, "token"), &s("token"), s("c")).unwrap();
    assert_eq!(cancel(&mut ledger, &s("eve"), &s("token"), s("c")), Err(ContractError::Unauthorized));
    assert_eq!(query_campaign_pool(&ledger, &s("c")).unwrap().amount, 77);
}

#[test]
fn withdraw_by_admin_up_to_balance() {
    let ledger = instantiate(s("admin"), InstantiateMsg { pubkey: vec![2u8; 33] });
    assert_eq!(
        withdraw(&ledger, &s("admin"), &s("token"), 500, 500),
        Ok(Transfer { to_address: s("admin"), denom: s("token"), amount: 500 })
    );
    assert_eq!(withdraw(&ledger, &s("admin"), &s("token"), 500, 501), Err(ContractError::InsufficientBalance));
    assert_eq!(withdraw(&ledger, &s("eve"), &s("token"), 500, 0), Err(ContractError::Unauthorized));
    assert_eq!(withdraw(&ledger, &s("eve"), &s("token"), 500, 1000), Err(ContractError::Unauthorized));
}

#[test]
fn deposit_reset_cancel_scenario() {
    let mut ledger = instantiate(s("admin"), InstantiateMsg { pubkey: pubkey_of(&key()) });
    deposit(&mut ledger, &s("sender"), &coins(1_000_000, "token"), &s("token"), s("c1")).unwrap();
    set_cpool(&mut ledger, &s("admin"), s("c1"), 500_000).unwrap();
    assert_eq!(query(&ledger, &QueryMsg::GetCpool { campaign_id: s("c1") }), Ok(Campaign { amount: 500000, owner: s("sender") }));
    assert_eq!(
        cancel(&mut ledger, &s("sender"), &s("token"), s("c1")),
        Ok(Some(Transfer { to_address: s("sender"), denom: s("token"), amount: 500000 }))
    );
    assert_eq!(query(&ledger, &QueryMsg::GetCpool { campaign_id: s("c1") }), Err(ContractError::CampaignNotFound));
}

#[test]
fn signed_voucher_scenario() {
    let sk = key();
    let mut ledger = funded(&sk, "c1", 1000);
    let t = claim_with(&mut ledger, &sk, &voucher("c1", 100, "token", "n1", "alice"), "token").unwrap();
    assert_eq!(t, Transfer { to_address: s("alice"), denom: s("token"), amount: 100 });
    assert_eq!(query_campaign_pool(&ledger, &s("c1")).unwrap().amount, 900);
    assert!(ledger.has_nonce(&s("n1")));
    set_cpool(&mut ledger, &s("admin"), s("c2"), 5000).unwrap();
    let other = claim_with(&mut ledger, &sk, &voucher("c2", 7, "token", "n1", "bob"), "token");
    assert_eq!(other, Err(ContractError::NonceUsed));
    assert_eq!(query_campaign_pool(&ledger, &s("c2")).unwrap().amount, 5000);
}

#[test]
fn claim_rejects_bad_signature_and_denom() {
    let sk = key();
    let mut ledger = funded(&sk, "c1", 1000);
    let v = voucher("c1", 100, "token", "n1", "alice");
    let mut sig = sign(&sk, &v);
    sig[5] ^= 1;
    let bad = claim(&mut ledger, &s("alice"), &s("token"), s("c1"), s("token"), 100, s("n1"), &sig);
    assert_eq!(bad, Err(ContractError::InvalidSignature));
    let forged = claim(&mut ledger, &s("mallory"), &s("token"), s("c1"), s("token"), 100, s("n1"), &sign(&sk, &v));
    assert_eq!(forged, Err(ContractError::InvalidSignature));
    let short = claim(&mut ledger, &s("alice"), &s("token"), s("c1"), s("token"), 100, s("n1"), &vec![1u8; 10]);
    assert_eq!(short, Err(ContractError::InvalidSignature));
    let wrong = claim_with(&mut ledger, &sk, &voucher("c1", 100, "other", "n1", "alice"), "token");
    assert_eq!(wrong, Err(ContractError::InvalidDenom));
    assert_eq!(query_campaign_pool(&ledger, &s("c1")).unwrap().amount, 1000);
    let missing = claim_with(&mut ledger, &sk, &voucher("nope", 1, "token", "n1", "alice"), "token");
    assert_eq!(missing, Err(ContractError::CampaignNotFound));
    assert!(!ledger.has_nonce(&s("n1")));
}

#[test]
fn deposit_rejections() {
    let mut ledger = instantiate(s("admin"), InstantiateMsg { pubkey: vec![2u8; 33] });
    assert_eq!(deposit(&mut ledger, &s("a"), &vec![], &s("token"), s("c")), Err(ContractError::NoFundsSent));
    let two = vec![Coin { denom: s("token"), amount: 1 }, Coin { denom: s("token"), amount: 2 }];
    assert_eq!(deposit(&mut ledger, &s("a"), &two, &s("token"), s("c")), Err(ContractError::MultipleCoinsRejected));
    assert_eq!(deposit(&mut ledger, &s("a"), &coins(5, "atom"), &s("token"), s("c")), Err(ContractError::InvalidDenom));
    deposit(&mut ledger, &s("a"), &coins(u128::MAX, "token"), &s("token"), s("c")).unwrap();
    assert_eq!(deposit(&mut ledger, &s("a"), &coins(1, "token"), &s("token"), s("c")), Err(ContractError::Overflow));
    assert_eq!(query_campaign_pool(&ledger, &s("c")).unwrap().amount, u128::MAX);
    assert_eq!(ContractError::Overflow.kind(), ErrorKind::Arithmetic);
    assert_eq!(ContractError::CampaignNotFound.kind(), ErrorKind::NotFound);
    assert_eq!(ContractError::InvalidDenom.kind(), ErrorKind::Validation);
}

#[test]
fn edit_admin_hands_over() {
    let mut ledger = instantiate(s("admin"), InstantiateMsg { pubkey: vec![2u8; 33] });
    assert_eq!(edit_admin(&mut ledger, &s("eve"), s("eve")), Err(ContractError::Unauthorized));
    assert_eq!(ledger.admin(), "admin");
    edit_admin(&mut ledger, &s("admin"), s("next")).unwrap();
    assert_eq!(ledger.admin(), "next");
    assert_eq!(set_cpool(&mut ledger, &s("admin"), s("c"), 1), Err(ContractError::Unauthorized));
    assert!(set_cpool(&mut ledger, &s("next"), s("c"), 1).is_ok());
}

#[test]
fn execute_dispatches() {
    let mut ledger = instantiate(s("admin"), InstantiateMsg { pubkey: vec![2u8; 33] });
    let call = Invocation { sender: s("owner"), funds: coins(40, "token"), native_denom: s("token"), contract_balance: 40 };
    assert_eq!(execute(&mut ledger, &call, ExecuteMsg::Deposit { campaign_id: s("c") }), Ok(vec![]));
    let out = execute(&mut ledger, &call, ExecuteMsg::Cancel { campaign_id: s("c") });
    assert_eq!(out, Ok(vec![Transfer { to_address: s("owner"), denom: s("token"), amount: 40 }]));
    let admin = Invocation { sender: s("admin"), funds: vec![], native_denom: s("token"), contract_balance: 40 };
    let out = execute(&mut ledger, &admin, ExecuteMsg::Withdraw { amount: 40 });
    assert_eq!(out, Ok(vec![Transfer { to_address: s("admin"), denom: s("token"), amount: 40 }]));
    assert_eq!(execute(&mut ledger, &call, ExecuteMsg::Withdraw { amount: 1 }), Err(ContractError::Unauthorized));
}

#[test]
fn decimal_rendering() {
    assert_eq!(decimal_string(0), "0");
    assert_eq!(decimal_string(7), "7");
    assert_eq!(decimal_string(1234567890), "1234567890");
    assert_eq!(decimal_string(u128::MAX), "340282366920938463463374607431768211455");
}

#[test]
fn canonical_json_layout() {
    let v = voucher("c\"1", 100, "token", "n1", "alice");
    assert_eq!(
        v.canonical_json(),
        "{\"campaign_id\":\"c\\\"1\",\"nonce\":\"n1\",\"denom\":\"token\",\"amount\":\"100\",\"sender\":\"alice\"}"
    );
}

#[test]
fn sign_doc_layout() {
    assert_eq!(
        generate_amino_transaction_string("addr", "DATA"),
        "{\"account_number\":\"0\",\"chain_id\":\"\",\"fee\":{\"amount\":[],\"gas\":\"0\"},\"memo\":\"\",\"msgs\":[{\"type\":\"sign/MsgSignData\",\"value\":{\"data\":\"DATA\",\"signer\":\"addr\"}}],\"sequence\":\"0\"}"
    );
}

#[test]
fn address_derivation() {
    let pk = pubkey_of(&key());
    let canonical = pubkey_to_canonical(&pk);
    assert_eq!(canonical.len(), 20);
    assert_ne!(canonical, pk);
    let account = pubkey_to_account(&pk, HRP);
    assert!(account.starts_with("chngme1"));
    let (hrp, data, variant) = bech32::decode(&account).unwrap();
    assert_eq!(hrp, "chngme");
    assert_eq!(variant, bech32::Variant::Bech32);
    let bytes: Vec<u8> = bech32::FromBase32::from_base32(&data).unwrap();
    assert_eq!(bytes, canonical);
}

#[test]
fn signature_check_accepts_only_the_signed_voucher() {
    let sk = key();
    let pk = pubkey_of(&sk);
    let v = voucher("c1", 100, "token", "n1", "alice");
    let sig = sign(&sk, &v);
    assert_eq!(verify_arbitrary(&pk, &v, &sig), Ok(()));
    let other = voucher("c1", 101, "token", "n1", "alice");
    assert_eq!(verify_arbitrary(&pk, &other, &sig), Err(ContractError::InvalidSignature));
}
