use vstd::prelude::*;

use crate::contract::{
    cancel_spec, claim_spec, deposit_spec, execute_spec, set_cpool_spec, voucher, withdraw_spec,
};
use crate::crypto::voucher_signed;
use crate::ledger::LedgerModel;
use crate::msg::{ExecuteMsgModel, InvocationModel};
use crate::state::{CampaignModel, CoinModel, ContractError, ErrorKind, TransferModel, kind_of};

verus! {

/// Two deposits into a new campaign leave it holding their sum, owned by the
/// first depositor.
pub proof fn lemma_deposits_accumulate(
    s: LedgerModel,
    campaign_id: Seq<char>,
    first: Seq<char>,
    second: Seq<char>,
    a1: CoinModel,
    a2: CoinModel,
    native_denom: Seq<char>,
)
    requires
        !s.campaigns.contains_key(campaign_id),
        a1.denom == native_denom,
        a2.denom == native_denom,
        a1.amount + a2.amount <= u128::MAX,
    ensures
        deposit_spec(s, first, seq![a1], native_denom, campaign_id) matches Ok(s1)
            && deposit_spec(s1, second, seq![a2], native_denom, campaign_id) matches Ok(s2)
            && s2.campaigns[campaign_id] == (CampaignModel {
            amount: (a1.amount + a2.amount) as u128,
            owner: first,
        }),
{
}

/// Setting a campaign's balance by anyone but the admin is an authorization
/// failure; `set_cpool` then leaves the ledger as it was.
pub proof fn lemma_set_cpool_admin_only(
    s: LedgerModel,
    sender: Seq<char>,
    campaign_id: Seq<char>,
    amount: u128,
)
    requires
        sender != s.admin,
    ensures
        set_cpool_spec(s, sender, campaign_id, amount) == Err::<LedgerModel, ContractError>(
            ContractError::Unauthorized,
        ),
        kind_of(ContractError::Unauthorized) == ErrorKind::Authorization,
{
}

/// A claim under a consumed nonce is a replay, whatever its signature, amount
/// or campaign.
pub proof fn lemma_replay_rejected(
    s: LedgerModel,
    sender: Seq<char>,
    native_denom: Seq<char>,
    campaign_id: Seq<char>,
    denom: Seq<char>,
    amount: u128,
    nonce: Seq<char>,
    signature: Seq<u8>,
)
    requires
        s.nonces.contains(nonce),
    ensures
        claim_spec(s, sender, native_denom, campaign_id, denom, amount, nonce, signature) == Err::<
            (LedgerModel, TransferModel),
            ContractError,
        >(ContractError::NonceUsed),
        kind_of(ContractError::NonceUsed) == ErrorKind::Replay,
{
}

/// Once a claim succeeds, its nonce blocks every later claim, and no
/// operation ever releases a consumed nonce.
pub proof fn lemma_claimed_nonce_blocked(
    s: LedgerModel,
    sender: Seq<char>,
    native_denom: Seq<char>,
    campaign_id: Seq<char>,
    denom: Seq<char>,
    amount: u128,
    nonce: Seq<char>,
    signature: Seq<u8>,
    later_sender: Seq<char>,
    later_campaign_id: Seq<char>,
    later_denom: Seq<char>,
    later_amount: u128,
    later_signature: Seq<u8>,
)
    requires
        claim_spec(s, sender, native_denom, campaign_id, denom, amount, nonce, signature) is Ok,
    ensures
        claim_spec(s, sender, native_denom, campaign_id, denom, amount, nonce, signature) matches Ok(
            (s1, _),
        ) && s1.nonces.contains(nonce) && claim_spec(
            s1,
            later_sender,
            native_denom,
            later_campaign_id,
            later_denom,
            later_amount,
            nonce,
            later_signature,
        ) == Err::<(LedgerModel, TransferModel), ContractError>(ContractError::NonceUsed),
{
}

/// No operation removes a consumed nonce.
pub proof fn lemma_nonces_persist(s: LedgerModel, call: InvocationModel, msg: ExecuteMsgModel)
    ensures
        execute_spec(s, call, msg) matches Ok((s1, _)) ==> s.nonces.subset_of(s1.nonces),
{
}

/// A validly signed claim that the campaign's balance does not exceed fails
/// for want of funds; `claim` then leaves the ledger, and so the balance, as
/// it was.
pub proof fn lemma_claim_needs_funds(
    s: LedgerModel,
    sender: Seq<char>,
    native_denom: Seq<char>,
    campaign_id: Seq<char>,
    denom: Seq<char>,
    amount: u128,
    nonce: Seq<char>,
    signature: Seq<u8>,
)
    requires
        !s.nonces.contains(nonce),
        voucher_signed(s.pubkey, voucher(sender, campaign_id, denom, amount, nonce), signature),
        s.campaigns.contains_key(campaign_id),
        amount >= s.campaigns[campaign_id].amount,
    ensures
        claim_spec(s, sender, native_denom, campaign_id, denom, amount, nonce, signature) == Err::<
            (LedgerModel, TransferModel),
            ContractError,
        >(ContractError::InsufficientCampaignFunds),
        kind_of(ContractError::InsufficientCampaignFunds) == ErrorKind::Arithmetic,
{
}

/// An authorized cancel deletes the record; it pays nothing for an empty
/// campaign and the whole balance to the owner otherwise.
pub proof fn lemma_cancel_settles(
    s: LedgerModel,
    sender: Seq<char>,
    native_denom: Seq<char>,
    campaign_id: Seq<char>,
)
    requires
        s.campaigns.contains_key(campaign_id),
        sender == s.admin || sender == s.campaigns[campaign_id].owner,
    ensures
        cancel_spec(s, sender, native_denom, campaign_id) matches Ok((s1, t))
            && !s1.campaigns.contains_key(campaign_id) && (s.campaigns[campaign_id].amount == 0
            ==> t is None) && (s.campaigns[campaign_id].amount > 0 ==> t == Some(
            TransferModel {
                to_address: s.campaigns[campaign_id].owner,
                denom: native_denom,
                amount: s.campaigns[campaign_id].amount,
            },
        )),
{
}

/// The admin may withdraw any amount up to the contract's balance, as one
/// transfer to the admin.
pub proof fn lemma_withdraw_by_admin(
    s: LedgerModel,
    native_denom: Seq<char>,
    contract_balance: u128,
    amount: u128,
)
    requires
        amount <= contract_balance,
    ensures
        withdraw_spec(s, s.admin, native_denom, contract_balance, amount) == Ok::<
            TransferModel,
            ContractError,
        >(TransferModel { to_address: s.admin, denom: native_denom, amount }),
{
}

/// Anyone but the admin is refused a withdrawal, whatever the amount.
pub proof fn lemma_withdraw_admin_only(
    s: LedgerModel,
    sender: Seq<char>,
    native_denom: Seq<char>,
    contract_balance: u128,
    amount: u128,
)
    requires
        sender != s.admin,
    ensures
        withdraw_spec(s, sender, native_denom, contract_balance, amount) == Err::<
            TransferModel,
            ContractError,
        >(ContractError::Unauthorized),
{
}

} // verus!
