use vstd::prelude::*;

use crate::crypto::{verify_arbitrary, voucher_signed};
use crate::ledger::{Ledger, LedgerModel};
use crate::msg::{ExecuteMsg, ExecuteMsgModel, InstantiateMsg, Invocation, InvocationModel, QueryMsg};
use crate::payload::{SignedData, SignedDataModel};
use crate::state::{Campaign, CampaignModel, Coin, CoinModel, ContractError, Transfer, TransferModel};

verus! {

/// The ledger of a new deployment: the deployer is admin, the key is trusted.
pub open spec fn instantiate_spec(sender: Seq<char>, pubkey: Seq<u8>) -> LedgerModel {
    LedgerModel { admin: sender, pubkey, nonces: Set::empty(), campaigns: Map::empty() }
}

/// Only the admin may name a new admin.
pub open spec fn edit_admin_spec(s: LedgerModel, sender: Seq<char>, new_admin: Seq<char>) -> Result<
    LedgerModel,
    ContractError,
> {
    if sender != s.admin {
        Err(ContractError::Unauthorized)
    } else {
        Ok(LedgerModel { admin: new_admin, ..s })
    }
}

/// A deposit of exactly one coin of the native denomination adds to the
/// campaign, or opens it with the depositor as owner.
pub open spec fn deposit_spec(
    s: LedgerModel,
    sender: Seq<char>,
    funds: Seq<CoinModel>,
    native_denom: Seq<char>,
    campaign_id: Seq<char>,
) -> Result<LedgerModel, ContractError> {
    if funds.len() == 0 {
        Err(ContractError::NoFundsSent)
    } else if funds.len() > 1 {
        Err(ContractError::MultipleCoinsRejected)
    } else if funds[0].denom != native_denom {
        Err(ContractError::InvalidDenom)
    } else if s.campaigns.contains_key(campaign_id) {
        let c = s.campaigns[campaign_id];
        if c.amount + funds[0].amount > u128::MAX {
            Err(ContractError::Overflow)
        } else {
            Ok(
                LedgerModel {
                    campaigns: s.campaigns.insert(
                        campaign_id,
                        CampaignModel { amount: (c.amount + funds[0].amount) as u128, owner: c.owner },
                    ),
                    ..s
                },
            )
        }
    } else {
        Ok(
            LedgerModel {
                campaigns: s.campaigns.insert(
                    campaign_id,
                    CampaignModel { amount: funds[0].amount, owner: sender },
                ),
                ..s
            },
        )
    }
}

/// The admin sets a campaign's balance outright; a new campaign is owned by
/// the admin, an existing one keeps its owner.
pub open spec fn set_cpool_spec(
    s: LedgerModel,
    sender: Seq<char>,
    campaign_id: Seq<char>,
    amount: u128,
) -> Result<LedgerModel, ContractError> {
    if sender != s.admin {
        Err(ContractError::Unauthorized)
    } else if s.campaigns.contains_key(campaign_id) {
        Ok(
            LedgerModel {
                campaigns: s.campaigns.insert(
                    campaign_id,
                    CampaignModel { amount, owner: s.campaigns[campaign_id].owner },
                ),
                ..s
            },
        )
    } else {
        Ok(
            LedgerModel {
                campaigns: s.campaigns.insert(campaign_id, CampaignModel { amount, owner: sender }),
                ..s
            },
        )
    }
}

/// The admin or the owner closes a campaign: its record goes, and a positive
/// balance is paid to the owner in the same step.
pub open spec fn cancel_spec(
    s: LedgerModel,
    sender: Seq<char>,
    native_denom: Seq<char>,
    campaign_id: Seq<char>,
) -> Result<(LedgerModel, Option<TransferModel>), ContractError> {
    if !s.campaigns.contains_key(campaign_id) {
        Err(ContractError::CampaignNotFound)
    } else {
        let c = s.campaigns[campaign_id];
        if sender != s.admin && sender != c.owner {
            Err(ContractError::Unauthorized)
        } else {
            let after = LedgerModel { campaigns: s.campaigns.remove(campaign_id), ..s };
            if c.amount == 0 {
                Ok((after, None))
            } else {
                Ok(
                    (
                        after,
                        Some(
                            TransferModel {
                                to_address: c.owner,
                                denom: native_denom,
                                amount: c.amount,
                            },
                        ),
                    ),
                )
            }
        }
    }
}

/// The admin takes up to the contract's whole balance of the native token.
pub open spec fn withdraw_spec(
    s: LedgerModel,
    sender: Seq<char>,
    native_denom: Seq<char>,
    contract_balance: u128,
    amount: u128,
) -> Result<TransferModel, ContractError> {
    if sender != s.admin {
        Err(ContractError::Unauthorized)
    } else if amount > contract_balance {
        Err(ContractError::InsufficientBalance)
    } else {
        Ok(TransferModel { to_address: s.admin, denom: native_denom, amount })
    }
}

/// The voucher that a claim presents.
pub open spec fn voucher(
    sender: Seq<char>,
    campaign_id: Seq<char>,
    denom: Seq<char>,
    amount: u128,
    nonce: Seq<char>,
) -> SignedDataModel {
    SignedDataModel { campaign_id, nonce, denom, amount, sender }
}

/// A claim is honoured once per nonce, when the trusted key signed the
/// voucher, the campaign holds more than the amount, and the denomination is
/// the native one. It consumes the nonce, lowers the balance and pays the
/// sender. Every check comes before any change: the nonce is consumed only
/// by a claim that succeeds, so a voucher refused for its campaign's balance
/// or its denomination is not burnt.
pub open spec fn claim_spec(
    s: LedgerModel,
    sender: Seq<char>,
    native_denom: Seq<char>,
    campaign_id: Seq<char>,
    denom: Seq<char>,
    amount: u128,
    nonce: Seq<char>,
    signature: Seq<u8>,
) -> Result<(LedgerModel, TransferModel), ContractError> {
    if s.nonces.contains(nonce) {
        Err(ContractError::NonceUsed)
    } else if !voucher_signed(
        s.pubkey,
        voucher(sender, campaign_id, denom, amount, nonce),
        signature,
    ) {
        Err(ContractError::InvalidSignature)
    } else if !s.campaigns.contains_key(campaign_id) {
        Err(ContractError::CampaignNotFound)
    } else if amount >= s.campaigns[campaign_id].amount {
        Err(ContractError::InsufficientCampaignFunds)
    } else if denom != native_denom {
        Err(ContractError::InvalidDenom)
    } else {
        let c = s.campaigns[campaign_id];
        Ok(
            (
                LedgerModel {
                    nonces: s.nonces.insert(nonce),
                    campaigns: s.campaigns.insert(
                        campaign_id,
                        CampaignModel { amount: (c.amount - amount) as u128, owner: c.owner },
                    ),
                    ..s
                },
                TransferModel { to_address: sender, denom, amount },
            ),
        )
    }
}

/// The record of a campaign, if there is one.
pub open spec fn query_spec(s: LedgerModel, campaign_id: Seq<char>) -> Result<
    CampaignModel,
    ContractError,
> {
    if s.campaigns.contains_key(campaign_id) {
        Ok(s.campaigns[campaign_id])
    } else {
        Err(ContractError::CampaignNotFound)
    }
}

/// Opens the ledger of a deployment made by `sender`.
pub fn instantiate(sender: String, msg: InstantiateMsg) -> (r: Ledger)
    ensures
        r.wf(),
        r@ == instantiate_spec(sender@, msg.pubkey@),
{
    Ledger::new(sender, msg.pubkey)
}

/// Replaces the admin, at the admin's request.
pub fn edit_admin(ledger: &mut Ledger, sender: &String, new_admin: String) -> (r: Result<
    (),
    ContractError,
>)
    requires
        old(ledger).wf(),
    ensures
        final(ledger).wf(),
        match edit_admin_spec(old(ledger)@, sender@, new_admin@) {
            Ok(s) => r is Ok && final(ledger)@ == s,
            Err(e) => r == Err::<(), ContractError>(e) && final(ledger)@ == old(ledger)@,
        },
{
    if *sender != *ledger.admin() {
        return Err(ContractError::Unauthorized);
    }
    ledger.set_admin(new_admin);
    Ok(())
}

/// Adds the one coin attached by `sender` to campaign `campaign_id`.
pub fn deposit(
    ledger: &mut Ledger,
    sender: &String,
    funds: &Vec<Coin>,
    native_denom: &String,
    campaign_id: String,
) -> (r: Result<(), ContractError>)
    requires
        old(ledger).wf(),
    ensures
        final(ledger).wf(),
        match deposit_spec(
            old(ledger)@,
            sender@,
            funds@.map_values(|c: Coin| c@),
            native_denom@,
            campaign_id@,
        ) {
            Ok(s) => r is Ok && final(ledger)@ == s,
            Err(e) => r == Err::<(), ContractError>(e) && final(ledger)@ == old(ledger)@,
        },
{
    if funds.len() == 0 {
        return Err(ContractError::NoFundsSent);
    }
    if funds.len() > 1 {
        return Err(ContractError::MultipleCoinsRejected);
    }
    let coin = &funds[0];
    assert(funds@.map_values(|c: Coin| c@)[0] == coin@);
    if coin.denom != *native_denom {
        return Err(ContractError::InvalidDenom);
    }
    let existing = match ledger.campaign(&campaign_id) {
        Some(c) => Some((c.amount, c.owner.clone())),
        None => None,
    };
    match existing {
        Some((amount, owner)) => {
            if amount > u128::MAX - coin.amount {
                return Err(ContractError::Overflow);
            }
            ledger.put_campaign(campaign_id, Campaign { amount: amount + coin.amount, owner });
        },
        None => {
            ledger.put_campaign(campaign_id, Campaign { amount: coin.amount, owner: sender.clone() });
        },
    }
    Ok(())
}

/// Redeems a voucher: pays `amount` of `denom` from campaign `campaign_id` to
/// `sender`, once per `nonce`, if the trusted key signed the voucher.
pub fn claim(
    ledger: &mut Ledger,
    sender: &String,
    native_denom: &String,
    campaign_id: String,
    denom: String,
    amount: u128,
    nonce: String,
    signature: &Vec<u8>,
) -> (r: Result<Transfer, ContractError>)
    requires
        old(ledger).wf(),
    ensures
        final(ledger).wf(),
        match claim_spec(
            old(ledger)@,
            sender@,
            native_denom@,
            campaign_id@,
            denom@,
            amount,
            nonce@,
            signature@,
        ) {
            Ok((s, t)) => r matches Ok(x) && x@ == t && final(ledger)@ == s,
            Err(e) => r == Err::<Transfer, ContractError>(e) && final(ledger)@ == old(ledger)@,
        },
{
    if ledger.has_nonce(&nonce) {
        return Err(ContractError::NonceUsed);
    }
    let data = SignedData {
        campaign_id: campaign_id.clone(),
        nonce: nonce.clone(),
        denom: denom.clone(),
        amount,
        sender: sender.clone(),
    };
    match verify_arbitrary(ledger.pubkey().as_slice(), &data, signature.as_slice()) {
        Ok(()) => {},
        Err(e) => {
            return Err(e);
        },
    }
    let (balance, owner) = match ledger.campaign(&campaign_id) {
        Some(c) => (c.amount, c.owner.clone()),
        None => {
            return Err(ContractError::CampaignNotFound);
        },
    };
    if amount >= balance {
        return Err(ContractError::InsufficientCampaignFunds);
    }
    if denom != *native_denom {
        return Err(ContractError::InvalidDenom);
    }
    ledger.put_campaign(campaign_id, Campaign { amount: balance - amount, owner });
    ledger.record_nonce(nonce);
    Ok(Transfer { to_address: sender.clone(), denom, amount })
}

/// Pays `amount` of the native token from the contract's balance to the admin.
pub fn withdraw(
    ledger: &Ledger,
    sender: &String,
    native_denom: &String,
    contract_balance: u128,
    amount: u128,
) -> (r: Result<Transfer, ContractError>)
    requires
        ledger.wf(),
    ensures
        match withdraw_spec(ledger@, sender@, native_denom@, contract_balance, amount) {
            Ok(t) => r matches Ok(x) && x@ == t,
            Err(e) => r == Err::<Transfer, ContractError>(e),
        },
{
    if *sender != *ledger.admin() {
        return Err(ContractError::Unauthorized);
    }
    if amount > contract_balance {
        return Err(ContractError::InsufficientBalance);
    }
    Ok(Transfer { to_address: ledger.admin().clone(), denom: native_denom.clone(), amount })
}

/// Closes campaign `campaign_id`, paying any balance to its owner.
pub fn cancel(ledger: &mut Ledger, sender: &String, native_denom: &String, campaign_id: String) -> (r:
    Result<Option<Transfer>, ContractError>)
    requires
        old(ledger).wf(),
    ensures
        final(ledger).wf(),
        match cancel_spec(old(ledger)@, sender@, native_denom@, campaign_id@) {
            Ok((s, t)) => r matches Ok(x) && final(ledger)@ == s && match t {
                Some(tm) => x matches Some(xt) && xt@ == tm,
                None => x is None,
            },
            Err(e) => r == Err::<Option<Transfer>, ContractError>(e) && final(ledger)@ == old(
                ledger,
            )@,
        },
{
    let (amount, owner) = match ledger.campaign(&campaign_id) {
        Some(c) => (c.amount, c.owner.clone()),
        None => {
            return Err(ContractError::CampaignNotFound);
        },
    };
    if *sender != *ledger.admin() && *sender != owner {
        return Err(ContractError::Unauthorized);
    }
    let _closed = ledger.remove_campaign(&campaign_id);
    if amount == 0 {
        return Ok(None);
    }
    Ok(Some(Transfer { to_address: owner, denom: native_denom.clone(), amount }))
}

/// Sets the balance of campaign `campaign_id` to `amount`, at the admin's request.
pub fn set_cpool(ledger: &mut Ledger, sender: &String, campaign_id: String, amount: u128) -> (r:
    Result<(), ContractError>)
    requires
        old(ledger).wf(),
    ensures
        final(ledger).wf(),
        match set_cpool_spec(old(ledger)@, sender@, campaign_id@, amount) {
            Ok(s) => r is Ok && final(ledger)@ == s,
            Err(e) => r == Err::<(), ContractError>(e) && final(ledger)@ == old(ledger)@,
        },
{
    if *sender != *ledger.admin() {
        return Err(ContractError::Unauthorized);
    }
    let owner = match ledger.campaign(&campaign_id) {
        Some(c) => c.owner.clone(),
        None => sender.clone(),
    };
    ledger.put_campaign(campaign_id, Campaign { amount, owner });
    Ok(())
}

/// The record of campaign `campaign_id`.
pub fn query_campaign_pool(ledger: &Ledger, campaign_id: &String) -> (r: Result<
    Campaign,
    ContractError,
>)
    requires
        ledger.wf(),
    ensures
        match query_spec(ledger@, campaign_id@) {
            Ok(c) => r matches Ok(x) && x@ == c,
            Err(e) => r == Err::<Campaign, ContractError>(e),
        },
{
    match ledger.campaign(campaign_id) {
        Some(c) => Ok(c.duplicate()),
        None => Err(ContractError::CampaignNotFound),
    }
}

/// The transfers of a response, as values.
pub open spec fn transfers_view(v: Seq<Transfer>) -> Seq<TransferModel> {
    v.map_values(|t: Transfer| t@)
}

/// What an operation does to the ledger and which transfers it emits.
pub open spec fn execute_spec(s: LedgerModel, call: InvocationModel, msg: ExecuteMsgModel) -> Result<
    (LedgerModel, Seq<TransferModel>),
    ContractError,
> {
    match msg {
        ExecuteMsgModel::EditAdmin { new_admin } => match edit_admin_spec(
            s,
            call.sender,
            new_admin,
        ) {
            Ok(n) => Ok((n, Seq::empty())),
            Err(e) => Err(e),
        },
        ExecuteMsgModel::Deposit { campaign_id } => match deposit_spec(
            s,
            call.sender,
            call.funds,
            call.native_denom,
            campaign_id,
        ) {
            Ok(n) => Ok((n, Seq::empty())),
            Err(e) => Err(e),
        },
        ExecuteMsgModel::Claim { campaign_id, amount, denom, nonce, signature } => match claim_spec(
            s,
            call.sender,
            call.native_denom,
            campaign_id,
            denom,
            amount,
            nonce,
            signature,
        ) {
            Ok((n, t)) => Ok((n, seq![t])),
            Err(e) => Err(e),
        },
        ExecuteMsgModel::Withdraw { amount } => match withdraw_spec(
            s,
            call.sender,
            call.native_denom,
            call.contract_balance,
            amount,
        ) {
            Ok(t) => Ok((s, seq![t])),
            Err(e) => Err(e),
        },
        ExecuteMsgModel::Cancel { campaign_id } => match cancel_spec(
            s,
            call.sender,
            call.native_denom,
            campaign_id,
        ) {
            Ok((n, Some(t))) => Ok((n, seq![t])),
            Ok((n, None)) => Ok((n, Seq::empty())),
            Err(e) => Err(e),
        },
        ExecuteMsgModel::SetCpool { campaign_id, amount } => match set_cpool_spec(
            s,
            call.sender,
            campaign_id,
            amount,
        ) {
            Ok(n) => Ok((n, Seq::empty())),
            Err(e) => Err(e),
        },
    }
}

/// Runs one operation for the call described by `call`. A rejected operation
/// leaves the ledger as it was.
pub fn execute(ledger: &mut Ledger, call: &Invocation, msg: ExecuteMsg) -> (r: Result<
    Vec<Transfer>,
    ContractError,
>)
    requires
        old(ledger).wf(),
    ensures
        final(ledger).wf(),
        match execute_spec(old(ledger)@, call@, msg@) {
            Ok((s, t)) => r matches Ok(x) && transfers_view(x@) == t && final(ledger)@ == s,
            Err(e) => r == Err::<Vec<Transfer>, ContractError>(e) && final(ledger)@ == old(
                ledger,
            )@,
        },
{
    match msg {
        ExecuteMsg::EditAdmin { new_admin } => {
            edit_admin(ledger, &call.sender, new_admin)?;
            Ok(Vec::new())
        },
        ExecuteMsg::Deposit { campaign_id } => {
            deposit(ledger, &call.sender, &call.funds, &call.native_denom, campaign_id)?;
            Ok(Vec::new())
        },
        ExecuteMsg::Claim { campaign_id, amount, denom, nonce, signature } => {
            let t = claim(
                ledger,
                &call.sender,
                &call.native_denom,
                campaign_id,
                denom,
                amount,
                nonce,
                &signature,
            )?;
            let out = vec![t];
            assert(transfers_view(out@) =~= seq![out@[0]@]);
            Ok(out)
        },
        ExecuteMsg::Withdraw { amount } => {
            let t = withdraw(
                ledger,
                &call.sender,
                &call.native_denom,
                call.contract_balance,
                amount,
            )?;
            let out = vec![t];
            assert(transfers_view(out@) =~= seq![out@[0]@]);
            Ok(out)
        },
        ExecuteMsg::Cancel { campaign_id } => {
            match cancel(ledger, &call.sender, &call.native_denom, campaign_id)? {
                Some(t) => {
                    let out = vec![t];
                    assert(transfers_view(out@) =~= seq![out@[0]@]);
                    Ok(out)
                },
                None => {
                    let out: Vec<Transfer> = Vec::new();
                    assert(transfers_view(out@) =~= Seq::empty());
                    Ok(out)
                },
            }
        },
        ExecuteMsg::SetCpool { campaign_id, amount } => {
            set_cpool(ledger, &call.sender, campaign_id, amount)?;
            Ok(Vec::new())
        },
    }
}

/// Answers a query on the ledger.
pub fn query(ledger: &Ledger, msg: &QueryMsg) -> (r: Result<Campaign, ContractError>)
    requires
        ledger.wf(),
    ensures
        match msg {
            QueryMsg::GetCpool { campaign_id } => match query_spec(ledger@, campaign_id@) {
                Ok(c) => r matches Ok(x) && x@ == c,
                Err(e) => r == Err::<Campaign, ContractError>(e),
            },
        },
{
    match msg {
        QueryMsg::GetCpool { campaign_id } => query_campaign_pool(ledger, campaign_id),
    }
}

} // verus!
