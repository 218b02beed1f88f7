use vstd::prelude::*;

use crate::state::{Coin, CoinModel};

verus! {

/// What a deployment is configured with: the key that signs vouchers.
#[derive(Debug, PartialEq, Eq)]
pub struct InstantiateMsg {
    pub pubkey: Vec<u8>,
}

/// A request to reward a user from a campaign.
#[derive(Debug, PartialEq, Eq)]
pub struct UserRewardRequest {
    pub campaign_id: String,
    pub user_address: String,
    pub denom: String,
    pub amount: u128,
}

/// Whether a user was rewarded from a campaign.
#[derive(Debug, PartialEq, Eq)]
pub struct UserRewardResponse {
    pub campaign_id: String,
    pub user_address: String,
    pub status: bool,
}

/// The operations that change the ledger.
#[derive(Debug, PartialEq, Eq)]
pub enum ExecuteMsg {
    EditAdmin { new_admin: String },
    Deposit { campaign_id: String },
    Claim {
        campaign_id: String,
        amount: u128,
        denom: String,
        nonce: String,
        signature: Vec<u8>,
    },
    Withdraw { amount: u128 },
    Cancel { campaign_id: String },
    SetCpool { campaign_id: String, amount: u128 },
}

pub ghost enum ExecuteMsgModel {
    EditAdmin { new_admin: Seq<char> },
    Deposit { campaign_id: Seq<char> },
    Claim {
        campaign_id: Seq<char>,
        amount: u128,
        denom: Seq<char>,
        nonce: Seq<char>,
        signature: Seq<u8>,
    },
    Withdraw { amount: u128 },
    Cancel { campaign_id: Seq<char> },
    SetCpool { campaign_id: Seq<char>, amount: u128 },
}

impl View for ExecuteMsg {
    type V = ExecuteMsgModel;

    open spec fn view(&self) -> ExecuteMsgModel {
        match self {
            ExecuteMsg::EditAdmin { new_admin } => ExecuteMsgModel::EditAdmin {
                new_admin: new_admin@,
            },
            ExecuteMsg::Deposit { campaign_id } => ExecuteMsgModel::Deposit {
                campaign_id: campaign_id@,
            },
            ExecuteMsg::Claim { campaign_id, amount, denom, nonce, signature } =>
                ExecuteMsgModel::Claim {
                campaign_id: campaign_id@,
                amount: *amount,
                denom: denom@,
                nonce: nonce@,
                signature: signature@,
            },
            ExecuteMsg::Withdraw { amount } => ExecuteMsgModel::Withdraw { amount: *amount },
            ExecuteMsg::Cancel { campaign_id } => ExecuteMsgModel::Cancel {
                campaign_id: campaign_id@,
            },
            ExecuteMsg::SetCpool { campaign_id, amount } => ExecuteMsgModel::SetCpool {
                campaign_id: campaign_id@,
                amount: *amount,
            },
        }
    }
}

/// The queries on the ledger.
#[derive(Debug, PartialEq, Eq)]
pub enum QueryMsg {
    GetCpool { campaign_id: String },
}

/// What the host tells an operation: who calls, what coins come with the
/// call, the native denomination, and the contract's own balance of it.
#[derive(Debug, PartialEq, Eq)]
pub struct Invocation {
    pub sender: String,
    pub funds: Vec<Coin>,
    pub native_denom: String,
    pub contract_balance: u128,
}

pub ghost struct InvocationModel {
    pub sender: Seq<char>,
    pub funds: Seq<CoinModel>,
    pub native_denom: Seq<char>,
    pub contract_balance: u128,
}

impl View for Invocation {
    type V = InvocationModel;

    open spec fn view(&self) -> InvocationModel {
        InvocationModel {
            sender: self.sender@,
            funds: self.funds@.map_values(|c: Coin| c@),
            native_denom: self.native_denom@,
            contract_balance: self.contract_balance,
        }
    }
}

} // verus!
