use vstd::prelude::*;

verus! {

/// A campaign's record: its balance in the smallest unit of the native token,
/// and the account that receives the balance when the campaign is cancelled.
#[derive(Debug, PartialEq, Eq)]
pub struct Campaign {
    pub amount: u128,
    pub owner: String,
}

/// What a campaign record says, as values.
pub ghost struct CampaignModel {
    pub amount: u128,
    pub owner: Seq<char>,
}

impl View for Campaign {
    type V = CampaignModel;

    open spec fn view(&self) -> CampaignModel {
        CampaignModel { amount: self.amount, owner: self.owner@ }
    }
}

impl Campaign {
    /// A copy of the record.
    pub fn duplicate(&self) -> (r: Campaign)
        ensures
            r@ == self@,
    {
        Campaign { amount: self.amount, owner: self.owner.clone() }
    }
}

/// An amount of one denomination, as attached to a call.
#[derive(Debug, PartialEq, Eq)]
pub struct Coin {
    pub denom: String,
    pub amount: u128,
}

pub ghost struct CoinModel {
    pub denom: Seq<char>,
    pub amount: u128,
}

impl View for Coin {
    type V = CoinModel;

    open spec fn view(&self) -> CoinModel {
        CoinModel { denom: self.denom@, amount: self.amount }
    }
}

/// An instruction to the host: pay `amount` of `denom` to `to_address`.
#[derive(Debug, PartialEq, Eq)]
pub struct Transfer {
    pub to_address: String,
    pub denom: String,
    pub amount: u128,
}

pub ghost struct TransferModel {
    pub to_address: Seq<char>,
    pub denom: Seq<char>,
    pub amount: u128,
}

impl View for Transfer {
    type V = TransferModel;

    open spec fn view(&self) -> TransferModel {
        TransferModel { to_address: self.to_address@, denom: self.denom@, amount: self.amount }
    }
}

/// Why an operation was rejected. A rejected operation changes nothing.
#[derive(Debug, Clone, Copy, PartialEq, Eq, Structural)]
pub enum ContractError {
    /// The caller is neither the admin nor, where that suffices, the campaign's owner.
    Unauthorized,
    /// No campaign is recorded under the given identifier.
    CampaignNotFound,
    /// A deposit carried no coin.
    NoFundsSent,
    /// A deposit carried more than one coin.
    MultipleCoinsRejected,
    /// A coin or a voucher names a denomination other than the native one.
    InvalidDenom,
    /// The voucher's signature does not verify against the trusted key.
    InvalidSignature,
    /// The voucher's nonce was consumed by an earlier claim.
    NonceUsed,
    /// The campaign's balance is not larger than the amount claimed.
    InsufficientCampaignFunds,
    /// The contract holds less than the amount to withdraw.
    InsufficientBalance,
    /// A balance would exceed the largest 128-bit amount.
    Overflow,
}

/// The classes into which rejections fall.
#[derive(Debug, Clone, Copy, PartialEq, Eq, Structural)]
pub enum ErrorKind {
    Authorization,
    NotFound,
    Validation,
    Replay,
    Arithmetic,
}

pub open spec fn kind_of(e: ContractError) -> ErrorKind {
    match e {
        ContractError::Unauthorized => ErrorKind::Authorization,
        ContractError::CampaignNotFound => ErrorKind::NotFound,
        ContractError::NoFundsSent => ErrorKind::Validation,
        ContractError::MultipleCoinsRejected => ErrorKind::Validation,
        ContractError::InvalidDenom => ErrorKind::Validation,
        ContractError::InvalidSignature => ErrorKind::Validation,
        ContractError::NonceUsed => ErrorKind::Replay,
        ContractError::InsufficientCampaignFunds => ErrorKind::Arithmetic,
        ContractError::InsufficientBalance => ErrorKind::Arithmetic,
        ContractError::Overflow => ErrorKind::Arithmetic,
    }
}

impl ContractError {
    /// The class of this rejection.
    pub fn kind(&self) -> (r: ErrorKind)
        ensures
            r == kind_of(*self),
    {
        match self {
            ContractError::Unauthorized => ErrorKind::Authorization,
            ContractError::CampaignNotFound => ErrorKind::NotFound,
            ContractError::NoFundsSent => ErrorKind::Validation,
            ContractError::MultipleCoinsRejected => ErrorKind::Validation,
            ContractError::InvalidDenom => ErrorKind::Validation,
            ContractError::InvalidSignature => ErrorKind::Validation,
            ContractError::NonceUsed => ErrorKind::Replay,
            ContractError::InsufficientCampaignFunds => ErrorKind::Arithmetic,
            ContractError::InsufficientBalance => ErrorKind::Arithmetic,
            ContractError::Overflow => ErrorKind::Arithmetic,
        }
    }
}

} // verus!
