//! A campaign-scoped reward escrow. Depositors fund named campaigns; the
//! admin manages balances; claimants redeem vouchers signed off-chain by a
//! trusted secp256k1 key, at most once per nonce.

pub mod contract;
pub mod crypto;
pub mod laws;
pub mod ledger;
pub mod msg;
pub mod payload;
pub mod state;
