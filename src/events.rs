use vstd::prelude::*;

use crate::pubkey::Pubkey;

verus! {

/// Emitted by a successful lock: a relayer mints `amount` to `eth_recipient` on the
/// foreign ledger, keyed by `nonce`.
#[derive(Clone, Debug, PartialEq, Eq)]
pub struct LockEvent {
    pub from: Pubkey,
    pub amount: u64,
    pub nonce: u64,
    pub eth_recipient: String,
    pub timestamp: i64,
}

/// Emitted by a successful mint of wrapped tokens.
#[derive(Clone, Copy, Debug, PartialEq, Eq)]
pub struct MintEvent {
    pub to: Pubkey,
    pub amount: u64,
    pub nonce: u64,
}

/// Emitted by a successful burn: a relayer releases `amount` to `eth_recipient` on the
/// home ledger, keyed by `nonce`.
#[derive(Clone, Debug, PartialEq, Eq)]
pub struct BurnEvent {
    pub from: Pubkey,
    pub amount: u64,
    pub nonce: u64,
    pub eth_recipient: String,
}

} // verus!
