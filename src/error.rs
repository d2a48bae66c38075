use vstd::prelude::*;

verus! {

/// A failure reported by the token ledger that carries out a debit, mint or burn.
#[derive(Clone, Copy, Debug, PartialEq, Eq, Structural)]
pub struct LedgerError {
    /// The ledger's own numeric code for the failure.
    pub code: u32,
}

/// Why a bridge instruction was rejected. A rejected instruction changes nothing.
#[derive(Clone, Copy, Debug, PartialEq, Eq, Structural)]
pub enum ErrorCode {
    /// Lock, mint and burn are refused while the bridge is paused.
    BridgePaused,
    /// The nonce of a mint has been consumed already: never retry it.
    AlreadyProcessed,
    /// The caller is not the bridge owner.
    Unauthorized,
    /// The destination is not a `0x`-prefixed, 40-digit hexadecimal address.
    InvalidEthAddress,
    /// The bridge record exists already.
    AlreadyInitialized,
    /// A lock or burn of nothing.
    InvalidAmount,
    /// The nonce counter is at its largest value and cannot advance.
    NonceOverflow,
    /// The record of processed nonces is at its capacity.
    ProcessedNoncesFull,
    /// The token ledger refused the transfer.
    Ledger(LedgerError),
}

} // verus!
