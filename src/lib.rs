//! The state machine of a two-way token bridge: lock and burn on one ledger, replay-safe
//! mint on the other, guarded by an owner and a pause flag.

mod address;
mod error;
mod events;
mod instructions;
mod laws;
mod pubkey;
mod state;

pub use address::{is_eth_address, is_hex_digit, valid_eth_address, ETH_ADDRESS_LEN};
pub use error::{ErrorCode, LedgerError};
pub use events::{BurnEvent, LockEvent, MintEvent};
pub use instructions::{
    burn, check_mint, check_outbound, initialize, lock, mint, pause, unpause,
};
pub use laws::{
    consumed_nonce_is_refused, last_succeeded, ledger_failure_changes_nothing,
    mint_requires_owner, nonce_counts_outbound, nonce_from_initialisation, only_owner_toggles,
    outbound_ignores_owner, pause_holds_until_unpause, paused_bridge_refuses, replay_safety,
    run, step, successful_mints, successful_outbound, Instruction,
};
pub use pubkey::Pubkey;
pub use state::{BridgeState, BridgeView, MAX_PROCESSED_NONCES};
