use vstd::prelude::*;

use crate::address::valid_eth_address;
use crate::error::{ErrorCode, LedgerError};
use crate::events::{BurnEvent, LockEvent, MintEvent};
use crate::pubkey::Pubkey;
use crate::state::{BridgeState, BridgeView, MAX_PROCESSED_NONCES};

verus! {

/// Creates the bridge record in an empty slot, owned by `owner`. An existing record is
/// never overwritten.
pub fn initialize(slot: &mut Option<BridgeState>, owner: Pubkey) -> (r: Result<(), ErrorCode>)
    ensures
        match *old(slot) {
            Some(_) => r == Err::<(), ErrorCode>(ErrorCode::AlreadyInitialized) && *final(slot)
                == *old(slot),
            None => r == Ok::<(), ErrorCode>(()) && match *final(slot) {
                Some(s) => s@ == BridgeView::initial(owner) && s@.wf(),
                None => false,
            },
        },
{
    if slot.is_some() {
        return Err(ErrorCode::AlreadyInitialized);
    }
    *slot = Some(BridgeState::new(owner));
    Ok(())
}

/// Checks a lock or burn against the bridge's rules before the token ledger is asked to
/// move anything.
pub fn check_outbound(state: &BridgeState, amount: u64, eth_recipient: &str) -> (r: Result<
    (),
    ErrorCode,
>)
    ensures
        r == match state@.outbound_error(amount, eth_recipient@) {
            Some(e) => Err(e),
            None => Ok::<(), ErrorCode>(()),
        },
{
    if state.paused {
        return Err(ErrorCode::BridgePaused);
    }
    if amount == 0 {
        return Err(ErrorCode::InvalidAmount);
    }
    if !valid_eth_address(eth_recipient) {
        return Err(ErrorCode::InvalidEthAddress);
    }
    if state.nonce == u64::MAX {
        return Err(ErrorCode::NonceOverflow);
    }
    Ok(())
}

/// Advances the nonce once the ledger has accepted a lock or burn, or leaves the record
/// as it was. Returns the nonce that the transfer took.
fn commit_outbound(
    state: &mut BridgeState,
    amount: u64,
    eth_recipient: &str,
    ledger: Result<(), LedgerError>,
) -> (r: Result<u64, ErrorCode>)
    requires
        old(state)@.wf(),
    ensures
        r == old(state)@.outbound_result(amount, eth_recipient@, ledger),
        final(state)@ == old(state)@.outbound_next(amount, eth_recipient@, ledger),
        final(state)@.wf(),
{
    match check_outbound(state, amount, eth_recipient) {
        Err(e) => Err(e),
        Ok(()) => match ledger {
            Err(le) => Err(ErrorCode::Ledger(le)),
            Ok(()) => {
                state.nonce = state.nonce + 1;
                Ok(state.nonce)
            },
        },
    }
}

/// Locks `amount` of `user`'s tokens in the bridge's custody for `eth_recipient` on the
/// foreign ledger. `transfer` is what the token ledger answered to the debit, which is
/// asked for only once `check_outbound` has passed.
pub fn lock(
    state: &mut BridgeState,
    user: Pubkey,
    amount: u64,
    eth_recipient: String,
    transfer: Result<(), LedgerError>,
    timestamp: i64,
) -> (r: Result<LockEvent, ErrorCode>)
    requires
        old(state)@.wf(),
    ensures
        final(state)@ == old(state)@.outbound_next(amount, eth_recipient@, transfer),
        final(state)@.wf(),
        match r {
            Ok(ev) => old(state)@.outbound_result(amount, eth_recipient@, transfer) == Ok::<
                u64,
                ErrorCode,
            >(ev.nonce) && ev.from == user && ev.amount == amount && ev.eth_recipient
                == eth_recipient && ev.timestamp == timestamp,
            Err(e) => old(state)@.outbound_result(amount, eth_recipient@, transfer) == Err::<
                u64,
                ErrorCode,
            >(e),
        },
{
    match commit_outbound(state, amount, eth_recipient.as_str(), transfer) {
        Err(e) => Err(e),
        Ok(nonce) => Ok(LockEvent { from: user, amount, nonce, eth_recipient, timestamp }),
    }
}

/// Burns `amount` of `user`'s wrapped tokens so that `eth_recipient` can be paid on the
/// home ledger. `burned` is what the token ledger answered to the burn, which is asked
/// for only once `check_outbound` has passed.
pub fn burn(
    state: &mut BridgeState,
    user: Pubkey,
    amount: u64,
    eth_recipient: String,
    burned: Result<(), LedgerError>,
) -> (r: Result<BurnEvent, ErrorCode>)
    requires
        old(state)@.wf(),
    ensures
        final(state)@ == old(state)@.outbound_next(amount, eth_recipient@, burned),
        final(state)@.wf(),
        match r {
            Ok(ev) => old(state)@.outbound_result(amount, eth_recipient@, burned) == Ok::<
                u64,
                ErrorCode,
            >(ev.nonce) && ev.from == user && ev.amount == amount && ev.eth_recipient
                == eth_recipient,
            Err(e) => old(state)@.outbound_result(amount, eth_recipient@, burned) == Err::<
                u64,
                ErrorCode,
            >(e),
        },
{
    match commit_outbound(state, amount, eth_recipient.as_str(), burned) {
        Err(e) => Err(e),
        Ok(nonce) => Ok(BurnEvent { from: user, amount, nonce, eth_recipient }),
    }
}

/// Checks a mint against the bridge's rules, in order: not paused, nonce not consumed,
/// caller is the owner, room left to record the nonce.
pub fn check_mint(state: &BridgeState, authority: Pubkey, nonce: u64) -> (r: Result<
    (),
    ErrorCode,
>)
    ensures
        r == match state@.mint_error(authority, nonce) {
            Some(e) => Err(e),
            None => Ok::<(), ErrorCode>(()),
        },
{
    if state.paused {
        return Err(ErrorCode::BridgePaused);
    }
    if state.is_processed(nonce) {
        return Err(ErrorCode::AlreadyProcessed);
    }
    if !authority.same_as(&state.owner) {
        return Err(ErrorCode::Unauthorized);
    }
    if state.processed_nonces.len() >= MAX_PROCESSED_NONCES {
        return Err(ErrorCode::ProcessedNoncesFull);
    }
    Ok(())
}

/// Mints `amount` wrapped tokens to `recipient` for the foreign lock numbered `nonce`,
/// and consumes the nonce. `minted` is what the token ledger answered to the mint,
/// which is asked for only once `check_mint` has passed. The nonce is consumed exactly
/// when the mint succeeds.
pub fn mint(
    state: &mut BridgeState,
    authority: Pubkey,
    recipient: Pubkey,
    amount: u64,
    nonce: u64,
    minted: Result<(), LedgerError>,
) -> (r: Result<MintEvent, ErrorCode>)
    requires
        old(state)@.wf(),
    ensures
        final(state)@ == old(state)@.mint_next(authority, nonce, minted),
        final(state)@.wf(),
        match r {
            Ok(ev) => old(state)@.mint_result(authority, nonce, minted) == Ok::<(), ErrorCode>(
                (),
            ) && ev == (MintEvent { to: recipient, amount, nonce }),
            Err(e) => old(state)@.mint_result(authority, nonce, minted) == Err::<(), ErrorCode>(
                e,
            ),
        },
{
    match check_mint(state, authority, nonce) {
        Err(e) => Err(e),
        Ok(()) => match minted {
            Err(le) => Err(ErrorCode::Ledger(le)),
            Ok(()) => {
                state.processed_nonces.push(nonce);
                proof {
                    let v = old(state)@.processed;
                    assert forall|i: int, j: int|
                        0 <= i < j < v.push(nonce).len() implies v.push(nonce)[i] != v.push(
                            nonce,
                        )[j] by {
                        if j == v.len() {
                            assert(v.contains(v[i]));
                        }
                    }
                }
                Ok(MintEvent { to: recipient, amount, nonce })
            },
        },
    }
}

/// Sets the pause flag, if `caller` is the owner. Pausing a paused bridge succeeds.
pub fn pause(state: &mut BridgeState, caller: Pubkey) -> (r: Result<(), ErrorCode>)
    requires
        old(state)@.wf(),
    ensures
        r == old(state)@.toggle_result(caller),
        final(state)@ == old(state)@.toggle_next(caller, true),
        final(state)@.wf(),
{
    set_paused(state, caller, true)
}

/// Clears the pause flag, if `caller` is the owner. Unpausing an active bridge succeeds.
pub fn unpause(state: &mut BridgeState, caller: Pubkey) -> (r: Result<(), ErrorCode>)
    requires
        old(state)@.wf(),
    ensures
        r == old(state)@.toggle_result(caller),
        final(state)@ == old(state)@.toggle_next(caller, false),
        final(state)@.wf(),
{
    set_paused(state, caller, false)
}

fn set_paused(state: &mut BridgeState, caller: Pubkey, paused: bool) -> (r: Result<
    (),
    ErrorCode,
>)
    requires
        old(state)@.wf(),
    ensures
        r == old(state)@.toggle_result(caller),
        final(state)@ == old(state)@.toggle_next(caller, paused),
        final(state)@.wf(),
{
    if !caller.same_as(&state.owner) {
        return Err(ErrorCode::Unauthorized);
    }
    state.paused = paused;
    Ok(())
}

} // verus!
