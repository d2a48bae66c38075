use vstd::prelude::*;

use crate::error::{ErrorCode, LedgerError};
use crate::pubkey::Pubkey;
use crate::state::BridgeView;

verus! {

/// One instruction sent to the bridge, together with the token ledger's answer where
/// the instruction asks the ledger for something.
pub enum Instruction {
    Lock { user: Pubkey, amount: u64, eth_recipient: Seq<char>, transfer: Result<(), LedgerError> },
    Mint {
        authority: Pubkey,
        recipient: Pubkey,
        amount: u64,
        nonce: u64,
        minted: Result<(), LedgerError>,
    },
    Burn { user: Pubkey, amount: u64, eth_recipient: Seq<char>, burned: Result<(), LedgerError> },
    Pause { caller: Pubkey },
    Unpause { caller: Pubkey },
}

/// The record after one instruction, and whether the instruction succeeded, as the
/// contracts of `lock`, `mint`, `burn`, `pause` and `unpause` describe them.
pub open spec fn step(v: BridgeView, ins: Instruction) -> (BridgeView, bool) {
    match ins {
        Instruction::Lock { amount, eth_recipient, transfer, .. } => (
            v.outbound_next(amount, eth_recipient, transfer),
            v.outbound_result(amount, eth_recipient, transfer) is Ok,
        ),
        Instruction::Mint { authority, nonce, minted, .. } => (
            v.mint_next(authority, nonce, minted),
            v.mint_result(authority, nonce, minted) is Ok,
        ),
        Instruction::Burn { amount, eth_recipient, burned, .. } => (
            v.outbound_next(amount, eth_recipient, burned),
            v.outbound_result(amount, eth_recipient, burned) is Ok,
        ),
        Instruction::Pause { caller } => (
            v.toggle_next(caller, true),
            v.toggle_result(caller) is Ok,
        ),
        Instruction::Unpause { caller } => (
            v.toggle_next(caller, false),
            v.toggle_result(caller) is Ok,
        ),
    }
}

/// The record after a sequence of instructions, applied in order.
pub open spec fn run(v: BridgeView, trace: Seq<Instruction>) -> BridgeView
    decreases trace.len(),
{
    if trace.len() == 0 {
        v
    } else {
        step(run(v, trace.drop_last()), trace.last()).0
    }
}

/// Whether the last instruction of `trace` succeeded.
pub open spec fn last_succeeded(v: BridgeView, trace: Seq<Instruction>) -> bool
    recommends
        trace.len() > 0,
{
    step(run(v, trace.drop_last()), trace.last()).1
}

/// How many mints of `nonce` succeeded along `trace`.
pub open spec fn successful_mints(v: BridgeView, trace: Seq<Instruction>, nonce: u64) -> nat
    decreases trace.len(),
{
    if trace.len() == 0 {
        0
    } else {
        successful_mints(v, trace.drop_last(), nonce) + if last_succeeded(v, trace) && (
        trace.last() matches Instruction::Mint { nonce: n, .. } && n == nonce) {
            1nat
        } else {
            0nat
        }
    }
}

/// How many locks and burns succeeded along `trace`.
pub open spec fn successful_outbound(v: BridgeView, trace: Seq<Instruction>) -> nat
    decreases trace.len(),
{
    if trace.len() == 0 {
        0
    } else {
        successful_outbound(v, trace.drop_last()) + if last_succeeded(v, trace) && (
        trace.last() is Lock || trace.last() is Burn) {
            1nat
        } else {
            0nat
        }
    }
}

proof fn lemma_mints_track_processed(v: BridgeView, trace: Seq<Instruction>, nonce: u64)
    ensures
        v.processed.contains(nonce) ==> run(v, trace).processed.contains(nonce),
        successful_mints(v, trace, nonce) == if run(v, trace).processed.contains(nonce)
            && !v.processed.contains(nonce) {
            1nat
        } else {
            0nat
        },
    decreases trace.len(),
{
    if trace.len() > 0 {
        let prefix = trace.drop_last();
        lemma_mints_track_processed(v, prefix, nonce);
        let u = run(v, prefix);
        match trace.last() {
            Instruction::Mint { authority, nonce: n, minted, .. } => {
                if u.mint_result(authority, n, minted) is Ok {
                    assert(u.mint_next(authority, n, minted).processed == u.processed.push(n));
                    assert(u.processed.push(n).contains(n)) by {
                        assert(u.processed.push(n)[u.processed.len() as int] == n);
                    }
                    if u.processed.contains(nonce) {
                        let i = choose|i: int| 0 <= i < u.processed.len() && u.processed[i] == nonce;
                        assert(u.processed.push(n)[i] == nonce);
                    }
                    if n != nonce && u.processed.push(n).contains(nonce) {
                        let i = choose|i: int|
                            0 <= i < u.processed.push(n).len() && u.processed.push(n)[i] == nonce;
                        assert(u.processed[i] == nonce);
                    }
                }
            },
            _ => {},
        }
    }
}

/// Replay safety: whatever instructions arrive, in whatever order and however often
/// repeated, at most one mint of a given nonce succeeds, and none succeeds for a nonce
/// that the record had consumed already.
pub proof fn replay_safety(v: BridgeView, trace: Seq<Instruction>, nonce: u64)
    ensures
        successful_mints(v, trace, nonce) <= 1,
        v.processed.contains(nonce) ==> successful_mints(v, trace, nonce) == 0,
{
    lemma_mints_track_processed(v, trace, nonce);
}

/// A mint of a nonce that the record has consumed fails with `AlreadyProcessed`, unless
/// the bridge is paused, and changes nothing.
pub proof fn consumed_nonce_is_refused(
    v: BridgeView,
    authority: Pubkey,
    nonce: u64,
    minted: Result<(), LedgerError>,
)
    requires
        v.processed.contains(nonce),
    ensures
        v.mint_result(authority, nonce, minted) is Err,
        v.mint_next(authority, nonce, minted) == v,
        !v.paused ==> v.mint_result(authority, nonce, minted) == Err::<(), ErrorCode>(
            ErrorCode::AlreadyProcessed,
        ),
{
}

/// Nonce monotonicity: along any sequence of instructions the nonce counter grows by
/// exactly the number of locks and burns that succeeded, and never decreases.
pub proof fn nonce_counts_outbound(v: BridgeView, trace: Seq<Instruction>)
    ensures
        run(v, trace).nonce == v.nonce + successful_outbound(v, trace),
        run(v, trace).nonce >= v.nonce,
    decreases trace.len(),
{
    if trace.len() > 0 {
        nonce_counts_outbound(v, trace.drop_last());
    }
}

/// From initialisation, the nonce counter equals the number of successful locks and
/// burns since.
pub proof fn nonce_from_initialisation(owner: Pubkey, trace: Seq<Instruction>)
    ensures
        run(BridgeView::initial(owner), trace).nonce == successful_outbound(
            BridgeView::initial(owner),
            trace,
        ),
{
    nonce_counts_outbound(BridgeView::initial(owner), trace);
}

/// Pause exclusivity: while the bridge is paused, every lock, mint and burn fails with
/// `BridgePaused` and changes nothing.
pub proof fn paused_bridge_refuses(v: BridgeView, ins: Instruction)
    requires
        v.paused,
        ins is Lock || ins is Mint || ins is Burn,
    ensures
        !step(v, ins).1,
        step(v, ins).0 == v,
        match ins {
            Instruction::Lock { amount, eth_recipient, transfer, .. } => v.outbound_result(
                amount,
                eth_recipient,
                transfer,
            ) == Err::<u64, ErrorCode>(ErrorCode::BridgePaused),
            Instruction::Burn { amount, eth_recipient, burned, .. } => v.outbound_result(
                amount,
                eth_recipient,
                burned,
            ) == Err::<u64, ErrorCode>(ErrorCode::BridgePaused),
            Instruction::Mint { authority, nonce, minted, .. } => v.mint_result(
                authority,
                nonce,
                minted,
            ) == Err::<(), ErrorCode>(ErrorCode::BridgePaused),
            _ => true,
        },
{
}

/// Once paused, no lock, mint or burn succeeds until an unpause succeeds.
pub proof fn pause_holds_until_unpause(v: BridgeView, trace: Seq<Instruction>)
    requires
        v.paused,
        forall|i: int|
            0 <= i < trace.len() && trace[i] is Unpause ==> !#[trigger] last_succeeded(
                v,
                trace.subrange(0, i + 1),
            ),
    ensures
        run(v, trace).paused,
        forall|i: int|
            0 <= i < trace.len() && (trace[i] is Lock || trace[i] is Mint || trace[i] is Burn)
                ==> !#[trigger] last_succeeded(v, trace.subrange(0, i + 1)),
    decreases trace.len(),
{
    if trace.len() > 0 {
        let prefix = trace.drop_last();
        assert forall|i: int|
            0 <= i < prefix.len() && prefix[i] is Unpause implies !#[trigger] last_succeeded(
                v,
                prefix.subrange(0, i + 1),
            ) by {
            assert(prefix.subrange(0, i + 1) =~= trace.subrange(0, i + 1));
        }
        pause_holds_until_unpause(v, prefix);
        let k = trace.len() - 1;
        assert(trace.subrange(0, k + 1) =~= trace);
        assert(trace.subrange(0, k + 1).drop_last() =~= prefix);
        if trace[k] is Unpause {
            assert(!last_succeeded(v, trace.subrange(0, k + 1)));
        }
        assert forall|i: int|
            0 <= i < trace.len() && (trace[i] is Lock || trace[i] is Mint || trace[i] is Burn)
                implies !#[trigger] last_succeeded(v, trace.subrange(0, i + 1)) by {
            if i < k {
                assert(prefix.subrange(0, i + 1) =~= trace.subrange(0, i + 1));
                assert(prefix[i] == trace[i]);
            }
        }
    }
}

/// Only the owner can pause or unpause; for anyone else the call fails with
/// `Unauthorized` and changes nothing.
pub proof fn only_owner_toggles(v: BridgeView, caller: Pubkey, paused: bool)
    ensures
        v.toggle_result(caller) is Ok <==> caller == v.owner,
        caller != v.owner ==> v.toggle_result(caller) == Err::<(), ErrorCode>(
            ErrorCode::Unauthorized,
        ) && v.toggle_next(caller, paused) == v,
        caller == v.owner ==> v.toggle_next(caller, paused) == (BridgeView { paused, ..v }),
{
}

/// Atomicity: when the token ledger refuses its part, the instruction fails and the
/// record is left exactly as it was; where the bridge's own checks passed, the error
/// is the ledger's.
pub proof fn ledger_failure_changes_nothing(
    v: BridgeView,
    amount: u64,
    eth_recipient: Seq<char>,
    authority: Pubkey,
    nonce: u64,
    failure: LedgerError,
)
    ensures
        v.outbound_result(amount, eth_recipient, Err(failure)) is Err,
        v.outbound_next(amount, eth_recipient, Err(failure)) == v,
        v.outbound_error(amount, eth_recipient) is None ==> v.outbound_result(
            amount,
            eth_recipient,
            Err(failure),
        ) == Err::<u64, ErrorCode>(ErrorCode::Ledger(failure)),
        v.mint_result(authority, nonce, Err(failure)) is Err,
        v.mint_next(authority, nonce, Err(failure)) == v,
        v.mint_error(authority, nonce) is None ==> v.mint_result(authority, nonce, Err(failure))
            == Err::<(), ErrorCode>(ErrorCode::Ledger(failure)),
{
}

/// Authorization: a mint by anyone but the owner fails and changes nothing; when the
/// bridge is active and the nonce fresh, the error is `Unauthorized`.
pub proof fn mint_requires_owner(
    v: BridgeView,
    authority: Pubkey,
    nonce: u64,
    minted: Result<(), LedgerError>,
)
    requires
        authority != v.owner,
    ensures
        v.mint_result(authority, nonce, minted) is Err,
        v.mint_next(authority, nonce, minted) == v,
        !v.paused && !v.processed.contains(nonce) ==> v.mint_result(authority, nonce, minted)
            == Err::<(), ErrorCode>(ErrorCode::Unauthorized),
{
}

/// Locks and burns never consult the owner: a record that differs only in its owner
/// gives the same result and the same change.
pub proof fn outbound_ignores_owner(
    v: BridgeView,
    other: Pubkey,
    amount: u64,
    eth_recipient: Seq<char>,
    ledger: Result<(), LedgerError>,
)
    ensures
        (BridgeView { owner: other, ..v }).outbound_result(amount, eth_recipient, ledger)
            == v.outbound_result(amount, eth_recipient, ledger),
        (BridgeView { owner: other, ..v }).outbound_next(amount, eth_recipient, ledger) == (
        BridgeView { owner: other, ..v.outbound_next(amount, eth_recipient, ledger) }),
{
}

} // verus!
