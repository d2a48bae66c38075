use vstd::prelude::*;

use crate::address::is_eth_address;
use crate::error::{ErrorCode, LedgerError};
use crate::pubkey::Pubkey;

verus! {

/// How many consumed mint nonces the bridge record can hold.
pub const MAX_PROCESSED_NONCES: usize = 10000;

/// The persistent record of one bridge instance.
pub struct BridgeState {
    /// The only account that may mint and toggle the pause flag.
    pub owner: Pubkey,
    /// The number of successful locks and burns so far; the nonce of the latest one.
    pub nonce: u64,
    /// While set, lock, mint and burn are refused.
    pub paused: bool,
    /// Every nonce consumed by a successful mint, in the order of the mints.
    pub processed_nonces: Vec<u64>,
}

/// The abstract content of a bridge record.
pub struct BridgeView {
    pub owner: Pubkey,
    pub nonce: u64,
    pub paused: bool,
    pub processed: Seq<u64>,
}

impl View for BridgeState {
    type V = BridgeView;

    open spec fn view(&self) -> BridgeView {
        BridgeView {
            owner: self.owner,
            nonce: self.nonce,
            paused: self.paused,
            processed: self.processed_nonces@,
        }
    }
}

impl BridgeView {
    /// Processed nonces are a set within the capacity.
    pub open spec fn wf(self) -> bool {
        &&& self.processed.no_duplicates()
        &&& self.processed.len() <= MAX_PROCESSED_NONCES
    }

    /// The record that initialisation creates for `owner`.
    pub open spec fn initial(owner: Pubkey) -> BridgeView {
        BridgeView { owner, nonce: 0, paused: false, processed: Seq::empty() }
    }

    /// The first rule that a lock or a burn breaks, if any. Both move value out
    /// towards the foreign ledger and both take a fresh nonce.
    pub open spec fn outbound_error(self, amount: u64, eth_recipient: Seq<char>) -> Option<
        ErrorCode,
    > {
        if self.paused {
            Some(ErrorCode::BridgePaused)
        } else if amount == 0 {
            Some(ErrorCode::InvalidAmount)
        } else if !is_eth_address(eth_recipient) {
            Some(ErrorCode::InvalidEthAddress)
        } else if self.nonce == u64::MAX {
            Some(ErrorCode::NonceOverflow)
        } else {
            None
        }
    }

    /// What a lock or burn returns: the new nonce, or why it was rejected.
    pub open spec fn outbound_result(
        self,
        amount: u64,
        eth_recipient: Seq<char>,
        ledger: Result<(), LedgerError>,
    ) -> Result<u64, ErrorCode> {
        match self.outbound_error(amount, eth_recipient) {
            Some(e) => Err(e),
            None => match ledger {
                Err(le) => Err(ErrorCode::Ledger(le)),
                Ok(_) => Ok((self.nonce + 1) as u64),
            },
        }
    }

    /// The record after a lock or burn: the nonce advances only on success.
    pub open spec fn outbound_next(
        self,
        amount: u64,
        eth_recipient: Seq<char>,
        ledger: Result<(), LedgerError>,
    ) -> BridgeView {
        match self.outbound_result(amount, eth_recipient, ledger) {
            Ok(n) => BridgeView { nonce: n, ..self },
            Err(_) => self,
        }
    }

    /// The first rule that a mint breaks, if any, in the order the checks are made.
    pub open spec fn mint_error(self, authority: Pubkey, nonce: u64) -> Option<ErrorCode> {
        if self.paused {
            Some(ErrorCode::BridgePaused)
        } else if self.processed.contains(nonce) {
            Some(ErrorCode::AlreadyProcessed)
        } else if authority != self.owner {
            Some(ErrorCode::Unauthorized)
        } else if self.processed.len() >= MAX_PROCESSED_NONCES {
            Some(ErrorCode::ProcessedNoncesFull)
        } else {
            None
        }
    }

    /// What a mint returns.
    pub open spec fn mint_result(
        self,
        authority: Pubkey,
        nonce: u64,
        ledger: Result<(), LedgerError>,
    ) -> Result<(), ErrorCode> {
        match self.mint_error(authority, nonce) {
            Some(e) => Err(e),
            None => match ledger {
                Err(le) => Err(ErrorCode::Ledger(le)),
                Ok(_) => Ok(()),
            },
        }
    }

    /// The record after a mint: the nonce is consumed only on success.
    pub open spec fn mint_next(
        self,
        authority: Pubkey,
        nonce: u64,
        ledger: Result<(), LedgerError>,
    ) -> BridgeView {
        match self.mint_result(authority, nonce, ledger) {
            Ok(_) => BridgeView { processed: self.processed.push(nonce), ..self },
            Err(_) => self,
        }
    }

    /// What pause or unpause returns: only the owner may toggle the flag.
    pub open spec fn toggle_result(self, caller: Pubkey) -> Result<(), ErrorCode> {
        if caller == self.owner {
            Ok(())
        } else {
            Err(ErrorCode::Unauthorized)
        }
    }

    /// The record after pause (`paused` true) or unpause (`paused` false).
    pub open spec fn toggle_next(self, caller: Pubkey, paused: bool) -> BridgeView {
        match self.toggle_result(caller) {
            Ok(_) => BridgeView { paused, ..self },
            Err(_) => self,
        }
    }
}

impl BridgeState {
    /// A fresh record owned by `owner`: nonce zero, active, nothing processed.
    pub fn new(owner: Pubkey) -> (r: BridgeState)
        ensures
            r@ == BridgeView::initial(owner),
            r@.wf(),
    {
        let r = BridgeState { owner, nonce: 0, paused: false, processed_nonces: Vec::new() };
        proof {
            assert(r@.processed =~= Seq::<u64>::empty());
        }
        r
    }

    /// Tells whether a mint has consumed `nonce` already.
    pub fn is_processed(&self, nonce: u64) -> (r: bool)
        ensures
            r == self@.processed.contains(nonce),
    {
        let mut i: usize = 0;
        while i < self.processed_nonces.len()
            invariant
                0 <= i <= self.processed_nonces@.len(),
                forall|j: int| 0 <= j < i ==> self.processed_nonces@[j] != nonce,
            decreases self.processed_nonces@.len() - i,
        {
            if self.processed_nonces[i] == nonce {
                return true;
            }
            i = i + 1;
        }
        false
    }
}

} // verus!
