use bridge_core::{
    burn, check_mint, check_outbound, initialize, lock, mint, pause, unpause, valid_eth_address,
    BridgeState, ErrorCode, LedgerError, Pubkey, MAX_PROCESSED_NONCES,
};

const ADDR: &str = "0xAbC0123456789abcdef0123456789ABCDEF01234";

fn key(b: u8) -> Pubkey {
    Pubkey::new_from_array([b; 32])
}

fn fresh(owner: Pubkey) -> BridgeState {
    let mut slot: Option<BridgeState> = None;
    assert_eq!(initialize(&mut slot, owner), Ok(()));
    slot.unwrap()
}

/// A token ledger with one user account and the bridge's custody account.
struct Ledger {
    user: u64,
    custody: u64,
    wrapped: u64,
}

impl Ledger {
    fn debit(&mut self, amount: u64) -> Result<(), LedgerError> {
        if self.user < amount {
            return Err(LedgerError { code: 1 });
        }
        self.user -= amount;
        self.custody += amount;
        Ok(())
    }
}

fn lock_through(
    state: &mut BridgeState,
    ledger: &mut Ledger,
    user: Pubkey,
    amount: u64,
    addr: &str,
) -> Result<bridge_core::LockEvent, ErrorCode> {
    check_outbound(state, amount, addr)?;
    let transfer = ledger.debit(amount);
    lock(state, user, amount, addr.to_string(), transfer, 1_700_000_000)
}

fn mint_through(
    state: &mut BridgeState,
    ledger: &mut Ledger,
    authority: Pubkey,
    recipient: Pubkey,
    amount: u64,
    nonce: u64,
) -> Result<bridge_core::MintEvent, ErrorCode> {
    check_mint(state, authority, nonce)?;
    ledger.wrapped += amount;
    mint(state, authority, recipient, amount, nonce, Ok(()))
}

#[test]
fn scenario_lock_after_initialize() {
    let owner = key(1);
    let user = key(2);
    let mut state = fresh(owner);
    let mut ledger = Ledger { user: 500, custody: 0, wrapped: 0 };
    let ev = lock_through(&mut state, &mut ledger, user, 100, ADDR).unwrap();
    assert_eq!(state.nonce, 1);
    assert_eq!(ledger.custody, 100);
    assert_eq!(ledger.user, 400);
    assert_eq!(ev.amount, 100);
    assert_eq!(ev.nonce, 1);
    assert_eq!(ev.from, user);
    assert_eq!(ev.eth_recipient, ADDR);
    assert_eq!(ev.timestamp, 1_700_000_000);
}

#[test]
fn scenario_mint_replayed() {
    let owner = key(1);
    let user2 = key(3);
    let mut state = fresh(owner);
    let mut ledger = Ledger { user: 0, custody: 0, wrapped: 0 };
    let ev = mint_through(&mut state, &mut ledger, owner, user2, 100, 1).unwrap();
    assert_eq!(ev.to, user2);
    assert_eq!(ev.amount, 100);
    assert_eq!(ev.nonce, 1);
    let again = mint_through(&mut state, &mut ledger, owner, user2, 100, 1);
    assert_eq!(again, Err(ErrorCode::AlreadyProcessed));
    assert_eq!(ledger.wrapped, 100);
    assert_eq!(state.processed_nonces, vec![1]);
}

#[test]
fn scenario_lock_while_paused() {
    let owner = key(1);
    let mut state = fresh(owner);
    let mut ledger = Ledger { user: 500, custody: 0, wrapped: 0 };
    assert_eq!(pause(&mut state, owner), Ok(()));
    let r = lock_through(&mut state, &mut ledger, key(2), 50, ADDR);
    assert_eq!(r, Err(ErrorCode::BridgePaused));
    assert_eq!(ledger.user, 500);
    assert_eq!(ledger.custody, 0);
    assert_eq!(state.nonce, 0);
}

#[test]
fn scenario_mint_by_attacker() {
    let owner = key(1);
    let attacker = key(9);
    let mut state = fresh(owner);
    let r = mint(&mut state, attacker, key(3), 100, 2, Ok(()));
    assert_eq!(r, Err(ErrorCode::Unauthorized));
    assert!(state.processed_nonces.is_empty());
}

#[test]
fn scenario_lock_zero_amount() {
    let mut state = fresh(key(1));
    let r = lock(&mut state, key(2), 0, ADDR.to_string(), Ok(()), 0);
    assert_eq!(r, Err(ErrorCode::InvalidAmount));
    assert_eq!(state.nonce, 0);
}

#[test]
fn initialize_twice_keeps_owner() {
    let mut slot: Option<BridgeState> = None;
    assert_eq!(initialize(&mut slot, key(1)), Ok(()));
    assert_eq!(initialize(&mut slot, key(2)), Err(ErrorCode::AlreadyInitialized));
    let s = slot.unwrap();
    assert_eq!(s.owner, key(1));
    assert_eq!(s.nonce, 0);
    assert!(!s.paused);
}

#[test]
fn lock_rejects_bad_addresses() {
    let mut state = fresh(key(1));
    for addr in [
        "",
        "0x",
        "1xAbC0123456789abcdef0123456789ABCDEF01234",
        "0XAbC0123456789abcdef0123456789ABCDEF01234",
        "0xAbC0123456789abcdef0123456789ABCDEF0123",
        "0xAbC0123456789abcdef0123456789ABCDEF012345",
        "0xAbC0123456789abcdef0123456789ABCDEF0123g",
    ] {
        let r = lock(&mut state, key(2), 10, addr.to_string(), Ok(()), 0);
        assert_eq!(r, Err(ErrorCode::InvalidEthAddress), "{}", addr);
    }
    assert_eq!(state.nonce, 0);
}

#[test]
fn address_grammar() {
    assert!(valid_eth_address(ADDR));
    assert!(valid_eth_address("0x0000000000000000000000000000000000000000"));
    assert!(!valid_eth_address("0x000000000000000000000000000000000000000é"));
    assert!(!valid_eth_address("0x 000000000000000000000000000000000000000"));
}

#[test]
fn lock_ledger_failure_changes_nothing() {
    let mut state = fresh(key(1));
    let r = lock(&mut state, key(2), 10, ADDR.to_string(), Err(LedgerError { code: 1 }), 0);
    assert_eq!(r, Err(ErrorCode::Ledger(LedgerError { code: 1 })));
    assert_eq!(state.nonce, 0);
}

#[test]
fn lock_insufficient_balance() {
    let mut state = fresh(key(1));
    let mut ledger = Ledger { user: 5, custody: 0, wrapped: 0 };
    let r = lock_through(&mut state, &mut ledger, key(2), 10, ADDR);
    assert_eq!(r, Err(ErrorCode::Ledger(LedgerError { code: 1 })));
    assert_eq!(ledger.user, 5);
    assert_eq!(state.nonce, 0);
}

#[test]
fn mint_ledger_failure_keeps_nonce_fresh() {
    let owner = key(1);
    let mut state = fresh(owner);
    let r = mint(&mut state, owner, key(3), 10, 7, Err(LedgerError { code: 4 }));
    assert_eq!(r, Err(ErrorCode::Ledger(LedgerError { code: 4 })));
    assert!(state.processed_nonces.is_empty());
    assert!(mint(&mut state, owner, key(3), 10, 7, Ok(())).is_ok());
    assert_eq!(state.processed_nonces, vec![7]);
}

#[test]
fn burn_advances_nonce() {
    let mut state = fresh(key(1));
    let user = key(2);
    assert!(lock(&mut state, user, 10, ADDR.to_string(), Ok(()), 0).is_ok());
    let ev = burn(&mut state, user, 4, ADDR.to_string(), Ok(())).unwrap();
    assert_eq!(ev.nonce, 2);
    assert_eq!(ev.amount, 4);
    assert_eq!(ev.from, user);
    assert_eq!(ev.eth_recipient, ADDR);
    assert_eq!(state.nonce, 2);
}

#[test]
fn burn_errors() {
    let owner = key(1);
    let mut state = fresh(owner);
    assert_eq!(burn(&mut state, key(2), 0, ADDR.to_string(), Ok(())), Err(ErrorCode::InvalidAmount));
    assert_eq!(
        burn(&mut state, key(2), 3, "0xabc".to_string(), Ok(())),
        Err(ErrorCode::InvalidEthAddress)
    );
    assert_eq!(
        burn(&mut state, key(2), 3, ADDR.to_string(), Err(LedgerError { code: 2 })),
        Err(ErrorCode::Ledger(LedgerError { code: 2 }))
    );
    pause(&mut state, owner).unwrap();
    assert_eq!(burn(&mut state, key(2), 3, ADDR.to_string(), Ok(())), Err(ErrorCode::BridgePaused));
    assert_eq!(state.nonce, 0);
}

#[test]
fn nonce_overflow_is_refused() {
    let mut state = fresh(key(1));
    state.nonce = u64::MAX;
    let r = lock(&mut state, key(2), 1, ADDR.to_string(), Ok(()), 0);
    assert_eq!(r, Err(ErrorCode::NonceOverflow));
    assert_eq!(burn(&mut state, key(2), 1, ADDR.to_string(), Ok(())), Err(ErrorCode::NonceOverflow));
    assert_eq!(state.nonce, u64::MAX);
}

#[test]
fn mint_while_paused() {
    let owner = key(1);
    let mut state = fresh(owner);
    pause(&mut state, owner).unwrap();
    assert_eq!(mint(&mut state, owner, key(3), 1, 1, Ok(())), Err(ErrorCode::BridgePaused));
    assert_eq!(unpause(&mut state, owner), Ok(()));
    assert!(mint(&mut state, owner, key(3), 1, 1, Ok(())).is_ok());
}

#[test]
fn pause_only_by_owner_and_idempotent() {
    let owner = key(1);
    let mut state = fresh(owner);
    assert_eq!(pause(&mut state, key(2)), Err(ErrorCode::Unauthorized));
    assert!(!state.paused);
    assert_eq!(pause(&mut state, owner), Ok(()));
    assert_eq!(pause(&mut state, owner), Ok(()));
    assert!(state.paused);
    assert_eq!(unpause(&mut state, key(2)), Err(ErrorCode::Unauthorized));
    assert!(state.paused);
    assert_eq!(unpause(&mut state, owner), Ok(()));
    assert_eq!(unpause(&mut state, owner), Ok(()));
    assert!(!state.paused);
}

#[test]
fn lock_and_burn_by_anyone() {
    let mut state = fresh(key(1));
    for (i, who) in [key(1), key(2), key(7)].into_iter().enumerate() {
        let ev = lock(&mut state, who, 5, ADDR.to_string(), Ok(()), 0).unwrap();
        assert_eq!(ev.nonce, i as u64 + 1);
    }
    assert!(burn(&mut state, key(8), 5, ADDR.to_string(), Ok(())).is_ok());
    assert_eq!(state.nonce, 4);
}

#[test]
fn nonce_counts_successes_only() {
    let owner = key(1);
    let mut state = fresh(owner);
    let mut ok: u64 = 0;
    for i in 0..20u64 {
        let ledger = if i % 3 == 0 { Err(LedgerError { code: 1 }) } else { Ok(()) };
        let amount = i % 5;
        let r = if i % 2 == 0 {
            lock(&mut state, key(2), amount, ADDR.to_string(), ledger, 0).map(|e| e.nonce)
        } else {
            burn(&mut state, key(2), amount, ADDR.to_string(), ledger).map(|e| e.nonce)
        };
        if let Ok(n) = r {
            ok += 1;
            assert_eq!(n, ok);
        }
    }
    assert_eq!(state.nonce, ok);
    assert!(ok > 0);
}

#[test]
fn replay_of_many_nonces() {
    let owner = key(1);
    let mut state = fresh(owner);
    let mut successes = [0u32; 5];
    for round in 0..3 {
        for n in 0..5u64 {
            let who = if round == 0 && n == 2 { key(9) } else { owner };
            if mint(&mut state, who, key(3), 1, n, Ok(())).is_ok() {
                successes[n as usize] += 1;
            }
        }
    }
    assert_eq!(successes, [1, 1, 1, 1, 1]);
    assert_eq!(state.processed_nonces, vec![0, 1, 3, 4, 2]);
}

#[test]
fn processed_nonces_capacity() {
    let owner = key(1);
    let mut state = fresh(owner);
    state.processed_nonces = (0..MAX_PROCESSED_NONCES as u64).collect();
    let r = mint(&mut state, owner, key(3), 1, MAX_PROCESSED_NONCES as u64, Ok(()));
    assert_eq!(r, Err(ErrorCode::ProcessedNoncesFull));
    assert_eq!(state.processed_nonces.len(), MAX_PROCESSED_NONCES);
    let again = mint(&mut state, owner, key(3), 1, 5, Ok(()));
    assert_eq!(again, Err(ErrorCode::AlreadyProcessed));
}

#[test]
fn pubkey_comparison() {
    let a = key(1);
    let mut bytes = [1u8; 32];
    assert!(a.same_as(&Pubkey::new_from_array(bytes)));
    bytes[31] = 2;
    assert!(!a.same_as(&Pubkey::new_from_array(bytes)));
    bytes[31] = 1;
    bytes[0] = 0;
    assert!(!a.same_as(&Pubkey::new_from_array(bytes)));
}

#[test]
fn check_functions_agree() {
    let owner = key(1);
    let state = fresh(owner);
    assert_eq!(check_outbound(&state, 1, ADDR), Ok(()));
    assert_eq!(check_outbound(&state, 0, ADDR), Err(ErrorCode::InvalidAmount));
    assert_eq!(check_mint(&state, owner, 3), Ok(()));
    assert_eq!(check_mint(&state, key(2), 3), Err(ErrorCode::Unauthorized));
    assert!(!state.is_processed(3));
}
