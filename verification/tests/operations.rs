use fee_ledger::fees::compute_fee;
use fee_ledger::ops::{initialize, mint, transfer, withdraw};
use fee_ledger::state::{Account, FeeSchedule, Ledger, LedgerError};

#[test]
fn fee_is_floor_of_the_proportion() {
    let s = FeeSchedule { fee_bps: 100, max_fee: 1000 };
    assert_eq!(compute_fee(0, &s), 0);
    assert_eq!(compute_fee(99, &s), 0);
    assert_eq!(compute_fee(100, &s), 1);
    assert_eq!(compute_fee(199, &s), 1);
    assert_eq!(compute_fee(10000, &s), 100);
}

#[test]
fn fee_respects_the_cap() {
    let s = FeeSchedule { fee_bps: 100, max_fee: 1000 };
    assert_eq!(compute_fee(100000, &s), 1000);
    assert_eq!(compute_fee(200000, &s), 1000);
    assert_eq!(compute_fee(u64::MAX, &s), 1000);
}

#[test]
fn fee_at_zero_and_full_rate() {
    let none = FeeSchedule { fee_bps: 0, max_fee: 1000 };
    assert_eq!(compute_fee(123456, &none), 0);

    let all = FeeSchedule { fee_bps: 10000, max_fee: u64::MAX };
    assert_eq!(compute_fee(123456, &all), 123456);
    assert_eq!(compute_fee(u64::MAX, &all), u64::MAX);
}

#[test]
fn fee_never_exceeds_amount_or_cap() {
    let s = FeeSchedule { fee_bps: 9999, max_fee: 5000000 };
    let amounts: [u64; 6] = [0, 1, 9999, 10000, 4567890, u64::MAX];
    for amount in amounts {
        let fee: u64 = compute_fee(amount, &s);
        assert!(fee <= amount);
        assert!(fee <= s.max_fee);
    }
}

#[test]
fn initialize_rejects_a_rate_over_100_percent() {
    let mut ledger: Ledger = Ledger::new();
    let before: Ledger = ledger;
    assert_eq!(initialize(&mut ledger, 7, 10001, 50), Err(LedgerError::InvalidFeeRate));
    assert_eq!(ledger, before);
}

#[test]
fn initialize_accepts_the_boundary_rate() {
    let mut ledger: Ledger = Ledger::new();
    assert_eq!(initialize(&mut ledger, 7, 10000, 50), Ok(()));
    assert_eq!(ledger.schedule.fee_bps, 10000);
}

#[test]
fn initialize_twice_rejected() {
    let mut ledger: Ledger = Ledger::new();
    assert_eq!(initialize(&mut ledger, 7, 100, 1000), Ok(()));
    let before: Ledger = ledger;
    assert_eq!(initialize(&mut ledger, 8, 200, 2000), Err(LedgerError::AlreadyInitialized));
    assert_eq!(ledger, before);
}

#[test]
fn mint_of_zero_rejected() {
    let mut ledger: Ledger = Ledger::new();
    assert_eq!(initialize(&mut ledger, 7, 100, 1000), Ok(()));
    let mut a: Account = Account::new(1);
    let before: Ledger = ledger;
    assert_eq!(mint(&mut ledger, &mut a, 0), Err(LedgerError::InvalidAmount));
    assert_eq!(ledger, before);
    assert_eq!(a.balance, 0);
}

#[test]
fn mint_overflowing_the_supply_rejected() {
    let mut ledger: Ledger = Ledger {
        initialized: true,
        schedule: FeeSchedule { fee_bps: 100, max_fee: 1000 },
        total_supply: u64::MAX,
        withheld_fees: 0,
        withdraw_authority: 7,
    };
    let mut a = Account { owner: 1, balance: 5 };
    let before: Ledger = ledger;
    assert_eq!(mint(&mut ledger, &mut a, 1), Err(LedgerError::Overflow));
    assert_eq!(ledger, before);
    assert_eq!(a.balance, 5);
}

#[test]
fn mint_overflowing_the_balance_rejected() {
    let mut ledger: Ledger = Ledger {
        initialized: true,
        schedule: FeeSchedule { fee_bps: 100, max_fee: 1000 },
        total_supply: 0,
        withheld_fees: 0,
        withdraw_authority: 7,
    };
    let mut a = Account { owner: 1, balance: u64::MAX };
    let before: Ledger = ledger;
    assert_eq!(mint(&mut ledger, &mut a, 1), Err(LedgerError::Overflow));
    assert_eq!(ledger, before);
    assert_eq!(a.balance, u64::MAX);
}

#[test]
fn transfer_between_records_of_one_owner_rejected() {
    let mut ledger: Ledger = Ledger::new();
    assert_eq!(initialize(&mut ledger, 7, 100, 1000), Ok(()));
    let mut a = Account { owner: 1, balance: 500 };
    let mut a_again = Account { owner: 1, balance: 20 };
    let before: Ledger = ledger;
    assert_eq!(transfer(&mut ledger, &mut a, &mut a_again, 10), Err(LedgerError::SameAccount));
    assert_eq!(ledger, before);
    assert_eq!(a.balance, 500);
    assert_eq!(a_again.balance, 20);
}

#[test]
fn transfer_without_funds_rejected() {
    let mut ledger: Ledger = Ledger::new();
    assert_eq!(initialize(&mut ledger, 7, 100, 1000), Ok(()));
    let mut a = Account { owner: 1, balance: 9 };
    let mut b = Account { owner: 2, balance: 0 };
    let before: Ledger = ledger;
    assert_eq!(transfer(&mut ledger, &mut a, &mut b, 10), Err(LedgerError::InsufficientBalance));
    assert_eq!(ledger, before);
    assert_eq!(a.balance, 9);
    assert_eq!(b.balance, 0);
}

#[test]
fn transfer_overflowing_the_receiver_rejected() {
    let mut ledger: Ledger = Ledger::new();
    assert_eq!(initialize(&mut ledger, 7, 0, 0), Ok(()));
    let mut a = Account { owner: 1, balance: 10 };
    let mut b = Account { owner: 2, balance: u64::MAX };
    let before: Ledger = ledger;
    assert_eq!(transfer(&mut ledger, &mut a, &mut b, 10), Err(LedgerError::Overflow));
    assert_eq!(ledger, before);
    assert_eq!(a.balance, 10);
    assert_eq!(b.balance, u64::MAX);
}

#[test]
fn transfer_overflowing_the_withheld_pool_rejected() {
    let mut ledger: Ledger = Ledger {
        initialized: true,
        schedule: FeeSchedule { fee_bps: 10000, max_fee: u64::MAX },
        total_supply: 0,
        withheld_fees: u64::MAX,
        withdraw_authority: 7,
    };
    let mut a = Account { owner: 1, balance: 10 };
    let mut b = Account { owner: 2, balance: 0 };
    let before: Ledger = ledger;
    assert_eq!(transfer(&mut ledger, &mut a, &mut b, 10), Err(LedgerError::Overflow));
    assert_eq!(ledger, before);
    assert_eq!(a.balance, 10);
    assert_eq!(b.balance, 0);
}

#[test]
fn withdraw_overflowing_the_authority_rejected() {
    let mut ledger: Ledger = Ledger {
        initialized: true,
        schedule: FeeSchedule { fee_bps: 100, max_fee: 1000 },
        total_supply: u64::MAX,
        withheld_fees: 1,
        withdraw_authority: 7,
    };
    let mut vault = Account { owner: 7, balance: u64::MAX };
    let before: Ledger = ledger;
    assert_eq!(withdraw(&mut ledger, 7, &mut vault), Err(LedgerError::Overflow));
    assert_eq!(ledger, before);
    assert_eq!(vault.balance, u64::MAX);
}

#[test]
fn withdraw_of_an_empty_pool_is_allowed() {
    let mut ledger: Ledger = Ledger::new();
    assert_eq!(initialize(&mut ledger, 7, 100, 1000), Ok(()));
    let mut vault: Account = Account::new(7);
    assert_eq!(withdraw(&mut ledger, 7, &mut vault), Ok(()));
    assert_eq!(vault.balance, 0);
    assert_eq!(ledger.withheld_fees, 0);
}
