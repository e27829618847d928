//! The three mutating operations and ledger initialization. Every check runs
//! before any mutation, so a failure leaves each record exactly as it was.

use vstd::prelude::*;
use crate::fees::{compute_fee, fee_for, lemma_fee_bound, BPS_DENOMINATOR};
use crate::state::{Account, FeeSchedule, Identity, Ledger, LedgerError};

verus! {

/// The parts of the ledger that only `initialize` may set: the initialization
/// flag, the fee schedule, and the withdraw authority.
pub open spec fn same_config(a: Ledger, b: Ledger) -> bool {
    &&& a.initialized == b.initialized
    &&& a.schedule == b.schedule
    &&& a.withdraw_authority == b.withdraw_authority
}

/// Configures a blank ledger: fixes the fee schedule, zeroes the supply and
/// the withheld pool, and records `caller` as the withdraw authority.
pub fn initialize(ledger: &mut Ledger, caller: Identity, fee_bps: u16, max_fee: u64) -> (result: Result<(), LedgerError>)
    ensures
        match result {
            Ok(()) => {
                &&& !old(ledger).initialized
                &&& fee_bps <= BPS_DENOMINATOR
                &&& *final(ledger) == (Ledger {
                    initialized: true,
                    schedule: FeeSchedule { fee_bps, max_fee },
                    total_supply: 0,
                    withheld_fees: 0,
                    withdraw_authority: caller,
                })
            },
            Err(LedgerError::AlreadyInitialized) => {
                &&& old(ledger).initialized
                &&& *final(ledger) == *old(ledger)
            },
            Err(LedgerError::InvalidFeeRate) => {
                &&& !old(ledger).initialized
                &&& fee_bps > BPS_DENOMINATOR
                &&& *final(ledger) == *old(ledger)
            },
            Err(_) => false,
        },
{
    if ledger.initialized {
        return Err(LedgerError::AlreadyInitialized);
    }
    if fee_bps > BPS_DENOMINATOR {
        return Err(LedgerError::InvalidFeeRate);
    }
    ledger.initialized = true;
    ledger.schedule = FeeSchedule { fee_bps, max_fee };
    ledger.total_supply = 0;
    ledger.withheld_fees = 0;
    ledger.withdraw_authority = caller;
    Ok(())
}

/// Credits `amount` freshly minted tokens to `account` and adds them to the
/// total supply. The caller's minting authority is verified by the outer
/// dispatch layer before this runs. No fee is charged on a mint.
pub fn mint(ledger: &mut Ledger, account: &mut Account, amount: u64) -> (result: Result<(), LedgerError>)
    ensures
        match result {
            Ok(()) => {
                &&& amount > 0
                &&& final(account).owner == old(account).owner
                &&& final(account).balance == old(account).balance + amount
                &&& final(ledger).total_supply == old(ledger).total_supply + amount
                &&& final(ledger).withheld_fees == old(ledger).withheld_fees
                &&& same_config(*old(ledger), *final(ledger))
            },
            Err(LedgerError::InvalidAmount) => {
                &&& amount == 0
                &&& *final(ledger) == *old(ledger)
                &&& *final(account) == *old(account)
            },
            Err(LedgerError::Overflow) => {
                &&& amount > 0
                &&& (old(ledger).total_supply + amount > u64::MAX
                    || old(account).balance + amount > u64::MAX)
                &&& *final(ledger) == *old(ledger)
                &&& *final(account) == *old(account)
            },
            Err(_) => false,
        },
{
    if amount == 0 {
        return Err(LedgerError::InvalidAmount);
    }
    let new_supply: u64 = match ledger.total_supply.checked_add(amount) {
        Some(s) => s,
        None => {
            return Err(LedgerError::Overflow);
        },
    };
    let new_balance: u64 = match account.balance.checked_add(amount) {
        Some(b) => b,
        None => {
            return Err(LedgerError::Overflow);
        },
    };
    ledger.total_supply = new_supply;
    account.balance = new_balance;
    Ok(())
}

/// Moves `amount` from `sender` to `receiver` under the ledger's schedule:
/// the sender is debited the full amount, the receiver is credited the amount
/// net of the fee, and the fee joins the ledger's withheld pool. The total
/// supply does not change: the sender's debit equals the receiver's credit
/// plus the withheld fee.
///
/// Accounts are identified by their owner, so a transfer between two records
/// of one owner is refused as a self-transfer.
pub fn transfer(ledger: &mut Ledger, sender: &mut Account, receiver: &mut Account, amount: u64) -> (result: Result<(), LedgerError>)
    requires
        old(ledger).schedule.wf(),
    ensures
        match result {
            Ok(()) => {
                let fee = fee_for(amount, old(ledger).schedule);
                &&& amount > 0
                &&& old(sender).owner != old(receiver).owner
                &&& old(sender).balance >= amount
                &&& final(sender).owner == old(sender).owner
                &&& final(receiver).owner == old(receiver).owner
                &&& final(sender).balance == old(sender).balance - amount
                &&& final(receiver).balance == old(receiver).balance + amount - fee
                &&& final(ledger).withheld_fees == old(ledger).withheld_fees + fee
                &&& final(ledger).total_supply == old(ledger).total_supply
                &&& same_config(*old(ledger), *final(ledger))
                &&& final(sender).balance + final(receiver).balance + final(ledger).withheld_fees
                    == old(sender).balance + old(receiver).balance + old(ledger).withheld_fees
            },
            Err(LedgerError::InvalidAmount) => {
                &&& amount == 0
                &&& transfer_unchanged(*old(ledger), *final(ledger), *old(sender), *final(sender), *old(receiver), *final(receiver))
            },
            Err(LedgerError::SameAccount) => {
                &&& amount > 0
                &&& old(sender).owner == old(receiver).owner
                &&& transfer_unchanged(*old(ledger), *final(ledger), *old(sender), *final(sender), *old(receiver), *final(receiver))
            },
            Err(LedgerError::InsufficientBalance) => {
                &&& amount > 0
                &&& old(sender).owner != old(receiver).owner
                &&& old(sender).balance < amount
                &&& transfer_unchanged(*old(ledger), *final(ledger), *old(sender), *final(sender), *old(receiver), *final(receiver))
            },
            Err(LedgerError::Overflow) => {
                let fee = fee_for(amount, old(ledger).schedule);
                &&& amount > 0
                &&& old(sender).owner != old(receiver).owner
                &&& old(sender).balance >= amount
                &&& (old(receiver).balance + amount - fee > u64::MAX
                    || old(ledger).withheld_fees + fee > u64::MAX)
                &&& transfer_unchanged(*old(ledger), *final(ledger), *old(sender), *final(sender), *old(receiver), *final(receiver))
            },
            Err(_) => false,
        },
{
    if amount == 0 {
        return Err(LedgerError::InvalidAmount);
    }
    if sender.owner == receiver.owner {
        return Err(LedgerError::SameAccount);
    }
    if sender.balance < amount {
        return Err(LedgerError::InsufficientBalance);
    }
    let fee: u64 = compute_fee(amount, &ledger.schedule);
    proof {
        lemma_fee_bound(amount, ledger.schedule);
    }
    let net: u64 = amount - fee;
    let new_receiver_balance: u64 = match receiver.balance.checked_add(net) {
        Some(b) => b,
        None => {
            return Err(LedgerError::Overflow);
        },
    };
    let new_withheld: u64 = match ledger.withheld_fees.checked_add(fee) {
        Some(w) => w,
        None => {
            return Err(LedgerError::Overflow);
        },
    };
    sender.balance = sender.balance - amount;
    receiver.balance = new_receiver_balance;
    ledger.withheld_fees = new_withheld;
    Ok(())
}

/// Whether a transfer left every record as it found it.
pub open spec fn transfer_unchanged(
    l0: Ledger, l1: Ledger,
    s0: Account, s1: Account,
    r0: Account, r1: Account,
) -> bool {
    l1 == l0 && s1 == s0 && r1 == r0
}

/// The state after a successful withdraw: the whole withheld pool moves into
/// the authority's account and the pool is zeroed, in one step.
pub open spec fn withdraw_outcome(ledger: Ledger, account: Account) -> (Ledger, Account) {
    (
        Ledger { withheld_fees: 0, ..ledger },
        Account { owner: account.owner, balance: (account.balance + ledger.withheld_fees) as u64 },
    )
}

/// Sweeps the withheld-fee pool into the withdraw authority's account.
/// Withdrawing an empty pool is a harmless no-op, not an error.
pub fn withdraw(ledger: &mut Ledger, caller: Identity, authority_account: &mut Account) -> (result: Result<(), LedgerError>)
    ensures
        match result {
            Ok(()) => {
                &&& caller == old(ledger).withdraw_authority
                &&& old(authority_account).balance + old(ledger).withheld_fees <= u64::MAX
                &&& (*final(ledger), *final(authority_account))
                    == withdraw_outcome(*old(ledger), *old(authority_account))
            },
            Err(LedgerError::Unauthorized) => {
                &&& caller != old(ledger).withdraw_authority
                &&& *final(ledger) == *old(ledger)
                &&& *final(authority_account) == *old(authority_account)
            },
            Err(LedgerError::Overflow) => {
                &&& caller == old(ledger).withdraw_authority
                &&& old(authority_account).balance + old(ledger).withheld_fees > u64::MAX
                &&& *final(ledger) == *old(ledger)
                &&& *final(authority_account) == *old(authority_account)
            },
            Err(_) => false,
        },
{
    if caller != ledger.withdraw_authority {
        return Err(LedgerError::Unauthorized);
    }
    let new_balance: u64 = match authority_account.balance.checked_add(ledger.withheld_fees) {
        Some(b) => b,
        None => {
            return Err(LedgerError::Overflow);
        },
    };
    authority_account.balance = new_balance;
    ledger.withheld_fees = 0;
    Ok(())
}

/// Withdraw is idempotent once it has run: the first successful withdraw
/// empties the pool, and a second one by the same authority moves nothing and
/// changes nothing.
pub proof fn lemma_withdraw_idempotent(ledger: Ledger, account: Account)
    requires
        account.balance + ledger.withheld_fees <= u64::MAX,
    ensures
        withdraw_outcome(ledger, account).0.withheld_fees == 0,
        withdraw_outcome(withdraw_outcome(ledger, account).0, withdraw_outcome(ledger, account).1)
            == withdraw_outcome(ledger, account),
{
}

} // verus!
