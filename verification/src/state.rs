//! The records the operations act on: the fee schedule, the ledger, a
//! holder's account, and the failure taxonomy.

use vstd::prelude::*;

verus! {

/// An authenticated participant, as handed in by the caller's authentication
/// layer. The core never derives identities itself; it only compares them.
pub type Identity = u64;

/// Immutable fee configuration, fixed when the ledger is initialized.
#[derive(Clone, Copy, Debug, PartialEq, Eq, Structural)]
pub struct FeeSchedule {
    /// Fee rate in basis points: 1/10000 of the transferred amount.
    pub fee_bps: u16,
    /// Absolute upper bound on the fee charged for a single transfer.
    pub max_fee: u64,
}

impl FeeSchedule {
    /// A schedule is well formed when its rate does not exceed 100%.
    pub open spec fn wf(self) -> bool {
        self.fee_bps <= 10000
    }
}

/// The ledger record: total minted supply, the pool of withheld fees, and the
/// identity allowed to sweep that pool.
#[derive(Clone, Copy, Debug, PartialEq, Eq, Structural)]
pub struct Ledger {
    /// Whether `initialize` has configured this record yet.
    pub initialized: bool,
    /// The fee schedule fixed at initialization.
    pub schedule: FeeSchedule,
    /// Sum of all outstanding account balances plus the withheld pool.
    pub total_supply: u64,
    /// Fees collected by transfers and not yet withdrawn.
    pub withheld_fees: u64,
    /// The identity permitted to withdraw the withheld pool.
    pub withdraw_authority: Identity,
}

impl Ledger {
    /// An initialized ledger always carries a well-formed schedule.
    pub open spec fn wf(self) -> bool {
        self.initialized ==> self.schedule.wf()
    }

    /// A blank, not-yet-initialized ledger record.
    pub fn new() -> (ledger: Ledger)
        ensures
            !ledger.initialized,
            ledger.total_supply == 0,
            ledger.withheld_fees == 0,
    {
        Ledger {
            initialized: false,
            schedule: FeeSchedule { fee_bps: 0, max_fee: 0 },
            total_supply: 0,
            withheld_fees: 0,
            withdraw_authority: 0,
        }
    }
}

/// A holder's balance record.
#[derive(Clone, Copy, Debug, PartialEq, Eq, Structural)]
pub struct Account {
    /// The holder; immutable once the record exists.
    pub owner: Identity,
    /// The held balance.
    pub balance: u64,
}

impl Account {
    /// A fresh, empty account for `owner`.
    pub fn new(owner: Identity) -> (account: Account)
        ensures
            account.owner == owner,
            account.balance == 0,
    {
        Account { owner, balance: 0 }
    }
}

/// The typed failures. Every operation checks all its preconditions before
/// mutating anything, so a failure leaves every record unchanged.
#[derive(Clone, Copy, Debug, PartialEq, Eq, Structural)]
pub enum LedgerError {
    /// The requested fee rate exceeds 10000 basis points (100%).
    InvalidFeeRate,
    /// `initialize` was called on an already-configured ledger.
    AlreadyInitialized,
    /// A zero amount was supplied to mint or transfer.
    InvalidAmount,
    /// An addition would exceed the representable balance or supply range.
    Overflow,
    /// The sender lacks the funds for the requested transfer.
    InsufficientBalance,
    /// Sender and receiver resolve to the same record.
    SameAccount,
    /// The caller is not the withdraw authority.
    Unauthorized,
}

} // verus!
