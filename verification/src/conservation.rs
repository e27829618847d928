//! A whole-deployment model and its proved invariant: across any history of
//! mints, transfers and withdrawals, the outstanding balances plus the
//! withheld pool always account for exactly the total supply, and no balance
//! is ever negative.
//!
//! The model keeps every account balance as an unbounded integer, so the
//! absence of negative balances is a proved property of the operations'
//! checks, not an accident of unsigned typing.

use vstd::prelude::*;
use crate::fees::{fee_for, lemma_fee_bound};
use crate::state::FeeSchedule;

verus! {

/// A bird's-eye view of one deployment: the ledger's fields together with
/// every account balance, indexed by position. The withdraw authority is
/// named by the index of its account.
pub struct LedgerModel {
    /// The fee schedule fixed at initialization.
    pub schedule: FeeSchedule,
    /// The index of the withdraw authority's account.
    pub authority: int,
    /// Total minted supply.
    pub total_supply: int,
    /// Fees collected and not yet withdrawn.
    pub withheld_fees: int,
    /// Every account balance in the deployment.
    pub balances: Seq<int>,
}

/// One requested operation against the deployment. Callers are named by the
/// index of their account, mirroring how the dispatch layer resolves an
/// authenticated identity to a record.
pub enum ModelOp {
    /// Credit freshly minted tokens to the account at `to`.
    Mint { to: int, amount: u64 },
    /// Move `amount` from the account at `from` to the account at `to`.
    Transfer { from: int, to: int, amount: u64 },
    /// Sweep the withheld pool into the authority's account.
    Withdraw { caller: int },
}

/// The sum of a sequence of balances.
pub open spec fn sum_of(balances: Seq<int>) -> int
    decreases balances.len(),
{
    if balances.len() == 0 {
        0
    } else {
        balances[0] + sum_of(balances.subrange(1, balances.len() as int))
    }
}

/// Whether `op` passes every check the matching operation makes, including
/// the representability bounds the operations enforce with checked addition.
pub open spec fn op_allowed(m: LedgerModel, op: ModelOp) -> bool {
    match op {
        ModelOp::Mint { to, amount } => {
            &&& 0 <= to < m.balances.len()
            &&& amount > 0
            &&& m.total_supply + amount <= u64::MAX
            &&& m.balances[to] + amount <= u64::MAX
        },
        ModelOp::Transfer { from, to, amount } => {
            &&& 0 <= from < m.balances.len()
            &&& 0 <= to < m.balances.len()
            &&& from != to
            &&& amount > 0
            &&& m.balances[from] >= amount
            &&& m.balances[to] + amount - fee_for(amount, m.schedule) <= u64::MAX
            &&& m.withheld_fees + fee_for(amount, m.schedule) <= u64::MAX
        },
        ModelOp::Withdraw { caller } => {
            &&& 0 <= m.authority < m.balances.len()
            &&& caller == m.authority
            &&& m.balances[m.authority] + m.withheld_fees <= u64::MAX
        },
    }
}

/// The deployment after one operation. An operation that fails any of its
/// checks changes nothing, exactly as the operations leave every record
/// untouched on failure.
pub open spec fn step(m: LedgerModel, op: ModelOp) -> LedgerModel {
    if !op_allowed(m, op) {
        m
    } else {
        match op {
            ModelOp::Mint { to, amount } => LedgerModel {
                total_supply: m.total_supply + amount,
                balances: m.balances.update(to, m.balances[to] + amount),
                ..m
            },
            ModelOp::Transfer { from, to, amount } => {
                let fee = fee_for(amount, m.schedule);
                LedgerModel {
                    withheld_fees: m.withheld_fees + fee,
                    balances: m.balances
                        .update(from, m.balances[from] - amount)
                        .update(to, m.balances[to] + amount - fee),
                    ..m
                }
            },
            ModelOp::Withdraw { caller: _ } => LedgerModel {
                withheld_fees: 0,
                balances: m.balances.update(m.authority, m.balances[m.authority] + m.withheld_fees),
                ..m
            },
        }
    }
}

/// The deployment after running `ops` in order.
pub open spec fn run(m: LedgerModel, ops: Seq<ModelOp>) -> LedgerModel
    decreases ops.len(),
{
    if ops.len() == 0 {
        m
    } else {
        run(step(m, ops[0]), ops.subrange(1, ops.len() as int))
    }
}

/// The global invariant: a well-formed schedule, no negative balance
/// anywhere, a non-negative withheld pool, a representable supply, and
/// conservation — the outstanding balances plus the withheld pool equal the
/// total supply.
pub open spec fn inv(m: LedgerModel) -> bool {
    &&& m.schedule.wf()
    &&& 0 <= m.withheld_fees
    &&& (forall|i: int| 0 <= i < m.balances.len() ==> m.balances[i] >= 0)
    &&& sum_of(m.balances) + m.withheld_fees == m.total_supply
    &&& m.total_supply <= u64::MAX
}

/// A freshly initialized deployment: zero supply, an empty pool, every
/// account empty, and a well-formed schedule.
pub open spec fn initial(m: LedgerModel) -> bool {
    &&& m.schedule.wf()
    &&& m.total_supply == 0
    &&& m.withheld_fees == 0
    &&& (forall|i: int| 0 <= i < m.balances.len() ==> m.balances[i] == 0)
}

/// A sequence of zeros sums to zero.
proof fn lemma_sum_zero(balances: Seq<int>)
    requires
        forall|i: int| 0 <= i < balances.len() ==> balances[i] == 0,
    ensures
        sum_of(balances) == 0,
    decreases balances.len(),
{
    if balances.len() > 0 {
        lemma_sum_zero(balances.subrange(1, balances.len() as int));
    }
}

/// Replacing one balance changes the sum by the difference.
proof fn lemma_sum_update(balances: Seq<int>, i: int, v: int)
    requires
        0 <= i < balances.len(),
    ensures
        sum_of(balances.update(i, v)) == sum_of(balances) - balances[i] + v,
    decreases balances.len(),
{
    let updated = balances.update(i, v);
    let rest = balances.subrange(1, balances.len() as int);
    if i == 0 {
        assert(updated.subrange(1, updated.len() as int) =~= rest);
    } else {
        assert(updated.subrange(1, updated.len() as int) =~= rest.update(i - 1, v));
        lemma_sum_update(rest, i - 1, v);
    }
}

/// With no negative balance anywhere, one balance never exceeds the sum.
proof fn lemma_balance_le_sum(balances: Seq<int>, i: int)
    requires
        forall|k: int| 0 <= k < balances.len() ==> balances[k] >= 0,
        0 <= i < balances.len(),
    ensures
        balances[i] <= sum_of(balances),
    decreases balances.len(),
{
    let rest = balances.subrange(1, balances.len() as int);
    if i == 0 {
        lemma_sum_nonneg(rest);
    } else {
        lemma_balance_le_sum(rest, i - 1);
    }
}

/// With no negative balance anywhere, the sum is not negative either.
proof fn lemma_sum_nonneg(balances: Seq<int>)
    requires
        forall|k: int| 0 <= k < balances.len() ==> balances[k] >= 0,
    ensures
        sum_of(balances) >= 0,
    decreases balances.len(),
{
    if balances.len() > 0 {
        lemma_sum_nonneg(balances.subrange(1, balances.len() as int));
    }
}

/// With no negative balance anywhere, two distinct balances never exceed the
/// sum together.
proof fn lemma_balance_pair_le_sum(balances: Seq<int>, i: int, j: int)
    requires
        forall|k: int| 0 <= k < balances.len() ==> balances[k] >= 0,
        0 <= i < balances.len(),
        0 <= j < balances.len(),
        i != j,
    ensures
        balances[i] + balances[j] <= sum_of(balances),
{
    let emptied = balances.update(i, 0);
    lemma_sum_update(balances, i, 0);
    lemma_balance_le_sum(emptied, j);
}

/// In a deployment satisfying the invariant, a transfer that passes its
/// amount, self-transfer and funds checks is allowed outright: conservation
/// keeps both of its additions within 64 bits, so it cannot fail with an
/// overflow.
pub proof fn lemma_transfer_never_overflows(m: LedgerModel, from: int, to: int, amount: u64)
    requires
        inv(m),
        0 <= from < m.balances.len(),
        0 <= to < m.balances.len(),
        from != to,
        amount > 0,
        m.balances[from] >= amount,
    ensures
        op_allowed(m, ModelOp::Transfer { from, to, amount }),
{
    lemma_fee_bound(amount, m.schedule);
    lemma_balance_pair_le_sum(m.balances, from, to);
    lemma_balance_le_sum(m.balances, from);
}

/// In a deployment satisfying the invariant, a withdraw by the authority is
/// allowed outright: the authority's balance plus the whole pool still fits
/// in 64 bits, so it cannot fail with an overflow.
pub proof fn lemma_withdraw_never_overflows(m: LedgerModel, caller: int)
    requires
        inv(m),
        0 <= m.authority < m.balances.len(),
        caller == m.authority,
    ensures
        op_allowed(m, ModelOp::Withdraw { caller }),
{
    lemma_balance_le_sum(m.balances, m.authority);
}

/// One step preserves the invariant: conservation of supply and the absence
/// of negative balances survive every operation, allowed or refused.
pub proof fn lemma_step_preserves_inv(m: LedgerModel, op: ModelOp)
    requires
        inv(m),
    ensures
        inv(step(m, op)),
{
    if op_allowed(m, op) {
        match op {
            ModelOp::Mint { to, amount } => {
                lemma_sum_update(m.balances, to, m.balances[to] + amount);
            },
            ModelOp::Transfer { from, to, amount } => {
                lemma_fee_bound(amount, m.schedule);
                let fee = fee_for(amount, m.schedule);
                let debited = m.balances.update(from, m.balances[from] - amount);
                lemma_sum_update(m.balances, from, m.balances[from] - amount);
                lemma_sum_update(debited, to, m.balances[to] + amount - fee);
            },
            ModelOp::Withdraw { caller: _ } => {
                lemma_sum_update(m.balances, m.authority, m.balances[m.authority] + m.withheld_fees);
            },
        }
    }
}

/// The invariant holds along any whole history: from any state satisfying it
/// — in particular a freshly initialized deployment — every sequence of
/// operations leads only to states satisfying it. After each operation the
/// balances plus the withheld pool equal the total supply, and no balance is
/// negative.
pub proof fn lemma_run_preserves_inv(m: LedgerModel, ops: Seq<ModelOp>)
    requires
        inv(m),
    ensures
        inv(run(m, ops)),
    decreases ops.len(),
{
    if ops.len() > 0 {
        lemma_step_preserves_inv(m, ops[0]);
        lemma_run_preserves_inv(step(m, ops[0]), ops.subrange(1, ops.len() as int));
    }
}

/// A freshly initialized deployment satisfies the invariant.
pub proof fn lemma_initial_inv(m: LedgerModel)
    requires
        initial(m),
    ensures
        inv(m),
{
    lemma_sum_zero(m.balances);
}

} // verus!
