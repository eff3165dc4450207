//! Strategy registry: the approval lifecycle of arbitrage strategies.
//!
//! A strategy is created in `Pending` status after validation, moves to
//! `Approved` or `Rejected` exactly once by the configured admin (or by a
//! governance callback), and accumulates execution metrics only while
//! approved. Identities (creator, admin, executor) are the ledger's opaque
//! account keys, modelled here as plain integers.

use vstd::prelude::*;
use vstd::arithmetic::div_mod::{lemma_div_is_ordered, lemma_div_multiples_vanish};

use crate::errors::StrategyError;

verus! {

/// Minimum profit threshold in basis points.
pub const MIN_PROFIT_THRESHOLD_BPS: u16 = 10;

/// Maximum slippage in basis points.
pub const MAX_SLIPPAGE_BPS: u16 = 500;

/// Maximum number of venues per strategy.
pub const MAX_DEXS: usize = 5;

/// Maximum number of token pairs per strategy.
pub const MAX_TOKEN_PAIRS: usize = 3;

/// One whole, in basis points.
pub const BASIS_POINTS: u16 = 10000;

/// Status of a strategy in the approval lifecycle.
#[derive(Clone, Copy, Debug, PartialEq, Eq, Structural)]
pub enum StrategyStatus {
    Pending,
    Approved,
    Rejected,
}

/// Supported venue kinds for arbitrage.
#[derive(Clone, Copy, Debug, PartialEq, Eq, Structural)]
pub enum DexType {
    Raydium,
    Orca,
    Meteora,
    Phoenix,
    Lifinity,
}

/// Token pair for arbitrage; the two token mints must differ.
#[derive(Clone, Copy, Debug, PartialEq, Eq, Structural)]
pub struct TokenPair {
    pub token_a: u64,
    pub token_b: u64,
}

/// A strategy record: parameters fixed at creation, a status mutated only
/// by approve/reject, and metrics mutated only by the execution engine.
#[derive(Clone, Debug)]
pub struct StrategyAccount {
    /// Creator of the strategy (immutable).
    pub creator: u64,
    /// Unique identifier for this strategy (per creator).
    pub strategy_id: u64,
    /// Venues involved in this strategy.
    pub dexs: Vec<DexType>,
    /// Token pairs for arbitrage.
    pub token_pairs: Vec<TokenPair>,
    /// Minimum profit threshold in basis points; at least `MIN_PROFIT_THRESHOLD_BPS`.
    pub profit_threshold: u16,
    /// Maximum slippage tolerance in basis points; at most `MAX_SLIPPAGE_BPS`.
    pub max_slippage: u16,
    /// Current status.
    pub status: StrategyStatus,
    /// Cumulative profit generated.
    pub total_profit: u64,
    /// Total number of recorded executions.
    pub execution_count: u64,
    /// Number of successful executions.
    pub success_count: u64,
    /// Time of the last recorded execution.
    pub last_execution: i64,
}

/// The single admin identity allowed to approve or reject strategies.
#[derive(Clone, Copy, Debug, PartialEq, Eq, Structural)]
pub struct AdminConfig {
    pub admin: u64,
}

/// Performance statistics view of a strategy record.
#[derive(Clone, Copy, Debug, PartialEq, Eq, Structural)]
pub struct StrategyStats {
    pub strategy_id: u64,
    pub creator: u64,
    pub total_profit: u64,
    pub execution_count: u64,
    pub success_count: u64,
    pub success_rate: u8,
    pub last_execution: i64,
    pub status: StrategyStatus,
}

/// Event emitted when a strategy is created.
#[derive(Clone, Debug)]
pub struct StrategyCreated {
    pub strategy_id: u64,
    pub creator: u64,
    pub dexs: Vec<DexType>,
    pub token_pairs: Vec<TokenPair>,
    pub profit_threshold: u16,
    pub max_slippage: u16,
    pub timestamp: i64,
}

/// Event emitted when a strategy is approved.
#[derive(Clone, Copy, Debug, PartialEq, Eq, Structural)]
pub struct StrategyApproved {
    pub strategy_id: u64,
    pub creator: u64,
    pub approver: u64,
    pub timestamp: i64,
}

/// Event emitted when a strategy is rejected.
#[derive(Clone, Copy, Debug, PartialEq, Eq, Structural)]
pub struct StrategyRejected {
    pub strategy_id: u64,
    pub creator: u64,
    pub rejecter: u64,
    pub timestamp: i64,
}

/// Event emitted when an execution is recorded against a strategy.
#[derive(Clone, Copy, Debug, PartialEq, Eq, Structural)]
pub struct StrategyExecuted {
    pub strategy_id: u64,
    pub creator: u64,
    pub executor: u64,
    pub profit: u64,
    pub success: bool,
    pub execution_count: u64,
    pub success_count: u64,
    pub timestamp: i64,
}

impl StrategyAccount {
    /// Well-formedness: the invariants that creation establishes and every
    /// operation preserves.
    pub open spec fn wf(&self) -> bool {
        &&& self.profit_threshold >= MIN_PROFIT_THRESHOLD_BPS
        &&& self.max_slippage <= MAX_SLIPPAGE_BPS
        &&& 1 <= self.dexs@.len() <= MAX_DEXS
        &&& 1 <= self.token_pairs@.len() <= MAX_TOKEN_PAIRS
        &&& forall|i: int|
            0 <= i < self.token_pairs@.len() ==> #[trigger] self.token_pairs@[i].token_a
                != self.token_pairs@[i].token_b
        &&& self.success_count <= self.execution_count
    }

    /// Whether the strategy may be executed.
    pub open spec fn spec_is_executable(&self) -> bool {
        self.status is Approved
    }

    /// A strategy is executable exactly when its status is `Approved`.
    pub fn is_executable(&self) -> (r: bool)
        ensures
            r == self.spec_is_executable(),
    {
        self.status == StrategyStatus::Approved
    }

    /// Share of recorded executions that succeeded, as a whole percentage,
    /// truncated; zero when nothing was recorded yet.
    pub fn success_rate(&self) -> (r: u8)
        requires
            self.success_count <= self.execution_count,
        ensures
            self.execution_count == 0 ==> r == 0,
            self.execution_count > 0 ==> r == self.success_count * 100 / (self.execution_count as int),
    {
        if self.execution_count == 0 {
            0
        } else {
            let wide: u128 = (self.success_count as u128) * 100;
            let rate: u128 = wide / (self.execution_count as u128);
            proof {
                let s = self.success_count as int;
                let e = self.execution_count as int;
                assert(s * 100 <= e * 100) by (nonlinear_arith)
                    requires
                        s <= e,
                ;
                lemma_div_is_ordered(s * 100, e * 100, e);
                lemma_div_multiples_vanish(100, e);
                assert(e * 100 == 100 * e) by (nonlinear_arith);
            }
            rate as u8
        }
    }
}

impl StrategyStats {
    /// The statistics view of a strategy record.
    pub fn from_strategy(strategy: &StrategyAccount) -> (r: StrategyStats)
        requires
            strategy.success_count <= strategy.execution_count,
        ensures
            r.strategy_id == strategy.strategy_id,
            r.creator == strategy.creator,
            r.total_profit == strategy.total_profit,
            r.execution_count == strategy.execution_count,
            r.success_count == strategy.success_count,
            r.last_execution == strategy.last_execution,
            r.status == strategy.status,
            strategy.execution_count == 0 ==> r.success_rate == 0,
            strategy.execution_count > 0 ==> r.success_rate == strategy.success_count * 100
                / (strategy.execution_count as int),
    {
        StrategyStats {
            strategy_id: strategy.strategy_id,
            creator: strategy.creator,
            total_profit: strategy.total_profit,
            execution_count: strategy.execution_count,
            success_count: strategy.success_count,
            success_rate: strategy.success_rate(),
            last_execution: strategy.last_execution,
            status: strategy.status,
        }
    }
}

/// One-time setup of the admin identity.
pub fn initialize_admin(admin: u64) -> (r: AdminConfig)
    ensures
        r.admin == admin,
{
    AdminConfig { admin }
}

/// The validation outcome of `create_strategy`: the first error in the
/// checking order, or `None` when the parameters are acceptable.
pub open spec fn create_strategy_check(
    dexs: Seq<DexType>,
    token_pairs: Seq<TokenPair>,
    profit_threshold: u16,
    max_slippage: u16,
) -> Option<StrategyError> {
    if profit_threshold < MIN_PROFIT_THRESHOLD_BPS {
        Some(StrategyError::ProfitThresholdTooLow)
    } else if max_slippage > MAX_SLIPPAGE_BPS {
        Some(StrategyError::SlippageTooHigh)
    } else if dexs.len() == 0 {
        Some(StrategyError::NoDexSpecified)
    } else if token_pairs.len() == 0 {
        Some(StrategyError::NoTokenPairSpecified)
    } else if exists|i: int|
        0 <= i < token_pairs.len() && (#[trigger] token_pairs[i]).token_a == token_pairs[i].token_b {
        Some(StrategyError::InvalidTokenPair)
    } else if dexs.len() > MAX_DEXS {
        Some(StrategyError::NoDexSpecified)
    } else if token_pairs.len() > MAX_TOKEN_PAIRS {
        Some(StrategyError::NoTokenPairSpecified)
    } else {
        None
    }
}

/// Copy a vector of venues (venue kinds are plain copies).
fn copy_dexs(v: &Vec<DexType>) -> (r: Vec<DexType>)
    ensures
        r@ =~= v@,
{
    let mut r: Vec<DexType> = Vec::new();
    let mut i: usize = 0;
    while i < v.len()
        invariant
            i <= v@.len(),
            r@ =~= v@.subrange(0, i as int),
        decreases v@.len() - i,
    {
        r.push(v[i]);
        i = i + 1;
    }
    r
}

/// Copy a vector of token pairs.
fn copy_pairs(v: &Vec<TokenPair>) -> (r: Vec<TokenPair>)
    ensures
        r@ =~= v@,
{
    let mut r: Vec<TokenPair> = Vec::new();
    let mut i: usize = 0;
    while i < v.len()
        invariant
            i <= v@.len(),
            r@ =~= v@.subrange(0, i as int),
        decreases v@.len() - i,
    {
        r.push(v[i]);
        i = i + 1;
    }
    r
}

/// Create a new strategy. On success the record starts in `Pending` with
/// all counters zero, and the creation event carries the parameters.
pub fn create_strategy(
    creator: u64,
    strategy_id: u64,
    dexs: Vec<DexType>,
    token_pairs: Vec<TokenPair>,
    profit_threshold: u16,
    max_slippage: u16,
    now: i64,
) -> (r: Result<(StrategyAccount, StrategyCreated), StrategyError>)
    ensures
        match r {
            Ok((s, ev)) => {
                &&& create_strategy_check(dexs@, token_pairs@, profit_threshold, max_slippage)
                    is None
                &&& s.creator == creator
                &&& s.strategy_id == strategy_id
                &&& s.dexs@ =~= dexs@
                &&& s.token_pairs@ =~= token_pairs@
                &&& s.profit_threshold == profit_threshold
                &&& s.max_slippage == max_slippage
                &&& s.status is Pending
                &&& s.total_profit == 0
                &&& s.execution_count == 0
                &&& s.success_count == 0
                &&& s.last_execution == 0
                &&& s.wf()
                &&& ev.strategy_id == strategy_id
                &&& ev.creator == creator
                &&& ev.dexs@ =~= dexs@
                &&& ev.token_pairs@ =~= token_pairs@
                &&& ev.profit_threshold == profit_threshold
                &&& ev.max_slippage == max_slippage
                &&& ev.timestamp == now
            },
            Err(e) => Some(e) == create_strategy_check(
                dexs@,
                token_pairs@,
                profit_threshold,
                max_slippage,
            ),
        },
{
    if profit_threshold < MIN_PROFIT_THRESHOLD_BPS {
        return Err(StrategyError::ProfitThresholdTooLow);
    }
    if max_slippage > MAX_SLIPPAGE_BPS {
        return Err(StrategyError::SlippageTooHigh);
    }
    if dexs.len() == 0 {
        return Err(StrategyError::NoDexSpecified);
    }
    if token_pairs.len() == 0 {
        return Err(StrategyError::NoTokenPairSpecified);
    }
    let mut i: usize = 0;
    while i < token_pairs.len()
        invariant
            i <= token_pairs@.len(),
            profit_threshold >= MIN_PROFIT_THRESHOLD_BPS,
            max_slippage <= MAX_SLIPPAGE_BPS,
            dexs@.len() > 0,
            token_pairs@.len() > 0,
            forall|j: int|
                0 <= j < i ==> #[trigger] token_pairs@[j].token_a != token_pairs@[j].token_b,
        decreases token_pairs@.len() - i,
    {
        if token_pairs[i].token_a == token_pairs[i].token_b {
            proof {
                assert(exists|k: int|
                    0 <= k < token_pairs@.len() && (#[trigger] token_pairs@[k]).token_a
                        == token_pairs@[k].token_b) by {
                    assert(0 <= i < token_pairs@.len() && token_pairs@[i as int].token_a
                        == token_pairs@[i as int].token_b);
                }
            }
            return Err(StrategyError::InvalidTokenPair);
        }
        i = i + 1;
    }
    if dexs.len() > MAX_DEXS {
        return Err(StrategyError::NoDexSpecified);
    }
    if token_pairs.len() > MAX_TOKEN_PAIRS {
        return Err(StrategyError::NoTokenPairSpecified);
    }
    let event = StrategyCreated {
        strategy_id,
        creator,
        dexs: copy_dexs(&dexs),
        token_pairs: copy_pairs(&token_pairs),
        profit_threshold,
        max_slippage,
        timestamp: now,
    };
    let strategy = StrategyAccount {
        creator,
        strategy_id,
        dexs,
        token_pairs,
        profit_threshold,
        max_slippage,
        status: StrategyStatus::Pending,
        total_profit: 0,
        execution_count: 0,
        success_count: 0,
        last_execution: 0,
    };
    Ok((strategy, event))
}

/// Approve a pending strategy. Only the configured admin may approve, and
/// only a `Pending` strategy; the transition is terminal.
pub fn approve_strategy(
    strategy: &mut StrategyAccount,
    admin_config: &AdminConfig,
    caller: u64,
    now: i64,
) -> (r: Result<StrategyApproved, StrategyError>)
    ensures
        match r {
            Ok(ev) => {
                &&& caller == admin_config.admin
                &&& old(strategy).status is Pending
                &&& *final(strategy) == (StrategyAccount {
                    status: StrategyStatus::Approved,
                    ..*old(strategy)
                })
                &&& ev == (StrategyApproved {
                    strategy_id: old(strategy).strategy_id,
                    creator: old(strategy).creator,
                    approver: caller,
                    timestamp: now,
                })
            },
            Err(e) => {
                &&& *final(strategy) == *old(strategy)
                &&& if caller != admin_config.admin {
                    e is UnauthorizedApprover
                } else {
                    !(old(strategy).status is Pending) && e is InvalidStatus
                }
            },
        },
        old(strategy).wf() ==> final(strategy).wf(),
{
    if caller != admin_config.admin {
        return Err(StrategyError::UnauthorizedApprover);
    }
    if strategy.status != StrategyStatus::Pending {
        return Err(StrategyError::InvalidStatus);
    }
    strategy.status = StrategyStatus::Approved;
    Ok(StrategyApproved {
        strategy_id: strategy.strategy_id,
        creator: strategy.creator,
        approver: caller,
        timestamp: now,
    })
}

/// Reject a pending strategy. Same gating as approval; the transition is
/// terminal.
pub fn reject_strategy(
    strategy: &mut StrategyAccount,
    admin_config: &AdminConfig,
    caller: u64,
    now: i64,
) -> (r: Result<StrategyRejected, StrategyError>)
    ensures
        match r {
            Ok(ev) => {
                &&& caller == admin_config.admin
                &&& old(strategy).status is Pending
                &&& *final(strategy) == (StrategyAccount {
                    status: StrategyStatus::Rejected,
                    ..*old(strategy)
                })
                &&& ev == (StrategyRejected {
                    strategy_id: old(strategy).strategy_id,
                    creator: old(strategy).creator,
                    rejecter: caller,
                    timestamp: now,
                })
            },
            Err(e) => {
                &&& *final(strategy) == *old(strategy)
                &&& if caller != admin_config.admin {
                    e is UnauthorizedApprover
                } else {
                    !(old(strategy).status is Pending) && e is InvalidStatus
                }
            },
        },
        old(strategy).wf() ==> final(strategy).wf(),
{
    if caller != admin_config.admin {
        return Err(StrategyError::UnauthorizedApprover);
    }
    if strategy.status != StrategyStatus::Pending {
        return Err(StrategyError::InvalidStatus);
    }
    strategy.status = StrategyStatus::Rejected;
    Ok(StrategyRejected {
        strategy_id: strategy.strategy_id,
        creator: strategy.creator,
        rejecter: caller,
        timestamp: now,
    })
}

/// Whether recording an execution would overflow one of the metrics
/// counters; overflow is a fatal integrity violation, never clamped.
pub open spec fn metrics_overflow(s: StrategyAccount, profit: u64, success: bool) -> bool {
    ||| s.execution_count == u64::MAX
    ||| (success && (s.success_count == u64::MAX || s.total_profit + profit > u64::MAX))
}

/// Record an execution against an approved strategy: the execution count
/// always grows by one; the success count and cumulative profit grow only
/// on success; the last-execution time is set. Any counter overflow aborts
/// with no effect.
pub fn update_metrics(
    strategy: &mut StrategyAccount,
    executor: u64,
    profit: u64,
    success: bool,
    now: i64,
) -> (r: Result<StrategyExecuted, StrategyError>)
    ensures
        match r {
            Ok(ev) => {
                &&& old(strategy).spec_is_executable()
                &&& !metrics_overflow(*old(strategy), profit, success)
                &&& *final(strategy) == (StrategyAccount {
                    execution_count: (old(strategy).execution_count + 1) as u64,
                    success_count: if success {
                        (old(strategy).success_count + 1) as u64
                    } else {
                        old(strategy).success_count
                    },
                    total_profit: if success {
                        (old(strategy).total_profit + profit) as u64
                    } else {
                        old(strategy).total_profit
                    },
                    last_execution: now,
                    ..*old(strategy)
                })
                &&& ev == (StrategyExecuted {
                    strategy_id: old(strategy).strategy_id,
                    creator: old(strategy).creator,
                    executor,
                    profit,
                    success,
                    execution_count: final(strategy).execution_count,
                    success_count: final(strategy).success_count,
                    timestamp: now,
                })
            },
            Err(e) => {
                &&& *final(strategy) == *old(strategy)
                &&& if !old(strategy).spec_is_executable() {
                    e is StrategyNotApproved
                } else {
                    metrics_overflow(*old(strategy), profit, success) && e is ArithmeticOverflow
                }
            },
        },
        old(strategy).wf() ==> final(strategy).wf(),
{
    if !strategy.is_executable() {
        return Err(StrategyError::StrategyNotApproved);
    }
    let new_execution_count = match strategy.execution_count.checked_add(1) {
        Some(n) => n,
        None => {
            return Err(StrategyError::ArithmeticOverflow);
        },
    };
    let mut new_success_count = strategy.success_count;
    let mut new_total_profit = strategy.total_profit;
    if success {
        new_success_count = match strategy.success_count.checked_add(1) {
            Some(n) => n,
            None => {
                return Err(StrategyError::ArithmeticOverflow);
            },
        };
        new_total_profit = match strategy.total_profit.checked_add(profit) {
            Some(n) => n,
            None => {
                return Err(StrategyError::ArithmeticOverflow);
            },
        };
    }
    strategy.execution_count = new_execution_count;
    strategy.success_count = new_success_count;
    strategy.total_profit = new_total_profit;
    strategy.last_execution = now;
    Ok(StrategyExecuted {
        strategy_id: strategy.strategy_id,
        creator: strategy.creator,
        executor,
        profit,
        success,
        execution_count: strategy.execution_count,
        success_count: strategy.success_count,
        timestamp: now,
    })
}

/// Read-only statistics view of a strategy.
pub fn get_strategy_stats(strategy: &StrategyAccount) -> (r: StrategyStats)
    requires
        strategy.success_count <= strategy.execution_count,
    ensures
        r.strategy_id == strategy.strategy_id,
        r.creator == strategy.creator,
        r.total_profit == strategy.total_profit,
        r.execution_count == strategy.execution_count,
        r.success_count == strategy.success_count,
        r.last_execution == strategy.last_execution,
        r.status == strategy.status,
        strategy.execution_count == 0 ==> r.success_rate == 0,
        strategy.execution_count > 0 ==> r.success_rate == strategy.success_count * 100
            / (strategy.execution_count as int),
{
    StrategyStats::from_strategy(strategy)
}

} // verus!
