//! Typed error taxonomy of the protocol.
//!
//! Every operation surfaces one of these enumerable codes, never a generic
//! failure, so a caller can tell an economic rejection (slippage, quorum)
//! from an integrity violation (overflow).

use vstd::prelude::*;

verus! {

/// Errors of the strategy registry.
#[derive(Clone, Copy, Debug, PartialEq, Eq, Structural)]
pub enum StrategyError {
    /// Profit threshold must be at least 10 basis points.
    ProfitThresholdTooLow,
    /// Max slippage cannot exceed 500 basis points.
    SlippageTooHigh,
    /// Strategy must name at least one venue, and at most the allowed number.
    NoDexSpecified,
    /// Strategy must name at least one token pair, and at most the allowed number.
    NoTokenPairSpecified,
    /// A token pair cannot have identical tokens on both sides.
    InvalidTokenPair,
    /// Strategy status is not Pending, so it cannot be approved or rejected.
    InvalidStatus,
    /// Strategy is not approved for execution.
    StrategyNotApproved,
    /// Only the configured admin can approve or reject strategies.
    UnauthorizedApprover,
    /// Arithmetic overflow in a metrics counter.
    ArithmeticOverflow,
    /// Strategy id counter overflow.
    StrategyIdOverflow,
}

/// Errors of the flash-loan pool.
#[derive(Clone, Copy, Debug, PartialEq, Eq, Structural)]
pub enum FlashLoanError {
    /// Pool liquidity is below the requested borrow amount.
    InsufficientLiquidity,
    /// A flash loan is already active (reentrancy prevented).
    FlashLoanActive,
    /// No active flash loan to repay.
    NoActiveLoan,
    /// Repayment does not match the recorded borrow.
    InsufficientRepayment,
    /// Borrow amount below the minimum floor.
    BorrowAmountTooLow,
    /// Borrow amount above the maximum ceiling.
    BorrowAmountTooHigh,
    /// Fee basis points exceed the maximum allowed.
    FeeTooHigh,
    /// Arithmetic overflow in pool accounting.
    ArithmeticOverflow,
    /// Caller is not the pool authority.
    Unauthorized,
    /// The liquidity account handed in does not belong to the pool.
    InvalidTokenAccount,
}

/// Local error codes of the pool's fee arithmetic helpers.
#[derive(Clone, Copy, Debug, PartialEq, Eq, Structural)]
pub enum ErrorCode {
    /// Arithmetic overflow.
    ArithmeticOverflow,
    /// Insufficient repayment amount.
    InsufficientRepayment,
}

/// Errors of the execution engine.
#[derive(Clone, Copy, Debug, PartialEq, Eq, Structural)]
pub enum ExecutionError {
    /// Arithmetic overflow in a checked computation.
    ArithmeticOverflow,
    /// Arithmetic underflow in a checked computation.
    ArithmeticUnderflow,
    /// Insufficient vault liquidity for the borrow.
    InsufficientVaultLiquidity,
    /// Repayment amount is insufficient.
    InsufficientRepayment,
    /// Execution resulted in negative profit.
    NegativeProfit,
    /// Net profit fell below the caller's minimum.
    SlippageExceeded,
    /// Invalid exchange rate configuration.
    InvalidExchangeRate,
    /// Profit distribution shares do not sum to the whole.
    InvalidProfitDistribution,
    /// Strategy is not approved for execution.
    StrategyNotApproved,
    /// Vault is not initialized.
    VaultNotInitialized,
    /// Invalid token pair for a swap.
    InvalidTokenPair,
    /// No venue found for the token pair.
    DexNotFound,
}

/// Errors of the governance module.
#[derive(Clone, Copy, Debug, PartialEq, Eq, Structural)]
pub enum GovernanceError {
    /// Proposer holds fewer tokens than the proposal threshold.
    InsufficientTokens,
    /// Voting has not started yet.
    VotingNotStarted,
    /// Voting period has ended.
    VotingEnded,
    /// Proposal is not in Active status.
    ProposalNotActive,
    /// Voter holds no tokens, so no voting power.
    NoVotingPower,
    /// Voter has already voted on this proposal.
    AlreadyVoted,
    /// Voting period is still active.
    VotingStillActive,
    /// Proposal has already been executed.
    AlreadyExecuted,
    /// Quorum not reached.
    QuorumNotReached,
    /// More No votes than Yes votes.
    ProposalDefeated,
    /// Proposal type is not supported.
    InvalidProposalType,
    /// Strategy record does not match the proposal's target.
    InvalidStrategy,
    /// Caller is not the governance authority.
    UnauthorizedGovernance,
    /// Arithmetic overflow in a governance counter.
    ArithmeticOverflow,
    /// Invalid governance configuration.
    InvalidConfiguration,
    /// Token distribution already completed.
    DistributionCompleted,
    /// Treasury balance insufficient for a withdrawal.
    InsufficientTreasuryBalance,
}

/// Error of a cross-component operation: the code of whichever component
/// refused, kept distinct so monitoring can attribute the abort.
#[derive(Clone, Copy, Debug, PartialEq, Eq, Structural)]
pub enum ProtocolError {
    Strategy(StrategyError),
    FlashLoan(FlashLoanError),
    Execution(ExecutionError),
    Governance(GovernanceError),
}

} // verus!
