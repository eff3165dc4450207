//! Token-weighted governance: proposals, voting, permissionless execution,
//! and treasury bookkeeping.
//!
//! A proposal is created by a holder of enough governance tokens, collects
//! token-weighted yes/no/abstain votes inside a fixed window, and once the
//! window has closed anyone may execute it: if quorum and majority hold,
//! a strategy-approval proposal approves its target strategy through the
//! registry, under the governance module's own authority. Each voter gets
//! at most one vote record per proposal; a second vote is refused without
//! touching the totals.

use vstd::prelude::*;
use vstd::utf8::encode_utf8;

use crate::address::{derive_proposal_address, derive_strategy_address, bytes_eq};
use crate::address::{spec_proposal_address, spec_strategy_address};
use crate::errors::{GovernanceError, ProtocolError, StrategyError};
use crate::registry;
use crate::registry::{AdminConfig, StrategyAccount, StrategyApproved, StrategyStatus};

verus! {

/// Total supply of governance tokens: one hundred million, nine decimals.
pub const REBEL_TOTAL_SUPPLY: u64 = 100_000_000 * 1_000_000_000;

/// Decimals of the governance token.
pub const REBEL_DECIMALS: u8 = 9;

/// Share of the supply minted for strategy creators and executors.
pub const COMMUNITY_ALLOCATION: u8 = 40;

/// Share of the supply minted for the treasury.
pub const TREASURY_ALLOCATION: u8 = 30;

/// Share of the supply minted for early contributors.
pub const TEAM_ALLOCATION: u8 = 20;

/// Share of the supply minted for liquidity provision.
pub const LIQUIDITY_ALLOCATION: u8 = 10;

/// Default quorum, as a percentage of the total supply.
pub const DEFAULT_QUORUM_PERCENTAGE: u8 = 10;

/// Default voting period: three days, in seconds.
pub const DEFAULT_VOTING_PERIOD: i64 = 3 * 24 * 60 * 60;

/// Minimum token balance required to create a proposal.
pub const MIN_PROPOSAL_THRESHOLD: u64 = 1_000 * 1_000_000_000;

/// Longest accepted proposal description, in bytes.
pub const MAX_DESCRIPTION_LEN: usize = 200;

/// Kinds of proposal the governance process supports.
#[derive(Clone, Copy, Debug, PartialEq, Eq, Structural)]
pub enum ProposalType {
    /// Approve a strategy for execution.
    StrategyApproval,
    /// Change governance parameters.
    ParameterChange,
    /// Spend treasury funds.
    TreasurySpend,
    /// Upgrade the protocol.
    ProtocolUpgrade,
}

impl Default for ProposalType {
    fn default() -> (r: Self)
        ensures
            r is StrategyApproval,
    {
        ProposalType::StrategyApproval
    }
}

/// Lifecycle of a proposal.
#[derive(Clone, Copy, Debug, PartialEq, Eq, Structural)]
pub enum ProposalStatus {
    /// Voting is open.
    Active,
    /// Voting ended and the proposal passed.
    Succeeded,
    /// Voting ended and the proposal failed.
    Defeated,
    /// The proposal's action was carried out.
    Executed,
}

impl Default for ProposalStatus {
    fn default() -> (r: Self)
        ensures
            r is Active,
    {
        ProposalStatus::Active
    }
}

/// A voter's choice.
#[derive(Clone, Copy, Debug, PartialEq, Eq, Structural)]
pub enum VoteChoice {
    Yes,
    No,
    Abstain,
}

impl Default for VoteChoice {
    fn default() -> (r: Self)
        ensures
            r is Abstain,
    {
        VoteChoice::Abstain
    }
}

/// The one governance configuration record of a deployment.
#[derive(Clone, Copy, Debug, PartialEq, Eq, Structural)]
pub struct GovernanceConfig {
    /// Governance token mint.
    pub rebel_mint: u64,
    /// Total token supply.
    pub total_supply: u64,
    /// Supply distributed so far.
    pub circulating_supply: u64,
    /// Identity under which governance approves strategies.
    pub governance_authority: u64,
    /// Quorum, as a percentage of the total supply.
    pub quorum_percentage: u8,
    /// Length of each voting window, in seconds.
    pub voting_period_seconds: i64,
    /// Minimum balance to create a proposal.
    pub proposal_threshold: u64,
    /// Next proposal id; strictly increasing.
    pub next_proposal_id: u64,
    /// Number of proposals created.
    pub total_proposals: u64,
    /// Whether the one-time token distribution has run.
    pub distribution_completed: bool,
}

impl GovernanceConfig {
    /// Well-formedness: quorum and voting period are positive.
    pub open spec fn wf(&self) -> bool {
        &&& self.quorum_percentage > 0
        &&& self.voting_period_seconds > 0
    }
}

/// A proposal record.
#[derive(Clone, Debug)]
pub struct Proposal {
    /// Unique proposal id.
    pub proposal_id: u64,
    /// Kind of proposal.
    pub proposal_type: ProposalType,
    /// Identity of the proposer.
    pub proposer: u64,
    /// Address of the strategy to approve.
    pub strategy_to_approve: Vec<u8>,
    /// Free-form description, at most `MAX_DESCRIPTION_LEN` bytes.
    pub description: String,
    /// When voting starts.
    pub voting_starts: i64,
    /// When voting ends.
    pub voting_ends: i64,
    /// Token-weighted yes votes.
    pub votes_yes: u64,
    /// Token-weighted no votes.
    pub votes_no: u64,
    /// Token-weighted abstain votes.
    pub votes_abstain: u64,
    /// Current status.
    pub status: ProposalStatus,
    /// Whether the proposal's action was carried out; set at most once.
    pub executed: bool,
}

impl Proposal {
    /// Sum of all vote weights; zero if the sum would not fit, as the
    /// totals themselves are kept overflow-checked.
    pub open spec fn spec_total_votes(&self) -> u64 {
        if self.votes_yes + self.votes_no + self.votes_abstain <= u64::MAX {
            (self.votes_yes + self.votes_no + self.votes_abstain) as u64
        } else {
            0
        }
    }

    /// Whether voting is open at `now`.
    pub fn is_voting_active(&self, current_timestamp: i64) -> (r: bool)
        ensures
            r == (self.status is Active && self.voting_starts <= current_timestamp
                <= self.voting_ends),
    {
        self.status == ProposalStatus::Active && current_timestamp >= self.voting_starts
            && current_timestamp <= self.voting_ends
    }

    /// Whether the voting window has closed at `now`.
    pub fn has_voting_ended(&self, current_timestamp: i64) -> (r: bool)
        ensures
            r == (current_timestamp > self.voting_ends),
    {
        current_timestamp > self.voting_ends
    }

    /// Sum of all vote weights.
    pub fn total_votes(&self) -> (r: u64)
        ensures
            r == self.spec_total_votes(),
    {
        match self.votes_yes.checked_add(self.votes_no) {
            Some(sum) => match sum.checked_add(self.votes_abstain) {
                Some(total) => total,
                None => 0,
            },
            None => 0,
        }
    }

    /// The outcome of the vote against a required quorum: defeated without
    /// quorum, succeeded on a strict yes majority, defeated otherwise.
    pub fn check_result(&self, quorum_required: u64) -> (r: ProposalStatus)
        ensures
            r == if self.spec_total_votes() < quorum_required {
                ProposalStatus::Defeated
            } else if self.votes_yes > self.votes_no {
                ProposalStatus::Succeeded
            } else {
                ProposalStatus::Defeated
            },
    {
        let total = self.total_votes();
        if total < quorum_required {
            return ProposalStatus::Defeated;
        }
        if self.votes_yes > self.votes_no {
            ProposalStatus::Succeeded
        } else {
            ProposalStatus::Defeated
        }
    }
}

/// The one treasury record of a deployment. It only ever receives through
/// `deposit_treasury`; spending is a future governance action.
#[derive(Clone, Copy, Debug, PartialEq, Eq, Structural)]
pub struct Treasury {
    /// Governance authority controlling the treasury.
    pub authority: u64,
    /// Total received from profit distribution.
    pub total_received: u64,
    /// Total spent via governance proposals.
    pub total_spent: u64,
    /// Governance tokens held by the treasury.
    pub rebel_balance: u64,
}

impl Treasury {
    /// Well-formedness: nothing was spent that was not received.
    pub open spec fn wf(&self) -> bool {
        self.total_spent <= self.total_received
    }

    /// What remains available: received minus spent, never negative.
    pub fn available_balance(&self) -> (r: u64)
        ensures
            r == if self.total_received >= self.total_spent {
                self.total_received - self.total_spent
            } else {
                0
            },
    {
        if self.total_received >= self.total_spent {
            self.total_received - self.total_spent
        } else {
            0
        }
    }
}

/// Event recorded when the treasury receives a deposit.
#[derive(Clone, Copy, Debug, PartialEq, Eq, Structural)]
pub struct TreasuryDeposited {
    pub depositor: u64,
    pub amount: u64,
    pub total_received: u64,
}

/// One voter's vote on one proposal; created once, never mutated.
#[derive(Clone, Debug)]
pub struct VoteRecord {
    /// Address of the proposal voted on.
    pub proposal: Vec<u8>,
    /// Identity of the voter.
    pub voter: u64,
    /// Voting power at vote time.
    pub vote_weight: u64,
    /// The choice cast.
    pub vote_choice: VoteChoice,
    /// When the vote was cast.
    pub timestamp: i64,
}

/// The arena of vote records, keyed by (proposal address, voter): creation
/// of a record is a unique-key insertion, so a pair occurs at most once.
#[derive(Clone, Debug)]
pub struct VoteLedger {
    pub records: Vec<VoteRecord>,
}

impl VoteLedger {
    /// Whether a record exists for the pair.
    pub open spec fn spec_contains(&self, proposal_address: Seq<u8>, voter: u64) -> bool {
        exists|i: int|
            0 <= i < self.records@.len() && (#[trigger] self.records@[i]).proposal@
                == proposal_address && self.records@[i].voter == voter
    }

    /// Well-formedness: no two records share a (proposal, voter) pair.
    pub open spec fn wf(&self) -> bool {
        forall|i: int, j: int|
            #![trigger self.records@[i], self.records@[j]]
            0 <= i < j < self.records@.len() ==> !(self.records@[i].proposal@
                == self.records@[j].proposal@ && self.records@[i].voter
                == self.records@[j].voter)
    }

    /// An empty ledger.
    pub fn new() -> (r: VoteLedger)
        ensures
            r.records@.len() == 0,
            r.wf(),
    {
        VoteLedger { records: Vec::new() }
    }

    /// Look a pair up.
    pub fn contains_vote(&self, proposal_address: &Vec<u8>, voter: u64) -> (r: bool)
        ensures
            r == self.spec_contains(proposal_address@, voter),
    {
        let mut i: usize = 0;
        while i < self.records.len()
            invariant
                i <= self.records@.len(),
                forall|j: int|
                    0 <= j < i ==> !((#[trigger] self.records@[j]).proposal@ == proposal_address@
                        && self.records@[j].voter == voter),
            decreases self.records@.len() - i,
        {
            if self.records[i].voter == voter && bytes_eq(&self.records[i].proposal,
                proposal_address) {
                proof {
                    assert(self.records@[i as int].proposal@ == proposal_address@
                        && self.records@[i as int].voter == voter);
                }
                return true;
            }
            i = i + 1;
        }
        false
    }
}

/// In a well-formed ledger at most one vote record exists per
/// (proposal, voter) pair: two records of the same pair are one record.
pub proof fn lemma_vote_record_unique(ledger: VoteLedger, i: int, j: int)
    requires
        ledger.wf(),
        0 <= i < ledger.records@.len(),
        0 <= j < ledger.records@.len(),
        ledger.records@[i].proposal@ == ledger.records@[j].proposal@,
        ledger.records@[i].voter == ledger.records@[j].voter,
    ensures
        i == j,
{
    if i < j {
        assert(!(ledger.records@[i].proposal@ == ledger.records@[j].proposal@
            && ledger.records@[i].voter == ledger.records@[j].voter));
    }
    if j < i {
        assert(!(ledger.records@[j].proposal@ == ledger.records@[i].proposal@
            && ledger.records@[j].voter == ledger.records@[i].voter));
    }
}

/// One-time setup: the governance configuration with its defaults, and an
/// empty treasury under the governance authority.
pub fn initialize(rebel_mint: u64, governance_authority: u64) -> (r: (GovernanceConfig, Treasury))
    ensures
        r.0 == (GovernanceConfig {
            rebel_mint,
            total_supply: REBEL_TOTAL_SUPPLY,
            circulating_supply: 0,
            governance_authority,
            quorum_percentage: DEFAULT_QUORUM_PERCENTAGE,
            voting_period_seconds: DEFAULT_VOTING_PERIOD,
            proposal_threshold: MIN_PROPOSAL_THRESHOLD,
            next_proposal_id: 0,
            total_proposals: 0,
            distribution_completed: false,
        }),
        r.0.wf(),
        r.1 == (Treasury {
            authority: governance_authority,
            total_received: 0,
            total_spent: 0,
            rebel_balance: 0,
        }),
        r.1.wf(),
{
    let config = GovernanceConfig {
        rebel_mint,
        total_supply: REBEL_TOTAL_SUPPLY,
        circulating_supply: 0,
        governance_authority,
        quorum_percentage: DEFAULT_QUORUM_PERCENTAGE,
        voting_period_seconds: DEFAULT_VOTING_PERIOD,
        proposal_threshold: MIN_PROPOSAL_THRESHOLD,
        next_proposal_id: 0,
        total_proposals: 0,
        distribution_completed: false,
    };
    let treasury = Treasury {
        authority: governance_authority,
        total_received: 0,
        total_spent: 0,
        rebel_balance: 0,
    };
    (config, treasury)
}

/// The amount of supply allotted to a percentage share.
pub fn calculate_allocation(percentage: u8) -> (r: u64)
    requires
        percentage <= 100,
    ensures
        r == REBEL_TOTAL_SUPPLY * percentage / 100,
{
    proof {
        assert(REBEL_TOTAL_SUPPLY * (percentage as int) <= REBEL_TOTAL_SUPPLY * 100)
            by (nonlinear_arith)
            requires
                percentage <= 100,
        ;
    }
    REBEL_TOTAL_SUPPLY * (percentage as u64) / 100
}

/// The four amounts minted by the one-time token distribution.
#[derive(Clone, Copy, Debug, PartialEq, Eq, Structural)]
pub struct TokenAllocation {
    pub community: u64,
    pub treasury: u64,
    pub team: u64,
    pub liquidity: u64,
}

/// Mint the fixed supply split across the community, treasury, team and
/// liquidity allocations. Guarded by the distribution flag: a second
/// attempt is rejected, not a no-op.
pub fn distribute_tokens(config: &mut GovernanceConfig) -> (r: Result<
    TokenAllocation,
    GovernanceError,
>)
    ensures
        match r {
            Ok(a) => {
                &&& !old(config).distribution_completed
                &&& a.community == REBEL_TOTAL_SUPPLY * COMMUNITY_ALLOCATION / 100
                &&& a.treasury == REBEL_TOTAL_SUPPLY * TREASURY_ALLOCATION / 100
                &&& a.team == REBEL_TOTAL_SUPPLY * TEAM_ALLOCATION / 100
                &&& a.liquidity == REBEL_TOTAL_SUPPLY * LIQUIDITY_ALLOCATION / 100
                &&& a.community + a.treasury + a.team + a.liquidity == REBEL_TOTAL_SUPPLY
                &&& *final(config) == (GovernanceConfig {
                    circulating_supply: REBEL_TOTAL_SUPPLY,
                    distribution_completed: true,
                    ..*old(config)
                })
            },
            Err(e) => {
                &&& *final(config) == *old(config)
                &&& old(config).distribution_completed
                &&& e is DistributionCompleted
            },
        },
        old(config).wf() ==> final(config).wf(),
{
    if config.distribution_completed {
        return Err(GovernanceError::DistributionCompleted);
    }
    let community = calculate_allocation(COMMUNITY_ALLOCATION);
    let treasury = calculate_allocation(TREASURY_ALLOCATION);
    let team = calculate_allocation(TEAM_ALLOCATION);
    let liquidity = calculate_allocation(LIQUIDITY_ALLOCATION);
    config.circulating_supply = REBEL_TOTAL_SUPPLY;
    config.distribution_completed = true;
    Ok(TokenAllocation { community, treasury, team, liquidity })
}

/// What `create_proposal` refuses first, in checking order, or `None`
/// when the proposal may be created.
pub open spec fn create_proposal_check(
    config: GovernanceConfig,
    proposer_balance: u64,
    description: Seq<char>,
) -> Option<GovernanceError> {
    if proposer_balance < config.proposal_threshold {
        Some(GovernanceError::InsufficientTokens)
    } else if encode_utf8(description).len() as usize > MAX_DESCRIPTION_LEN {
        Some(GovernanceError::InvalidConfiguration)
    } else if config.next_proposal_id + 1 > u64::MAX {
        Some(GovernanceError::ArithmeticOverflow)
    } else if config.total_proposals + 1 > u64::MAX {
        Some(GovernanceError::ArithmeticOverflow)
    } else {
        None
    }
}

/// Create a proposal to approve the strategy at `strategy_to_approve`.
/// The proposer must hold at least the proposal threshold; the proposal
/// starts `Active` with the voting window open from `now`, and the global
/// proposal counters grow by one.
pub fn create_proposal(
    config: &mut GovernanceConfig,
    proposer: u64,
    proposer_balance: u64,
    strategy_to_approve: Vec<u8>,
    description: String,
    now: i64,
) -> (r: Result<Proposal, GovernanceError>)
    requires
        old(config).wf(),
        now + old(config).voting_period_seconds <= i64::MAX,
    ensures
        match r {
            Ok(p) => {
                &&& create_proposal_check(*old(config), proposer_balance, description@) is None
                &&& p.proposal_id == old(config).next_proposal_id
                &&& p.proposal_type is StrategyApproval
                &&& p.proposer == proposer
                &&& p.strategy_to_approve@ == strategy_to_approve@
                &&& p.description@ == description@
                &&& p.voting_starts == now
                &&& p.voting_ends == now + old(config).voting_period_seconds
                &&& p.votes_yes == 0
                &&& p.votes_no == 0
                &&& p.votes_abstain == 0
                &&& p.status is Active
                &&& p.executed == false
                &&& *final(config) == (GovernanceConfig {
                    next_proposal_id: (old(config).next_proposal_id + 1) as u64,
                    total_proposals: (old(config).total_proposals + 1) as u64,
                    ..*old(config)
                })
            },
            Err(e) => {
                &&& *final(config) == *old(config)
                &&& Some(e) == create_proposal_check(*old(config), proposer_balance, description@)
            },
        },
        final(config).wf(),
{
    if proposer_balance < config.proposal_threshold {
        return Err(GovernanceError::InsufficientTokens);
    }
    if description.as_str().len() > MAX_DESCRIPTION_LEN {
        return Err(GovernanceError::InvalidConfiguration);
    }
    let new_next_id = match config.next_proposal_id.checked_add(1) {
        Some(n) => n,
        None => {
            return Err(GovernanceError::ArithmeticOverflow);
        },
    };
    let new_total = match config.total_proposals.checked_add(1) {
        Some(n) => n,
        None => {
            return Err(GovernanceError::ArithmeticOverflow);
        },
    };
    let proposal = Proposal {
        proposal_id: config.next_proposal_id,
        proposal_type: ProposalType::StrategyApproval,
        proposer,
        strategy_to_approve,
        description,
        voting_starts: now,
        voting_ends: now + config.voting_period_seconds,
        votes_yes: 0,
        votes_no: 0,
        votes_abstain: 0,
        status: ProposalStatus::Active,
        executed: false,
    };
    config.next_proposal_id = new_next_id;
    config.total_proposals = new_total;
    Ok(proposal)
}

/// The running total a choice adds to.
pub open spec fn chosen_total(proposal: Proposal, choice: VoteChoice) -> u64 {
    match choice {
        VoteChoice::Yes => proposal.votes_yes,
        VoteChoice::No => proposal.votes_no,
        VoteChoice::Abstain => proposal.votes_abstain,
    }
}

/// What `cast_vote` refuses first, in checking order, or `None` when
/// the vote may be cast.
pub open spec fn cast_vote_check(
    proposal: Proposal,
    ledger: VoteLedger,
    voter: u64,
    voter_balance: u64,
    choice: VoteChoice,
    now: i64,
) -> Option<GovernanceError> {
    if now < proposal.voting_starts {
        Some(GovernanceError::VotingNotStarted)
    } else if now > proposal.voting_ends {
        Some(GovernanceError::VotingEnded)
    } else if !(proposal.status is Active) {
        Some(GovernanceError::ProposalNotActive)
    } else if ledger.spec_contains(spec_proposal_address(proposal.proposal_id), voter) {
        Some(GovernanceError::AlreadyVoted)
    } else if voter_balance == 0 {
        Some(GovernanceError::NoVotingPower)
    } else if chosen_total(proposal, choice) + voter_balance > u64::MAX {
        Some(GovernanceError::ArithmeticOverflow)
    } else {
        None
    }
}

/// Cast a vote on an active proposal, weighted by the voter's current
/// token balance. The vote record is a unique-key insertion: a second vote
/// by the same voter on the same proposal is refused with `AlreadyVoted`
/// and mutates nothing.
pub fn cast_vote(
    proposal: &mut Proposal,
    ledger: &mut VoteLedger,
    voter: u64,
    voter_balance: u64,
    vote_choice: VoteChoice,
    now: i64,
) -> (r: Result<(), GovernanceError>)
    ensures
        match r {
            Ok(()) => {
                &&& cast_vote_check(
                    *old(proposal),
                    *old(ledger),
                    voter,
                    voter_balance,
                    vote_choice,
                    now,
                ) is None
                &&& *final(proposal) == (Proposal {
                    votes_yes: if vote_choice is Yes {
                        (old(proposal).votes_yes + voter_balance) as u64
                    } else {
                        old(proposal).votes_yes
                    },
                    votes_no: if vote_choice is No {
                        (old(proposal).votes_no + voter_balance) as u64
                    } else {
                        old(proposal).votes_no
                    },
                    votes_abstain: if vote_choice is Abstain {
                        (old(proposal).votes_abstain + voter_balance) as u64
                    } else {
                        old(proposal).votes_abstain
                    },
                    ..*old(proposal)
                })
                &&& final(ledger).records@.len() == old(ledger).records@.len() + 1
                &&& forall|i: int|
                    0 <= i < old(ledger).records@.len() ==> final(ledger).records@[i] == old(
                        ledger,
                    ).records@[i]
                &&& final(ledger).records@.last().proposal@ == spec_proposal_address(
                    old(proposal).proposal_id,
                )
                &&& final(ledger).records@.last().voter == voter
                &&& final(ledger).records@.last().vote_weight == voter_balance
                &&& final(ledger).records@.last().vote_choice == vote_choice
                &&& final(ledger).records@.last().timestamp == now
                &&& final(ledger).spec_contains(
                    spec_proposal_address(old(proposal).proposal_id),
                    voter,
                )
            },
            Err(e) => {
                &&& *final(proposal) == *old(proposal)
                &&& *final(ledger) == *old(ledger)
                &&& Some(e) == cast_vote_check(
                    *old(proposal),
                    *old(ledger),
                    voter,
                    voter_balance,
                    vote_choice,
                    now,
                )
            },
        },
        old(ledger).wf() ==> final(ledger).wf(),
{
    if now < proposal.voting_starts {
        return Err(GovernanceError::VotingNotStarted);
    }
    if now > proposal.voting_ends {
        return Err(GovernanceError::VotingEnded);
    }
    if proposal.status != ProposalStatus::Active {
        return Err(GovernanceError::ProposalNotActive);
    }
    let proposal_address = derive_proposal_address(proposal.proposal_id);
    if ledger.contains_vote(&proposal_address, voter) {
        return Err(GovernanceError::AlreadyVoted);
    }
    if voter_balance == 0 {
        return Err(GovernanceError::NoVotingPower);
    }
    match vote_choice {
        VoteChoice::Yes => {
            let new_total = match proposal.votes_yes.checked_add(voter_balance) {
                Some(n) => n,
                None => {
                    return Err(GovernanceError::ArithmeticOverflow);
                },
            };
            proposal.votes_yes = new_total;
        },
        VoteChoice::No => {
            let new_total = match proposal.votes_no.checked_add(voter_balance) {
                Some(n) => n,
                None => {
                    return Err(GovernanceError::ArithmeticOverflow);
                },
            };
            proposal.votes_no = new_total;
        },
        VoteChoice::Abstain => {
            let new_total = match proposal.votes_abstain.checked_add(voter_balance) {
                Some(n) => n,
                None => {
                    return Err(GovernanceError::ArithmeticOverflow);
                },
            };
            proposal.votes_abstain = new_total;
        },
    }
    let record = VoteRecord {
        proposal: proposal_address,
        voter,
        vote_weight: voter_balance,
        vote_choice,
        timestamp: now,
    };
    ledger.records.push(record);
    proof {
        let addr = spec_proposal_address(old(proposal).proposal_id);
        let n = old(ledger).records@.len() as int;
        assert(ledger.records@[n].proposal@ == addr && ledger.records@[n].voter == voter);
        if old(ledger).wf() {
            assert forall|i: int, j: int|
                0 <= i < j < ledger.records@.len() implies !((#[trigger] ledger.records@[i]).proposal@
                == (#[trigger] ledger.records@[j]).proposal@ && ledger.records@[i].voter
                == ledger.records@[j].voter) by {
                if j < n {
                    assert(ledger.records@[i] == old(ledger).records@[i]);
                    assert(ledger.records@[j] == old(ledger).records@[j]);
                } else {
                    assert(ledger.records@[j] == ledger.records@[n]);
                    if ledger.records@[i].proposal@ == addr && ledger.records@[i].voter == voter {
                        assert(old(ledger).records@[i] == ledger.records@[i]);
                        assert(old(ledger).spec_contains(addr, voter));
                    }
                }
            }
        }
    }
    Ok(())
}

/// The quorum a proposal must reach: the configured percentage of the
/// total supply, in exact integer arithmetic.
pub open spec fn spec_quorum_required(config: GovernanceConfig) -> int {
    config.total_supply * config.quorum_percentage / 100
}

/// What `execute_proposal` refuses first, in checking order, or `None`
/// when execution may proceed.
pub open spec fn execute_proposal_check(
    config: GovernanceConfig,
    proposal: Proposal,
    strategy: StrategyAccount,
    admin_config: AdminConfig,
    now: i64,
) -> Option<ProtocolError> {
    if now <= proposal.voting_ends {
        Some(ProtocolError::Governance(GovernanceError::VotingStillActive))
    } else if proposal.executed {
        Some(ProtocolError::Governance(GovernanceError::AlreadyExecuted))
    } else if proposal.spec_total_votes() < spec_quorum_required(config) {
        Some(ProtocolError::Governance(GovernanceError::QuorumNotReached))
    } else if proposal.votes_yes <= proposal.votes_no {
        Some(ProtocolError::Governance(GovernanceError::ProposalDefeated))
    } else if !(proposal.proposal_type is StrategyApproval) {
        Some(ProtocolError::Governance(GovernanceError::InvalidProposalType))
    } else if proposal.strategy_to_approve@ != spec_strategy_address(
        strategy.creator,
        strategy.strategy_id,
    ) {
        Some(ProtocolError::Governance(GovernanceError::InvalidStrategy))
    } else if config.governance_authority != admin_config.admin {
        Some(ProtocolError::Strategy(StrategyError::UnauthorizedApprover))
    } else if !(strategy.status is Pending) {
        Some(ProtocolError::Strategy(StrategyError::InvalidStatus))
    } else {
        None
    }
}

/// Execute a proposal once its voting window has closed. Execution is
/// permissionless: the action is authorized by the accumulated vote weight
/// (quorum over the total supply, then a strict yes majority), not by the
/// caller. A strategy-approval proposal approves its target strategy
/// through the registry under the governance authority; the proposal is
/// then marked executed, exactly once. Any refusal leaves both records
/// untouched.
pub fn execute_proposal(
    config: &GovernanceConfig,
    proposal: &mut Proposal,
    strategy: &mut StrategyAccount,
    admin_config: &AdminConfig,
    now: i64,
) -> (r: Result<StrategyApproved, ProtocolError>)
    ensures
        match r {
            Ok(ev) => {
                &&& execute_proposal_check(
                    *config,
                    *old(proposal),
                    *old(strategy),
                    *admin_config,
                    now,
                ) is None
                &&& *final(proposal) == (Proposal {
                    status: ProposalStatus::Executed,
                    executed: true,
                    ..*old(proposal)
                })
                &&& *final(strategy) == (StrategyAccount {
                    status: StrategyStatus::Approved,
                    ..*old(strategy)
                })
                &&& ev == (StrategyApproved {
                    strategy_id: old(strategy).strategy_id,
                    creator: old(strategy).creator,
                    approver: config.governance_authority,
                    timestamp: now,
                })
            },
            Err(e) => {
                &&& *final(proposal) == *old(proposal)
                &&& *final(strategy) == *old(strategy)
                &&& Some(e) == execute_proposal_check(
                    *config,
                    *old(proposal),
                    *old(strategy),
                    *admin_config,
                    now,
                )
            },
        },
        old(strategy).wf() ==> final(strategy).wf(),
{
    if now <= proposal.voting_ends {
        return Err(ProtocolError::Governance(GovernanceError::VotingStillActive));
    }
    if proposal.executed {
        return Err(ProtocolError::Governance(GovernanceError::AlreadyExecuted));
    }
    let total_votes = proposal.total_votes();
    proof {
        assert((config.total_supply as int) * (config.quorum_percentage as int) <= u64::MAX * 255)
            by (nonlinear_arith)
            requires
                config.total_supply <= u64::MAX,
                config.quorum_percentage <= 255,
        ;
    }
    let required_wide: u128 = (config.total_supply as u128) * (config.quorum_percentage as u128)
        / 100;
    if (total_votes as u128) < required_wide {
        return Err(ProtocolError::Governance(GovernanceError::QuorumNotReached));
    }
    if proposal.votes_yes <= proposal.votes_no {
        return Err(ProtocolError::Governance(GovernanceError::ProposalDefeated));
    }
    if proposal.proposal_type != ProposalType::StrategyApproval {
        return Err(ProtocolError::Governance(GovernanceError::InvalidProposalType));
    }
    let target = derive_strategy_address(strategy.creator, strategy.strategy_id);
    if !bytes_eq(&proposal.strategy_to_approve, &target) {
        return Err(ProtocolError::Governance(GovernanceError::InvalidStrategy));
    }
    if config.governance_authority != admin_config.admin {
        return Err(ProtocolError::Strategy(StrategyError::UnauthorizedApprover));
    }
    if strategy.status != StrategyStatus::Pending {
        return Err(ProtocolError::Strategy(StrategyError::InvalidStatus));
    }
    let ev = match registry::approve_strategy(strategy, admin_config, config.governance_authority,
        now) {
        Ok(ev) => ev,
        Err(e) => {
            return Err(ProtocolError::Strategy(e));
        },
    };
    proposal.status = ProposalStatus::Executed;
    proposal.executed = true;
    Ok(ev)
}

/// Record a deposit into the treasury; additive only. Overflow of the
/// running total is a fatal integrity violation.
pub fn deposit_treasury(treasury: &mut Treasury, depositor: u64, amount: u64) -> (r: Result<
    TreasuryDeposited,
    GovernanceError,
>)
    ensures
        match r {
            Ok(ev) => {
                &&& old(treasury).total_received + amount <= u64::MAX
                &&& *final(treasury) == (Treasury {
                    total_received: (old(treasury).total_received + amount) as u64,
                    ..*old(treasury)
                })
                &&& ev == (TreasuryDeposited {
                    depositor,
                    amount,
                    total_received: final(treasury).total_received,
                })
            },
            Err(e) => {
                &&& *final(treasury) == *old(treasury)
                &&& old(treasury).total_received + amount > u64::MAX
                &&& e is ArithmeticOverflow
            },
        },
        old(treasury).wf() ==> final(treasury).wf(),
{
    let new_received = match treasury.total_received.checked_add(amount) {
        Some(n) => n,
        None => {
            return Err(GovernanceError::ArithmeticOverflow);
        },
    };
    treasury.total_received = new_received;
    Ok(TreasuryDeposited { depositor, amount, total_received: treasury.total_received })
}

/// Once a ledger holds a vote record for a pair, a second vote by that
/// voter on that proposal is refused as a duplicate whenever the window
/// and status would otherwise admit it; with `cast_vote`'s contract,
/// which mutates nothing on a refusal, the vote totals cannot be moved
/// twice by one voter.
pub proof fn lemma_second_vote_refused(
    proposal: Proposal,
    ledger: VoteLedger,
    voter: u64,
    voter_balance: u64,
    choice: VoteChoice,
    now: i64,
)
    requires
        ledger.spec_contains(spec_proposal_address(proposal.proposal_id), voter),
        proposal.voting_starts <= now <= proposal.voting_ends,
        proposal.status is Active,
    ensures
        cast_vote_check(proposal, ledger, voter, voter_balance, choice, now) == Some(
            GovernanceError::AlreadyVoted,
        ),
{
}
} // verus!
