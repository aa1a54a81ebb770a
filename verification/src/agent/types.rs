//! The agent contract's status, state, events, errors and round table.
use vstd::prelude::*;

use crate::ids::{Address, AgentId};
use crate::rounds::{
    ROUND_1_COST, ROUND_1_GRACE, ROUND_1_PULSE_PERIOD, ROUND_2_COST, ROUND_2_GRACE,
    ROUND_2_PULSE_PERIOD, ROUND_3_COST, ROUND_3_GRACE, ROUND_3_PULSE_PERIOD, ROUND_4_COST,
    ROUND_4_GRACE, ROUND_4_PULSE_PERIOD, ROUND_5_COST, ROUND_5_GRACE, ROUND_5_PULSE_PERIOD,
};

verus! {

/// Storage keys of the agent contract.
pub const AGENT_ID_KEY: &'static str = "AGENT_ID";
pub const OWNER_KEY: &'static str = "OWNER";
pub const SEASON_ID_KEY: &'static str = "SEASON";
pub const STATUS_KEY: &'static str = "STATUS";
pub const DEADLINE_KEY: &'static str = "DEADLINE";
pub const GRACE_KEY: &'static str = "GRACE";
pub const LAST_PULSE_KEY: &'static str = "LASTPULSE";
pub const STREAK_KEY: &'static str = "STREAK";
pub const SCORE_KEY: &'static str = "SCORE";
pub const REGISTRY_KEY: &'static str = "REGISTRY";
pub const HEART_BALANCE_KEY: &'static str = "HEART";
pub const TOTAL_EARNED_KEY: &'static str = "EARNED";
pub const TOTAL_SPENT_KEY: &'static str = "SPENT";
pub const KILL_COUNT_KEY: &'static str = "KILLS";
pub const CONSECUTIVE_PULSES_KEY: &'static str = "CONPULSES";
pub const WOUND_COUNT_KEY: &'static str = "WOUNDS";

/// Where the agent stands in the game; on chain Alive is 0, Wounded 1,
/// Dead 2, Withdrawn 3.
#[derive(Clone, Copy, Debug, PartialEq, Eq, Structural)]
pub enum AgentStatus {
    Alive,
    Wounded,
    Dead,
    Withdrawn,
}

/// The agent's full state.
#[derive(Clone, Copy, Debug, PartialEq, Eq)]
pub struct AgentState {
    pub agent_id: AgentId,
    pub owner: Address,
    pub season_id: u32,
    pub status: AgentStatus,
    pub deadline_ledger: u32,
    pub grace_deadline: u32,
    pub last_pulse_ledger: u32,
    pub streak_count: u32,
    pub activity_score: u64,
    pub heart_balance: i128,
    pub total_earned: i128,
    pub total_spent: i128,
    pub kill_count: u32,
    pub wound_count: u32,
}

/// Announces an initialized agent.
#[derive(Clone, Copy, Debug, PartialEq, Eq)]
pub struct AgentInitialized {
    pub agent_id: AgentId,
    pub owner: Address,
    pub season_id: u32,
}

/// Announces a pulse.
#[derive(Clone, Copy, Debug, PartialEq, Eq)]
pub struct AgentPulsed {
    pub is_late: bool,
    pub cost: i128,
    pub new_deadline: u32,
}

/// Announces a liquidation.
#[derive(Clone, Copy, Debug, PartialEq, Eq)]
pub struct AgentLiquidated {
    pub target_agent: AgentId,
    pub reward: i128,
}

/// Announces a withdrawal.
#[derive(Clone, Copy, Debug, PartialEq, Eq)]
pub struct AgentWithdrawn {
    pub refund: i128,
    pub prize_contribution: i128,
}

/// Published after a pulse.
#[derive(Clone, Copy, Debug, PartialEq, Eq)]
pub struct PulseEvent {
    pub ledger: u32,
    pub cost: i128,
    pub is_late: bool,
    pub new_balance: i128,
}

/// Published after a liquidation.
#[derive(Clone, Copy, Debug, PartialEq, Eq)]
pub struct LiquidationEvent {
    pub target_agent_id: AgentId,
    pub reward: i128,
    pub new_balance: i128,
    pub ledger: u32,
}

/// Published after a withdrawal.
#[derive(Clone, Copy, Debug, PartialEq, Eq)]
pub struct WithdrawalEvent {
    pub refund: i128,
    pub ledger: u32,
}

/// Published after a prize claim.
#[derive(Clone, Copy, Debug, PartialEq, Eq)]
pub struct PrizeClaimedEvent {
    pub prize_amount: i128,
    pub new_balance: i128,
    pub ledger: u32,
}

/// Published after a scan for targets.
#[derive(Clone, Copy, Debug, PartialEq, Eq)]
pub struct ScanEvent {
    pub agent_id: AgentId,
    pub dead_count: u32,
    pub vulnerable_count: u32,
    pub total_targets: u32,
    pub ledger: u32,
}

/// Errors of the agent contract.
#[derive(Clone, Copy, Debug, PartialEq, Eq, Structural)]
pub enum Error {
    AlreadyInitialized,
    NotInitialized,
    NotOwner,
    AgentDead,
    AgentWithdrawn,
    InsufficientBalance,
    SeasonEnded,
    InvalidTarget,
    TargetNotDead,
    PrizeClaimFailed,
    WithdrawalFailed,
    PulseFailed,
    NoPrizeToClaim,
    Overflow,
    DivisionByZero,
}

/// The numeric code an agent error carries on chain.
pub open spec fn error_code(e: Error) -> u32 {
    match e {
        Error::AlreadyInitialized => 1,
        Error::NotInitialized => 2,
        Error::NotOwner => 3,
        Error::AgentDead => 4,
        Error::AgentWithdrawn => 5,
        Error::InsufficientBalance => 6,
        Error::SeasonEnded => 7,
        Error::InvalidTarget => 8,
        Error::TargetNotDead => 9,
        Error::PrizeClaimFailed => 10,
        Error::WithdrawalFailed => 11,
        Error::PulseFailed => 12,
        Error::NoPrizeToClaim => 13,
        Error::Overflow => 14,
        Error::DivisionByZero => 15,
    }
}

impl Error {
    /// The numeric code of this error (1 to 15, in declaration order).
    pub fn code(&self) -> (c: u32)
        ensures
            c == error_code(*self),
    {
        match self {
            Error::AlreadyInitialized => 1,
            Error::NotInitialized => 2,
            Error::NotOwner => 3,
            Error::AgentDead => 4,
            Error::AgentWithdrawn => 5,
            Error::InsufficientBalance => 6,
            Error::SeasonEnded => 7,
            Error::InvalidTarget => 8,
            Error::TargetNotDead => 9,
            Error::PrizeClaimFailed => 10,
            Error::WithdrawalFailed => 11,
            Error::PulseFailed => 12,
            Error::NoPrizeToClaim => 13,
            Error::Overflow => 14,
            Error::DivisionByZero => 15,
        }
    }
}

/// (pulse period, grace period, pulse cost) of a round; rounds other than
/// 1 to 5 get round 5's.
pub open spec fn round_params(round: u32) -> (u32, u32, i128) {
    if round == 1 {
        (ROUND_1_PULSE_PERIOD, ROUND_1_GRACE, ROUND_1_COST)
    } else if round == 2 {
        (ROUND_2_PULSE_PERIOD, ROUND_2_GRACE, ROUND_2_COST)
    } else if round == 3 {
        (ROUND_3_PULSE_PERIOD, ROUND_3_GRACE, ROUND_3_COST)
    } else if round == 4 {
        (ROUND_4_PULSE_PERIOD, ROUND_4_GRACE, ROUND_4_COST)
    } else {
        (ROUND_5_PULSE_PERIOD, ROUND_5_GRACE, ROUND_5_COST)
    }
}

/// The pulse period, grace period and pulse cost of a round; any round
/// other than 1 to 5 is treated as round 5.
pub fn get_round_config(round: u32) -> (r: (u32, u32, i128))
    ensures
        r == round_params(round),
{
    match round {
        1 => (ROUND_1_PULSE_PERIOD, ROUND_1_GRACE, ROUND_1_COST),
        2 => (ROUND_2_PULSE_PERIOD, ROUND_2_GRACE, ROUND_2_COST),
        3 => (ROUND_3_PULSE_PERIOD, ROUND_3_GRACE, ROUND_3_COST),
        4 => (ROUND_4_PULSE_PERIOD, ROUND_4_GRACE, ROUND_4_COST),
        5 => (ROUND_5_PULSE_PERIOD, ROUND_5_GRACE, ROUND_5_COST),
        _ => (ROUND_5_PULSE_PERIOD, ROUND_5_GRACE, ROUND_5_COST),
    }
}

} // verus!
