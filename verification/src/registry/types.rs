//! The registry's records, summaries, season view, round table and errors.
use vstd::prelude::*;

use crate::ids::{Address, AgentId};
use crate::rounds::{
    ROUND_1_DURATION,
    ROUND_2_DURATION,
    ROUND_3_DURATION,
    ROUND_4_DURATION,
    ROUND_5_DURATION,
    ROUND_1_PULSE_PERIOD,
    ROUND_2_PULSE_PERIOD,
    ROUND_3_PULSE_PERIOD,
    ROUND_4_PULSE_PERIOD,
    ROUND_5_PULSE_PERIOD,
    ROUND_1_GRACE,
    ROUND_2_GRACE,
    ROUND_3_GRACE,
    ROUND_4_GRACE,
    ROUND_5_GRACE,
    ROUND_1_COST,
    ROUND_2_COST,
    ROUND_3_COST,
    ROUND_4_COST,
    ROUND_5_COST,
};

verus! {

/// Pulse fee to the protocol, in basis points (5%).
pub const PROTOCOL_FEE_BPS: u32 = 500;

/// Pulse share to the prize pool, in basis points (5%).
pub const PRIZE_POOL_BPS: u32 = 500;

/// Pulse share spent on storage rent, in basis points (90%).
pub const TTL_RENT_BPS: u32 = 9000;

/// The most agents a season admits.
pub const MAX_AGENTS: u32 = 10000;

/// Storage keys of the registry contract.
pub const SEASON_START_KEY: &'static str = "SEASON";
pub const PRIZE_POOL_KEY: &'static str = "PRIZE";
pub const PROTOCOL_FEE_KEY: &'static str = "PROTOCOL";
pub const AGENTS_KEY: &'static str = "AGENTS";
pub const AGENT_COUNT_KEY: &'static str = "AGENTCNT";
pub const SEASON_DATA_KEY: &'static str = "SEASDATA";

/// Where an agent stands in the game.
#[derive(Clone, Copy, Debug, PartialEq, Eq, Structural)]
pub enum AgentStatus {
    Alive,
    Wounded,
    Dead,
    Withdrawn,
}

/// What discovery queries report of an agent.
#[derive(Clone, Copy, Debug, PartialEq, Eq)]
pub struct AgentSummary {
    pub agent_id: AgentId,
    pub status: AgentStatus,
    pub deadline_ledger: u32,
    pub grace_deadline: u32,
    pub ledgers_remaining: u32,
    pub heart_balance: i128,
    pub activity_score: u64,
    pub wound_count: u32,
}

/// Everything the registry keeps about one agent.
#[derive(Clone, Copy, Debug, PartialEq, Eq)]
pub struct AgentRecord {
    pub agent_id: AgentId,
    pub owner: Address,
    pub contract_address: Address,
    pub season_id: u32,
    pub status: AgentStatus,
    pub deadline_ledger: u32,
    pub grace_deadline: u32,
    pub last_pulse_ledger: u32,
    pub streak_count: u32,
    pub activity_score: u64,
    pub wound_count: u32,
    pub heart_balance: i128,
    pub total_earned: i128,
    pub total_spent: i128,
    pub kill_count: u32,
    pub round_joined: u32,
    /// Whether the agent has claimed its prize this season.
    pub prize_claimed: bool,
}

/// The season as queries report it.
#[derive(Clone, Copy, Debug, PartialEq, Eq)]
pub struct SeasonState {
    pub season_id: u32,
    pub current_round: u32,
    pub round_name: &'static str,
    pub round_deadline: u32,
    pub pulse_cost: i128,
    pub pulse_period: u32,
    pub grace_period: u32,
    pub total_agents: u32,
    pub alive_agents: u32,
    pub dead_agents: u32,
    pub prize_pool: i128,
    pub season_ended: bool,
}

/// One round's name, length, pulse window, grace window and pulse cost.
#[derive(Clone, Copy, Debug, PartialEq, Eq)]
pub struct RoundConfig {
    pub name: &'static str,
    pub duration: u32,
    pub pulse_period: u32,
    pub grace_period: u32,
    pub pulse_cost: i128,
}

/// Errors of the registry.
#[derive(Clone, Copy, Debug, PartialEq, Eq, Structural)]
pub enum Error {
    AlreadyInitialized,
    NotInitialized,
    AgentAlreadyRegistered,
    AgentNotFound,
    InvalidAgentContract,
    SeasonNotEnded,
    SeasonAlreadyEnded,
    InvalidRound,
    PrizePoolEmpty,
    NoPrizeToClaim,
    NotASurvivor,
    RoundNotComplete,
    AgentDead,
    AgentWithdrawn,
    Overflow,
    InvalidAddress,
    LiquidationInProgress,
    DivisionByZero,
    UnauthorizedCaller,
    MaxAgentsReached,
    PrizeAlreadyClaimed,
}

/// The numeric code a registry error carries on chain.
pub open spec fn error_code(e: Error) -> u32 {
    match e {
        Error::AlreadyInitialized => 1,
        Error::NotInitialized => 2,
        Error::AgentAlreadyRegistered => 3,
        Error::AgentNotFound => 4,
        Error::InvalidAgentContract => 5,
        Error::SeasonNotEnded => 6,
        Error::SeasonAlreadyEnded => 7,
        Error::InvalidRound => 8,
        Error::PrizePoolEmpty => 9,
        Error::NoPrizeToClaim => 10,
        Error::NotASurvivor => 11,
        Error::RoundNotComplete => 12,
        Error::AgentDead => 13,
        Error::AgentWithdrawn => 14,
        Error::Overflow => 15,
        Error::InvalidAddress => 16,
        Error::LiquidationInProgress => 17,
        Error::DivisionByZero => 18,
        Error::UnauthorizedCaller => 19,
        Error::MaxAgentsReached => 20,
        Error::PrizeAlreadyClaimed => 21,
    }
}

impl Error {
    /// The numeric code of this error (1 to 21, in declaration order).
    pub fn code(&self) -> (c: u32)
        ensures
            c == error_code(*self),
    {
        match self {
            Error::AlreadyInitialized => 1,
            Error::NotInitialized => 2,
            Error::AgentAlreadyRegistered => 3,
            Error::AgentNotFound => 4,
            Error::InvalidAgentContract => 5,
            Error::SeasonNotEnded => 6,
            Error::SeasonAlreadyEnded => 7,
            Error::InvalidRound => 8,
            Error::PrizePoolEmpty => 9,
            Error::NoPrizeToClaim => 10,
            Error::NotASurvivor => 11,
            Error::RoundNotComplete => 12,
            Error::AgentDead => 13,
            Error::AgentWithdrawn => 14,
            Error::Overflow => 15,
            Error::InvalidAddress => 16,
            Error::LiquidationInProgress => 17,
            Error::DivisionByZero => 18,
            Error::UnauthorizedCaller => 19,
            Error::MaxAgentsReached => 20,
            Error::PrizeAlreadyClaimed => 21,
        }
    }
}

/// Round length in ledgers; 0 outside rounds 1 to 5.
pub open spec fn round_duration(round: u32) -> u32 {
    if round == 1 {
        ROUND_1_DURATION
    } else if round == 2 {
        ROUND_2_DURATION
    } else if round == 3 {
        ROUND_3_DURATION
    } else if round == 4 {
        ROUND_4_DURATION
    } else if round == 5 {
        ROUND_5_DURATION
    } else {
        0
    }
}

/// Pulse window in ledgers; 0 outside rounds 1 to 5.
pub open spec fn round_pulse_period(round: u32) -> u32 {
    if round == 1 {
        ROUND_1_PULSE_PERIOD
    } else if round == 2 {
        ROUND_2_PULSE_PERIOD
    } else if round == 3 {
        ROUND_3_PULSE_PERIOD
    } else if round == 4 {
        ROUND_4_PULSE_PERIOD
    } else if round == 5 {
        ROUND_5_PULSE_PERIOD
    } else {
        0
    }
}

/// Grace window in ledgers; 0 outside rounds 1 to 5.
pub open spec fn round_grace(round: u32) -> u32 {
    if round == 1 {
        ROUND_1_GRACE
    } else if round == 2 {
        ROUND_2_GRACE
    } else if round == 3 {
        ROUND_3_GRACE
    } else if round == 4 {
        ROUND_4_GRACE
    } else if round == 5 {
        ROUND_5_GRACE
    } else {
        0
    }
}

/// Pulse cost in stroops; 0 outside rounds 1 to 5.
pub open spec fn round_cost(round: u32) -> i128 {
    if round == 1 {
        ROUND_1_COST
    } else if round == 2 {
        ROUND_2_COST
    } else if round == 3 {
        ROUND_3_COST
    } else if round == 4 {
        ROUND_4_COST
    } else if round == 5 {
        ROUND_5_COST
    } else {
        0
    }
}

/// Round name; "Unknown" outside rounds 1 to 5.
pub open spec fn round_name(round: u32) -> Seq<char> {
    if round == 1 {
        "Genesis"@
    } else if round == 2 {
        "Pressure"@
    } else if round == 3 {
        "Crucible"@
    } else if round == 4 {
        "Apex"@
    } else if round == 5 {
        "Singularity"@
    } else {
        "Unknown"@
    }
}

/// `c` is the configuration of `round`.
pub open spec fn is_round_config(c: RoundConfig, round: u32) -> bool {
    &&& c.name@ == round_name(round)
    &&& c.duration == round_duration(round)
    &&& c.pulse_period == round_pulse_period(round)
    &&& c.grace_period == round_grace(round)
    &&& c.pulse_cost == round_cost(round)
}

/// The configuration of a round: Genesis, Pressure, Crucible, Apex and
/// Singularity for rounds 1 to 5; any other round gets "Unknown" with every
/// number 0.
pub fn get_round_config(round: u32) -> (c: RoundConfig)
    ensures
        is_round_config(c, round),
{
    if round == 1 {
        RoundConfig {
            name: "Genesis",
            duration: ROUND_1_DURATION,
            pulse_period: ROUND_1_PULSE_PERIOD,
            grace_period: ROUND_1_GRACE,
            pulse_cost: ROUND_1_COST,
        }
    } else if round == 2 {
        RoundConfig {
            name: "Pressure",
            duration: ROUND_2_DURATION,
            pulse_period: ROUND_2_PULSE_PERIOD,
            grace_period: ROUND_2_GRACE,
            pulse_cost: ROUND_2_COST,
        }
    } else if round == 3 {
        RoundConfig {
            name: "Crucible",
            duration: ROUND_3_DURATION,
            pulse_period: ROUND_3_PULSE_PERIOD,
            grace_period: ROUND_3_GRACE,
            pulse_cost: ROUND_3_COST,
        }
    } else if round == 4 {
        RoundConfig {
            name: "Apex",
            duration: ROUND_4_DURATION,
            pulse_period: ROUND_4_PULSE_PERIOD,
            grace_period: ROUND_4_GRACE,
            pulse_cost: ROUND_4_COST,
        }
    } else if round == 5 {
        RoundConfig {
            name: "Singularity",
            duration: ROUND_5_DURATION,
            pulse_period: ROUND_5_PULSE_PERIOD,
            grace_period: ROUND_5_GRACE,
            pulse_cost: ROUND_5_COST,
        }
    } else {
        RoundConfig { name: "Unknown", duration: 0, pulse_period: 0, grace_period: 0, pulse_cost: 0 }
    }
}

} // verus!
