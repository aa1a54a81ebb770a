//! The agent contract: one per player, holding its heart balance, deadlines,
//! streak and score.
pub mod contract;
pub mod laws;
pub mod types;

pub use contract::{
    active_storage, agent_id_from_xdr, claim_step, constructed, id_from_xdr, initial_state,
    liquidate_step, pulse_cost, pulse_step, pulsed_storage, survivor_storage, with_state,
    withdraw_step, AgentContract, AgentStorage, PulseOutcome, PulseReceipt,
};
pub use types::{
    error_code, get_round_config, round_params, AgentInitialized, AgentLiquidated, AgentPulsed,
    AgentState, AgentStatus, AgentWithdrawn, Error, LiquidationEvent, PrizeClaimedEvent,
    PulseEvent, ScanEvent, WithdrawalEvent, AGENT_ID_KEY, CONSECUTIVE_PULSES_KEY, DEADLINE_KEY,
    GRACE_KEY, HEART_BALANCE_KEY, KILL_COUNT_KEY, LAST_PULSE_KEY, OWNER_KEY, REGISTRY_KEY,
    SCORE_KEY, SEASON_ID_KEY, STATUS_KEY, STREAK_KEY, TOTAL_EARNED_KEY, TOTAL_SPENT_KEY,
    WOUND_COUNT_KEY,
};
pub use crate::registry::types::AgentSummary;
pub use crate::rounds::{
    ENTRY_BOND, ROUND_1_COST, ROUND_1_DURATION, ROUND_1_GRACE, ROUND_1_PULSE_PERIOD,
    ROUND_2_COST, ROUND_2_DURATION, ROUND_2_GRACE, ROUND_2_PULSE_PERIOD, ROUND_3_COST,
    ROUND_3_DURATION, ROUND_3_GRACE, ROUND_3_PULSE_PERIOD, ROUND_4_COST, ROUND_4_DURATION,
    ROUND_4_GRACE, ROUND_4_PULSE_PERIOD, ROUND_5_COST, ROUND_5_DURATION, ROUND_5_GRACE,
    ROUND_5_PULSE_PERIOD,
};
