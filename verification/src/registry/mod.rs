//! The game registry: seasons, rounds, the table of registered agents and
//! the prize pool.
pub mod game;
pub mod laws;
pub mod table;
pub mod types;

pub use types::{
    error_code, get_round_config, is_round_config, round_cost, round_duration, round_grace,
    round_name, round_pulse_period, AgentRecord, AgentStatus, AgentSummary, Error, RoundConfig,
    SeasonState, AGENTS_KEY, AGENT_COUNT_KEY, MAX_AGENTS, PRIZE_POOL_BPS, PRIZE_POOL_KEY, PROTOCOL_FEE_BPS,
    PROTOCOL_FEE_KEY, SEASON_DATA_KEY, SEASON_START_KEY, TTL_RENT_BPS,
};
pub use table::{
    has_agent, ids_sorted, index_of, insertion_point, lookup, table_wf, AgentTable,
};
pub use game::{
    advance_round_in_range, advance_round_transition, alive_count, is_survivor, survivor_score_total,
    all_summaries, claim_transition, dead_count, dead_summaries, empty_registry,
    init_season_in_range, init_season_transition, init_transition, is_liquidatable,
    is_vulnerable, kill_transition, ledgers_remaining, mark_dead_transition, new_record,
    prize_share, pulse_transition, pulsed_record, register_in_range, register_transition,
    reports_season, sorted_insert, summary_of, vulnerable_agents_at, vulnerable_summaries, withdrawal_transition,
    GameRegistry, RegistryModel,
};
