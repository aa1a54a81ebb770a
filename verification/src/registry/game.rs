//! The registry's state and operations. Each operation is specified by a
//! transition of `RegistryModel`; an operation that fails leaves the state
//! as it was.
use vstd::prelude::*;

use crate::ids::{id_lt, lemma_id_lt_irreflexive, same_id, Address, AgentId};
use crate::registry::table::{
    has_agent, ids_sorted, index_of, insertion_point, lemma_index_of_unique, lookup, table_wf,
    AgentTable,
};
use crate::registry::types::{
    get_round_config, round_cost, round_duration, round_grace, round_name, round_pulse_period,
    AgentRecord, AgentStatus, AgentSummary, Error, SeasonState, MAX_AGENTS, PRIZE_POOL_BPS,
    PROTOCOL_FEE_BPS,
};
use crate::rounds::{
    checked_scale, fits_i128, scaled_share, streak_bonus, streak_bonus_spec, trunc_div, ENTRY_BOND,
    ROUND_1_DURATION,
};

verus! {

/// The registry's storage as mathematical values.
pub struct RegistryModel {
    pub protocol_fee_address: Option<Address>,
    pub prize_pool: i128,
    pub agent_count: u32,
    pub season_id: u32,
    /// (current round, round deadline, season ended)
    pub season_data: (u32, u32, bool),
    pub agents: Seq<AgentRecord>,
}

/// The registry contract's storage. An absent storage entry reads as its
/// default: prize pool 0, agent count 0, season 0 (none yet), season data
/// (round 1, deadline 0, not ended), no agents; the protocol fee address
/// has no default.
pub struct GameRegistry {
    pub protocol_fee_address: Option<Address>,
    pub prize_pool: i128,
    pub agent_count: u32,
    pub season_id: u32,
    /// (current round, round deadline, season ended)
    pub season_data: (u32, u32, bool),
    pub agents: AgentTable,
}

impl View for GameRegistry {
    type V = RegistryModel;

    open spec fn view(&self) -> RegistryModel {
        RegistryModel {
            protocol_fee_address: self.protocol_fee_address,
            prize_pool: self.prize_pool,
            agent_count: self.agent_count,
            season_id: self.season_id,
            season_data: self.season_data,
            agents: self.agents@,
        }
    }
}

/// The storage of a registry nothing has been written to.
pub open spec fn empty_registry() -> RegistryModel {
    RegistryModel {
        protocol_fee_address: None,
        prize_pool: 0,
        agent_count: 0,
        season_id: 0,
        season_data: (1, 0, false),
        agents: Seq::empty(),
    }
}

/// `init`: records the fee address and zeroes the pool, the agent count and
/// the season number.
pub open spec fn init_transition(m: RegistryModel, fee_address: Address) -> RegistryModel {
    RegistryModel {
        protocol_fee_address: Some(fee_address),
        prize_pool: 0,
        agent_count: 0,
        season_id: 0,
        ..m
    }
}

/// `init_season` refuses while a season is running; otherwise it opens the
/// next season in round 1, with an empty pool and no agents.
pub open spec fn init_season_transition(m: RegistryModel, ledger: u32) -> Result<
    (RegistryModel, u32),
    Error,
> {
    if m.season_id > 0 && !m.season_data.2 {
        Err(Error::AlreadyInitialized)
    } else {
        let season = (m.season_id + 1) as u32;
        Ok(
            (
                RegistryModel {
                    season_id: season,
                    prize_pool: 0,
                    agents: Seq::empty(),
                    agent_count: 0,
                    season_data: (1, (ledger + ROUND_1_DURATION) as u32, false),
                    ..m
                },
                season,
            ),
        )
    }
}

/// The arithmetic of `init_season` stays in range.
pub open spec fn init_season_in_range(m: RegistryModel, ledger: u32) -> bool {
    (m.season_id == 0 || m.season_data.2) ==> (m.season_id < u32::MAX && ledger
        + ROUND_1_DURATION <= u32::MAX)
}

/// The record of an agent that registers now.
pub open spec fn new_record(
    contract: Address,
    id: AgentId,
    season_id: u32,
    round: u32,
    ledger: u32,
) -> AgentRecord {
    AgentRecord {
        agent_id: id,
        owner: contract,
        contract_address: contract,
        season_id: season_id,
        status: AgentStatus::Alive,
        deadline_ledger: (ledger + round_pulse_period(round)) as u32,
        grace_deadline: (ledger + round_pulse_period(round) + round_grace(round)) as u32,
        last_pulse_ledger: ledger,
        streak_count: 0,
        activity_score: 0,
        wound_count: 0,
        heart_balance: ENTRY_BOND,
        total_earned: 0,
        total_spent: 0,
        kill_count: 0,
        round_joined: round,
        prize_claimed: false,
    }
}

/// `s` with `r` inserted where its id belongs.
pub open spec fn sorted_insert(s: Seq<AgentRecord>, r: AgentRecord) -> Seq<AgentRecord> {
    s.insert(choose|p: int| insertion_point(s, r.agent_id@, p), r)
}

/// `register` needs a running season, an id not yet taken and fewer than
/// `MAX_AGENTS` agents registered.
pub open spec fn register_transition(
    m: RegistryModel,
    contract: Address,
    id: AgentId,
    ledger: u32,
) -> Result<RegistryModel, Error> {
    if m.season_id == 0 {
        Err(Error::NotInitialized)
    } else if m.season_data.2 {
        Err(Error::SeasonAlreadyEnded)
    } else if has_agent(m.agents, id@) {
        Err(Error::AgentAlreadyRegistered)
    } else if m.agent_count >= MAX_AGENTS {
        Err(Error::MaxAgentsReached)
    } else {
        Ok(
            RegistryModel {
                agents: sorted_insert(
                    m.agents,
                    new_record(contract, id, m.season_id, m.season_data.0, ledger),
                ),
                agent_count: (m.agent_count + 1) as u32,
                ..m
            },
        )
    }
}

/// The arithmetic of `register` stays in range.
pub open spec fn register_in_range(m: RegistryModel, id: AgentId, ledger: u32) -> bool {
    (m.season_id != 0 && !m.season_data.2 && !has_agent(m.agents, id@)) ==> {
        &&& ledger + round_pulse_period(m.season_data.0) + round_grace(m.season_data.0)
            <= u32::MAX
        &&& m.agents.len() < u32::MAX
    }
}

/// `advance_round` moves a running season whose round deadline has come to
/// the next round; after round 5 it ends the season instead.
pub open spec fn advance_round_transition(m: RegistryModel, ledger: u32) -> Result<
    (RegistryModel, u32),
    Error,
> {
    let (round, deadline, ended) = m.season_data;
    if m.season_id == 0 {
        Err(Error::NotInitialized)
    } else if ended {
        Err(Error::SeasonAlreadyEnded)
    } else if ledger < deadline {
        Err(Error::RoundNotComplete)
    } else if round + 1 > 5 {
        Ok((RegistryModel { season_data: (round, deadline, true), ..m }, round))
    } else {
        let next = (round + 1) as u32;
        Ok(
            (
                RegistryModel {
                    season_data: (next, (ledger + round_duration(next)) as u32, false),
                    ..m
                },
                next,
            ),
        )
    }
}

/// The arithmetic of `advance_round` stays in range.
pub open spec fn advance_round_in_range(m: RegistryModel, ledger: u32) -> bool {
    let (round, deadline, ended) = m.season_data;
    (m.season_id != 0 && !ended && ledger >= deadline) ==> (round < u32::MAX && (round + 1 <= 5
        ==> ledger + round_duration((round + 1) as u32) <= u32::MAX))
}


/// The agent's record after a pulse of `amount` (`share` of it went to the
/// prize pool and as much to the protocol), or `None` when a number leaves
/// its range.
pub open spec fn pulsed_record(
    rec: AgentRecord,
    amount: i128,
    share: int,
    is_late: bool,
    ledger: u32,
    round: u32,
) -> Option<AgentRecord> {
    let spent = rec.total_spent + amount;
    let balance = rec.heart_balance - (share + share);
    let deadline = ledger + round_pulse_period(round);
    let grace = deadline + round_grace(round);
    if !fits_i128(spent) || !fits_i128(balance) || deadline > u32::MAX || grace > u32::MAX {
        None
    } else if is_late {
        if rec.wound_count == u32::MAX {
            None
        } else {
            Some(
                AgentRecord {
                    status: AgentStatus::Wounded,
                    wound_count: (rec.wound_count + 1) as u32,
                    streak_count: 0,
                    total_spent: spent as i128,
                    heart_balance: balance as i128,
                    last_pulse_ledger: ledger,
                    deadline_ledger: deadline as u32,
                    grace_deadline: grace as u32,
                    ..rec
                },
            )
        }
    } else if rec.streak_count == u32::MAX {
        None
    } else {
        let streak = (rec.streak_count + 1) as u32;
        let score = rec.activity_score + streak_bonus_spec(streak);
        if score > u64::MAX {
            None
        } else {
            Some(
                AgentRecord {
                    status: if rec.status == AgentStatus::Wounded && streak >= 2 {
                        AgentStatus::Alive
                    } else {
                        rec.status
                    },
                    streak_count: streak,
                    activity_score: score as u64,
                    total_spent: spent as i128,
                    heart_balance: balance as i128,
                    last_pulse_ledger: ledger,
                    deadline_ledger: deadline as u32,
                    grace_deadline: grace as u32,
                    ..rec
                },
            )
        }
    }
}

/// `update_agent_pulse`: the agent pays `amount`; 5% goes to the prize pool
/// and 5% to the protocol (both out of the heart balance), the whole amount
/// counts as spent, the deadlines restart from now in the current round. A
/// late pulse wounds and resets the streak; an on-time one extends the
/// streak and earns its bonus, and the second on-time pulse after a late
/// one (the streak reaching 2) heals the wound.
pub open spec fn pulse_transition(
    m: RegistryModel,
    id: Seq<u8>,
    amount: i128,
    is_late: bool,
    ledger: u32,
) -> Result<RegistryModel, Error> {
    match lookup(m.agents, id) {
        None => Err(Error::AgentNotFound),
        Some(rec) => if rec.status == AgentStatus::Dead {
            Err(Error::AgentDead)
        } else if rec.status == AgentStatus::Withdrawn {
            Err(Error::AgentWithdrawn)
        } else {
            match scaled_share(amount as int, 500, 10000) {
                None => Err(Error::Overflow),
                Some(share) => if !fits_i128(m.prize_pool + share) {
                    Err(Error::Overflow)
                } else {
                    match pulsed_record(rec, amount, share, is_late, ledger, m.season_data.0) {
                        None => Err(Error::Overflow),
                        Some(r) => Ok(
                            RegistryModel {
                                prize_pool: (m.prize_pool + share) as i128,
                                agents: m.agents.update(index_of(m.agents, id), r),
                                ..m
                            },
                        ),
                    }
                },
            }
        },
    }
}

/// `mark_agent_dead`: the agent's status becomes Dead.
pub open spec fn mark_dead_transition(m: RegistryModel, id: Seq<u8>) -> Result<
    RegistryModel,
    Error,
> {
    match lookup(m.agents, id) {
        None => Err(Error::AgentNotFound),
        Some(rec) => Ok(
            RegistryModel {
                agents: m.agents.update(
                    index_of(m.agents, id),
                    AgentRecord { status: AgentStatus::Dead, ..rec },
                ),
                ..m
            },
        ),
    }
}

/// `transfer_kill_reward`: a killer that is Alive or Wounded takes the whole
/// (nonzero) balance of a different agent that is Dead; the killer's balance
/// and earnings grow by it, its kill count by one, the victim's balance
/// becomes 0. Returns the reward.
pub open spec fn kill_transition(m: RegistryModel, dead: Seq<u8>, killer: Seq<u8>) -> Result<
    (RegistryModel, i128),
    Error,
> {
    if dead == killer {
        Err(Error::InvalidAgentContract)
    } else {
        match lookup(m.agents, dead) {
            None => Err(Error::AgentNotFound),
            Some(d) => if d.status != AgentStatus::Dead {
                Err(Error::AgentNotFound)
            } else if d.heart_balance == 0 {
                Err(Error::NoPrizeToClaim)
            } else {
                match lookup(m.agents, killer) {
                    None => Err(Error::AgentNotFound),
                    Some(k) => if k.status != AgentStatus::Alive && k.status
                        != AgentStatus::Wounded {
                        Err(Error::AgentDead)
                    } else if !fits_i128(k.heart_balance + d.heart_balance) || !fits_i128(
                        k.total_earned + d.heart_balance,
                    ) || k.kill_count == u32::MAX {
                        Err(Error::Overflow)
                    } else {
                        let k2 = AgentRecord {
                            heart_balance: (k.heart_balance + d.heart_balance) as i128,
                            total_earned: (k.total_earned + d.heart_balance) as i128,
                            kill_count: (k.kill_count + 1) as u32,
                            ..k
                        };
                        let d2 = AgentRecord { heart_balance: 0, ..d };
                        Ok(
                            (
                                RegistryModel {
                                    agents: m.agents.update(index_of(m.agents, killer), k2).update(
                                        index_of(m.agents, dead),
                                        d2,
                                    ),
                                    ..m
                                },
                                d.heart_balance,
                            ),
                        )
                    },
                }
            },
        }
    }
}

/// `process_withdrawal`: an agent that is Alive or Wounded, with a nonzero
/// balance, leaves: 80% of the balance is refunded, 20% goes to the prize
/// pool, the balance becomes 0 and the status Withdrawn. Returns the refund.
pub open spec fn withdrawal_transition(m: RegistryModel, id: Seq<u8>) -> Result<
    (RegistryModel, i128),
    Error,
> {
    match lookup(m.agents, id) {
        None => Err(Error::AgentNotFound),
        Some(rec) => if rec.status == AgentStatus::Dead {
            Err(Error::AgentDead)
        } else if rec.status == AgentStatus::Withdrawn {
            Err(Error::AgentWithdrawn)
        } else if rec.heart_balance == 0 {
            Err(Error::NoPrizeToClaim)
        } else {
            match (
                scaled_share(rec.heart_balance as int, 80, 100),
                scaled_share(rec.heart_balance as int, 20, 100),
            ) {
                (Some(refund), Some(contribution)) => if !fits_i128(
                    m.prize_pool + contribution,
                ) {
                    Err(Error::Overflow)
                } else {
                    Ok(
                        (
                            RegistryModel {
                                prize_pool: (m.prize_pool + contribution) as i128,
                                agents: m.agents.update(
                                    index_of(m.agents, id),
                                    AgentRecord {
                                        status: AgentStatus::Withdrawn,
                                        heart_balance: 0,
                                        ..rec
                                    },
                                ),
                                ..m
                            },
                            refund as i128,
                        ),
                    )
                },
                _ => Err(Error::Overflow),
            }
        },
    }
}

/// The agents that share the prize pool: those Alive or Wounded.
pub open spec fn is_survivor(status: AgentStatus) -> bool {
    status == AgentStatus::Alive || status == AgentStatus::Wounded
}

/// The activity scores of the survivors, added up.
pub open spec fn survivor_score_total(s: Seq<AgentRecord>) -> int
    decreases s.len(),
{
    if s.len() == 0 {
        0
    } else {
        survivor_score_total(s.drop_last()) + if is_survivor(s.last().status) {
            s.last().activity_score as int
        } else {
            0
        }
    }
}

/// A survivor's prize: its share of the pool in proportion to its activity
/// score among all survivors, rounded toward zero.
pub open spec fn prize_share(pool: int, score: int, total: int) -> int {
    crate::rounds::trunc_div(pool * score, total)
}

/// `claim_prize`: once the season has ended, a survivor (Alive or Wounded)
/// that has not claimed yet receives `pool * score / total score of the
/// survivors` into its balance and its earnings, and is marked as having
/// claimed. The pool itself is left as it is. A total score beyond `u64`,
/// or a product or sum beyond `i128`, is `Overflow`. Returns the share.
pub open spec fn claim_transition(m: RegistryModel, id: Seq<u8>) -> Result<
    (RegistryModel, i128),
    Error,
> {
    if !m.season_data.2 {
        Err(Error::SeasonNotEnded)
    } else {
        match lookup(m.agents, id) {
            None => Err(Error::AgentNotFound),
            Some(rec) => {
                let total = survivor_score_total(m.agents);
                let share = prize_share(m.prize_pool as int, rec.activity_score as int, total);
                if !is_survivor(rec.status) {
                    Err(Error::NotASurvivor)
                } else if rec.prize_claimed {
                    Err(Error::PrizeAlreadyClaimed)
                } else if total > u64::MAX {
                    Err(Error::Overflow)
                } else if total == 0 {
                    Err(Error::NoPrizeToClaim)
                } else if m.prize_pool == 0 {
                    Err(Error::PrizePoolEmpty)
                } else if !fits_i128(m.prize_pool * rec.activity_score) || !fits_i128(
                    rec.heart_balance + share,
                ) || !fits_i128(rec.total_earned + share) {
                    Err(Error::Overflow)
                } else {
                    Ok(
                        (
                            RegistryModel {
                                agents: m.agents.update(
                                    index_of(m.agents, id),
                                    AgentRecord {
                                        heart_balance: (rec.heart_balance + share) as i128,
                                        total_earned: (rec.total_earned + share) as i128,
                                        prize_claimed: true,
                                        ..rec
                                    },
                                ),
                                ..m
                            },
                            share as i128,
                        ),
                    )
                }
            },
        }
    }
}

/// Ledgers left before the deadline (0 once it has passed).
pub open spec fn ledgers_remaining(rec: AgentRecord, ledger: u32) -> u32 {
    if rec.deadline_ledger > ledger {
        (rec.deadline_ledger - ledger) as u32
    } else {
        0
    }
}

/// The summary of a record at ledger `ledger`, reporting `status`.
pub open spec fn summary_of(rec: AgentRecord, ledger: u32, status: AgentStatus) -> AgentSummary {
    AgentSummary {
        agent_id: rec.agent_id,
        status: status,
        deadline_ledger: rec.deadline_ledger,
        grace_deadline: rec.grace_deadline,
        ledgers_remaining: ledgers_remaining(rec, ledger),
        heart_balance: rec.heart_balance,
        activity_score: rec.activity_score,
        wound_count: rec.wound_count,
    }
}

/// Summaries of every record, in table order.
pub open spec fn all_summaries(s: Seq<AgentRecord>, ledger: u32) -> Seq<AgentSummary>
    decreases s.len(),
{
    if s.len() == 0 {
        Seq::empty()
    } else {
        all_summaries(s.drop_last(), ledger).push(summary_of(s.last(), ledger, s.last().status))
    }
}

/// Wounded, or Alive with less than `window` ledgers left.
pub open spec fn is_vulnerable(rec: AgentRecord, ledger: u32, window: int) -> bool {
    rec.status == AgentStatus::Wounded || (rec.status == AgentStatus::Alive && ledgers_remaining(
        rec,
        ledger,
    ) < window)
}

/// Summaries of the vulnerable records, in table order.
pub open spec fn vulnerable_summaries(s: Seq<AgentRecord>, ledger: u32, window: int) -> Seq<
    AgentSummary,
>
    decreases s.len(),
{
    if s.len() == 0 {
        Seq::empty()
    } else {
        let prev = vulnerable_summaries(s.drop_last(), ledger, window);
        if is_vulnerable(s.last(), ledger, window) {
            prev.push(summary_of(s.last(), ledger, s.last().status))
        } else {
            prev
        }
    }
}

/// What the vulnerable-agents query lists: the vulnerable records, with a
/// window of two pulse periods of the current round.
pub open spec fn vulnerable_agents_at(m: RegistryModel, ledger: u32) -> Seq<AgentSummary> {
    vulnerable_summaries(m.agents, ledger, 2 * round_pulse_period(m.season_data.0))
}

/// Dead, or Alive/Wounded past the grace deadline, and still holding a
/// positive balance: something to liquidate.
pub open spec fn is_liquidatable(rec: AgentRecord, ledger: u32) -> bool {
    &&& (rec.status == AgentStatus::Dead || ((rec.status == AgentStatus::Alive || rec.status
        == AgentStatus::Wounded) && ledger > rec.grace_deadline))
    &&& rec.heart_balance > 0
}

/// Summaries (reported as Dead) of the liquidatable records, in table order.
pub open spec fn dead_summaries(s: Seq<AgentRecord>, ledger: u32) -> Seq<AgentSummary>
    decreases s.len(),
{
    if s.len() == 0 {
        Seq::empty()
    } else {
        let prev = dead_summaries(s.drop_last(), ledger);
        if is_liquidatable(s.last(), ledger) {
            prev.push(summary_of(s.last(), ledger, AgentStatus::Dead))
        } else {
            prev
        }
    }
}

/// How many records are Alive or Wounded.
pub open spec fn alive_count(s: Seq<AgentRecord>) -> int
    decreases s.len(),
{
    if s.len() == 0 {
        0
    } else {
        alive_count(s.drop_last()) + if s.last().status == AgentStatus::Alive || s.last().status
            == AgentStatus::Wounded {
            1int
        } else {
            0
        }
    }
}

/// How many records are Dead.
pub open spec fn dead_count(s: Seq<AgentRecord>) -> int
    decreases s.len(),
{
    if s.len() == 0 {
        0
    } else {
        dead_count(s.drop_last()) + if s.last().status == AgentStatus::Dead {
            1int
        } else {
            0
        }
    }
}

/// `st` reports the season of `m`.
pub open spec fn reports_season(st: SeasonState, m: RegistryModel) -> bool {
    let round = m.season_data.0;
    &&& st.season_id == m.season_id
    &&& st.current_round == round
    &&& st.round_name@ == round_name(round)
    &&& st.round_deadline == m.season_data.1
    &&& st.pulse_cost == round_cost(round)
    &&& st.pulse_period == round_pulse_period(round)
    &&& st.grace_period == round_grace(round)
    &&& st.total_agents == m.agents.len()
    &&& st.alive_agents == alive_count(m.agents)
    &&& st.dead_agents == dead_count(m.agents)
    &&& st.prize_pool == m.prize_pool
    &&& st.season_ended == m.season_data.2
}

impl GameRegistry {
    /// A registry with nothing in storage.
    pub fn new() -> (r: Self)
        ensures
            r@ == empty_registry(),
    {
        GameRegistry {
            protocol_fee_address: None,
            prize_pool: 0,
            agent_count: 0,
            season_id: 0,
            season_data: (1, 0, false),
            agents: AgentTable::new(),
        }
    }

    /// Records the protocol fee address and zeroes the prize pool, the agent
    /// count and the season number. (The fee address authorises the call.)
    pub fn init(&mut self, protocol_fee_address: Address)
        ensures
            final(self)@ == init_transition(old(self)@, protocol_fee_address),
    {
        self.protocol_fee_address = Some(protocol_fee_address);
        self.prize_pool = 0;
        self.agent_count = 0;
        self.season_id = 0;
    }

    /// Opens a new season at ledger `current_ledger`; returns its number.
    pub fn init_season(&mut self, current_ledger: u32) -> (r: Result<u32, Error>)
        requires
            init_season_in_range(old(self)@, current_ledger),
        ensures
            match init_season_transition(old(self)@, current_ledger) {
                Ok((m, season)) => r == Ok::<u32, Error>(season) && final(self)@ == m,
                Err(e) => r == Err::<u32, Error>(e) && final(self)@ == old(self)@,
            },
    {
        let current_season = self.season_id;
        if current_season > 0 {
            if !self.season_data.2 {
                return Err(Error::AlreadyInitialized);
            }
        }
        let new_season = current_season + 1;
        self.season_id = new_season;
        self.prize_pool = 0;
        self.agents = AgentTable::new();
        self.agent_count = 0;
        let config = get_round_config(1);
        let round_deadline = current_ledger + config.duration;
        self.season_data = (1, round_deadline, false);
        Ok(new_season)
    }

    /// Registers an agent contract under `agent_id` at ledger
    /// `current_ledger`, with the entry bond as its balance and deadlines
    /// from the current round.
    pub fn register(&mut self, agent_contract: Address, agent_id: AgentId, current_ledger: u32) -> (r:
        Result<(), Error>)
        requires
            register_in_range(old(self)@, agent_id, current_ledger),
        ensures
            match register_transition(old(self)@, agent_contract, agent_id, current_ledger) {
                Ok(m) => r is Ok && final(self)@ == m,
                Err(e) => r == Err::<(), Error>(e) && final(self)@ == old(self)@,
            },
    {
        let season_id = self.season_id;
        if season_id == 0 {
            return Err(Error::NotInitialized);
        }
        if self.season_data.2 {
            return Err(Error::SeasonAlreadyEnded);
        }
        let p = match self.agents.find(&agent_id) {
            Ok(_) => {
                return Err(Error::AgentAlreadyRegistered);
            },
            Err(p) => p,
        };
        if self.agent_count >= MAX_AGENTS {
            return Err(Error::MaxAgentsReached);
        }
        let round = self.season_data.0;
        let config = get_round_config(round);
        let record = AgentRecord {
            agent_id: agent_id,
            owner: agent_contract,
            contract_address: agent_contract,
            season_id: season_id,
            status: AgentStatus::Alive,
            deadline_ledger: current_ledger + config.pulse_period,
            grace_deadline: current_ledger + config.pulse_period + config.grace_period,
            last_pulse_ledger: current_ledger,
            streak_count: 0,
            activity_score: 0,
            wound_count: 0,
            heart_balance: ENTRY_BOND,
            total_earned: 0,
            total_spent: 0,
            kill_count: 0,
            round_joined: round,
            prize_claimed: false,
        };
        proof {
            lemma_insertion_point_unique(self.agents@, agent_id@, p as int);
        }
        self.agents.insert_at(p, record);
        let count = self.agent_count;
        self.agent_count = count + 1;
        Ok(())
    }

    /// Moves to the next round once the round deadline has come; after
    /// round 5 the season ends. Returns the round the season is now in (the
    /// last one when it ended).
    pub fn advance_round(&mut self, current_ledger: u32) -> (r: Result<u32, Error>)
        requires
            advance_round_in_range(old(self)@, current_ledger),
        ensures
            match advance_round_transition(old(self)@, current_ledger) {
                Ok((m, round)) => r == Ok::<u32, Error>(round) && final(self)@ == m,
                Err(e) => r == Err::<u32, Error>(e) && final(self)@ == old(self)@,
            },
    {
        if self.season_id == 0 {
            return Err(Error::NotInitialized);
        }
        let (round, deadline, ended) = self.season_data;
        if ended {
            return Err(Error::SeasonAlreadyEnded);
        }
        if current_ledger < deadline {
            return Err(Error::RoundNotComplete);
        }
        let next_round = round + 1;
        if next_round > 5 {
            self.season_data = (round, deadline, true);
            return Ok(round);
        }
        let config = get_round_config(next_round);
        let round_deadline = current_ledger + config.duration;
        self.season_data = (next_round, round_deadline, false);
        Ok(next_round)
    }
    /// Records a pulse of `pulse_amount` by the agent at ledger
    /// `current_ledger`. (The agent's contract authorises the call.)
    pub fn update_agent_pulse(
        &mut self,
        agent_id: &AgentId,
        pulse_amount: i128,
        is_late: bool,
        current_ledger: u32,
    ) -> (r: Result<(), Error>)
        ensures
            match pulse_transition(old(self)@, agent_id@, pulse_amount, is_late, current_ledger) {
                Ok(m) => r is Ok && final(self)@ == m,
                Err(e) => r == Err::<(), Error>(e) && final(self)@ == old(self)@,
            },
    {
        let idx = match self.agents.find(agent_id) {
            Ok(i) => i,
            Err(_) => {
                return Err(Error::AgentNotFound);
            },
        };
        let rec = self.agents.get(idx);
        match rec.status {
            AgentStatus::Dead => {
                return Err(Error::AgentDead);
            },
            AgentStatus::Withdrawn => {
                return Err(Error::AgentWithdrawn);
            },
            _ => {},
        }
        let protocol_fee = match checked_scale(pulse_amount, PROTOCOL_FEE_BPS as i128, 10000) {
            Some(v) => v,
            None => {
                return Err(Error::Overflow);
            },
        };
        let prize_pool_contribution = match checked_scale(
            pulse_amount,
            PRIZE_POOL_BPS as i128,
            10000,
        ) {
            Some(v) => v,
            None => {
                return Err(Error::Overflow);
            },
        };
        assert(fits_i128(protocol_fee + prize_pool_contribution)) by (nonlinear_arith)
            requires
                protocol_fee as int == trunc_div(pulse_amount * 500, 10000),
                prize_pool_contribution as int == trunc_div(pulse_amount * 500, 10000),
                fits_i128(pulse_amount * 500),
        {
            let x = pulse_amount * 500;
            if x >= 0 {
                assert(x / 10000 <= x / 2);
            } else {
                assert((-x) / 10000 <= (-x) / 2);
            }
        }
        let total_deducted = match protocol_fee.checked_add(prize_pool_contribution) {
            Some(v) => v,
            None => {
                return Err(Error::Overflow);
            },
        };
        let new_prize_pool = match self.prize_pool.checked_add(prize_pool_contribution) {
            Some(v) => v,
            None => {
                return Err(Error::Overflow);
            },
        };
        let total_spent = match rec.total_spent.checked_add(pulse_amount) {
            Some(v) => v,
            None => {
                return Err(Error::Overflow);
            },
        };
        let heart_balance = match rec.heart_balance.checked_sub(total_deducted) {
            Some(v) => v,
            None => {
                return Err(Error::Overflow);
            },
        };
        let config = get_round_config(self.season_data.0);
        let deadline = match current_ledger.checked_add(config.pulse_period) {
            Some(v) => v,
            None => {
                return Err(Error::Overflow);
            },
        };
        let grace = match deadline.checked_add(config.grace_period) {
            Some(v) => v,
            None => {
                return Err(Error::Overflow);
            },
        };
        let mut agent = rec;
        agent.total_spent = total_spent;
        agent.heart_balance = heart_balance;
        agent.last_pulse_ledger = current_ledger;
        agent.deadline_ledger = deadline;
        agent.grace_deadline = grace;
        if is_late {
            agent.status = AgentStatus::Wounded;
            agent.wound_count = match agent.wound_count.checked_add(1) {
                Some(v) => v,
                None => {
                    return Err(Error::Overflow);
                },
            };
            agent.streak_count = 0;
        } else {
            agent.streak_count = match agent.streak_count.checked_add(1) {
                Some(v) => v,
                None => {
                    return Err(Error::Overflow);
                },
            };
            let bonus = streak_bonus(agent.streak_count);
            agent.activity_score = match agent.activity_score.checked_add(bonus) {
                Some(v) => v,
                None => {
                    return Err(Error::Overflow);
                },
            };
            if agent.status == AgentStatus::Wounded && agent.streak_count >= 2 {
                agent.status = AgentStatus::Alive;
            }
        }
        assert(pulsed_record(
            rec,
            pulse_amount,
            prize_pool_contribution as int,
            is_late,
            current_ledger,
            self.season_data.0,
        ) == Some(agent));
        self.prize_pool = new_prize_pool;
        self.agents.set_at(idx, agent);
        Ok(())
    }

    /// Marks the agent dead.
    pub fn mark_agent_dead(&mut self, agent_id: &AgentId) -> (r: Result<(), Error>)
        ensures
            match mark_dead_transition(old(self)@, agent_id@) {
                Ok(m) => r is Ok && final(self)@ == m,
                Err(e) => r == Err::<(), Error>(e) && final(self)@ == old(self)@,
            },
    {
        let idx = match self.agents.find(agent_id) {
            Ok(i) => i,
            Err(_) => {
                return Err(Error::AgentNotFound);
            },
        };
        let mut agent = self.agents.get(idx);
        agent.status = AgentStatus::Dead;
        self.agents.set_at(idx, agent);
        Ok(())
    }
    /// Moves the dead agent's whole balance to the killer.
    pub fn transfer_kill_reward(&mut self, dead_agent_id: &AgentId, killer_agent_id: &AgentId) -> (r:
        Result<i128, Error>)
        ensures
            match kill_transition(old(self)@, dead_agent_id@, killer_agent_id@) {
                Ok((m, reward)) => r == Ok::<i128, Error>(reward) && final(self)@ == m,
                Err(e) => r == Err::<i128, Error>(e) && final(self)@ == old(self)@,
            },
    {
        if same_id(dead_agent_id, killer_agent_id) {
            return Err(Error::InvalidAgentContract);
        }
        let dead_idx = match self.agents.find(dead_agent_id) {
            Ok(i) => i,
            Err(_) => {
                return Err(Error::AgentNotFound);
            },
        };
        let dead_agent = self.agents.get(dead_idx);
        if dead_agent.status != AgentStatus::Dead {
            return Err(Error::AgentNotFound);
        }
        if dead_agent.heart_balance == 0 {
            return Err(Error::NoPrizeToClaim);
        }
        let killer_idx = match self.agents.find(killer_agent_id) {
            Ok(i) => i,
            Err(_) => {
                return Err(Error::AgentNotFound);
            },
        };
        let killer = self.agents.get(killer_idx);
        match killer.status {
            AgentStatus::Alive | AgentStatus::Wounded => {},
            _ => {
                return Err(Error::AgentDead);
            },
        }
        let reward = dead_agent.heart_balance;
        let new_killer_balance = match killer.heart_balance.checked_add(reward) {
            Some(v) => v,
            None => {
                return Err(Error::Overflow);
            },
        };
        let new_total_earned = match killer.total_earned.checked_add(reward) {
            Some(v) => v,
            None => {
                return Err(Error::Overflow);
            },
        };
        let new_kill_count = match killer.kill_count.checked_add(1) {
            Some(v) => v,
            None => {
                return Err(Error::Overflow);
            },
        };
        let mut killer_mut = killer;
        killer_mut.heart_balance = new_killer_balance;
        killer_mut.total_earned = new_total_earned;
        killer_mut.kill_count = new_kill_count;
        let mut dead_mut = dead_agent;
        dead_mut.heart_balance = 0;
        self.agents.set_at(killer_idx, killer_mut);
        self.agents.set_at(dead_idx, dead_mut);
        Ok(reward)
    }

    /// Withdraws the agent: 80% of its balance is refunded, 20% goes to the
    /// prize pool. (The agent's owner authorises the call.)
    pub fn process_withdrawal(&mut self, agent_id: &AgentId) -> (r: Result<i128, Error>)
        ensures
            match withdrawal_transition(old(self)@, agent_id@) {
                Ok((m, refund)) => r == Ok::<i128, Error>(refund) && final(self)@ == m,
                Err(e) => r == Err::<i128, Error>(e) && final(self)@ == old(self)@,
            },
    {
        let idx = match self.agents.find(agent_id) {
            Ok(i) => i,
            Err(_) => {
                return Err(Error::AgentNotFound);
            },
        };
        let mut agent = self.agents.get(idx);
        match agent.status {
            AgentStatus::Dead => {
                return Err(Error::AgentDead);
            },
            AgentStatus::Withdrawn => {
                return Err(Error::AgentWithdrawn);
            },
            _ => {},
        }
        let balance = agent.heart_balance;
        if balance == 0 {
            return Err(Error::NoPrizeToClaim);
        }
        let agent_refund = match checked_scale(balance, 80, 100) {
            Some(v) => v,
            None => {
                return Err(Error::Overflow);
            },
        };
        let prize_contribution = match checked_scale(balance, 20, 100) {
            Some(v) => v,
            None => {
                return Err(Error::Overflow);
            },
        };
        let new_prize_pool = match self.prize_pool.checked_add(prize_contribution) {
            Some(v) => v,
            None => {
                return Err(Error::Overflow);
            },
        };
        self.prize_pool = new_prize_pool;
        agent.status = AgentStatus::Withdrawn;
        agent.heart_balance = 0;
        self.agents.set_at(idx, agent);
        Ok(agent_refund)
    }

    /// Pays a survivor its share of the prize pool once the season has
    /// ended, at most once per agent.
    pub fn claim_prize(&mut self, agent_id: &AgentId) -> (r: Result<i128, Error>)
        ensures
            match claim_transition(old(self)@, agent_id@) {
                Ok((m, share)) => r == Ok::<i128, Error>(share) && final(self)@ == m,
                Err(e) => r == Err::<i128, Error>(e) && final(self)@ == old(self)@,
            },
    {
        if !self.season_data.2 {
            return Err(Error::SeasonNotEnded);
        }
        let idx = match self.agents.find(agent_id) {
            Ok(i) => i,
            Err(_) => {
                return Err(Error::AgentNotFound);
            },
        };
        let agent = self.agents.get(idx);
        if agent.status != AgentStatus::Alive && agent.status != AgentStatus::Wounded {
            return Err(Error::NotASurvivor);
        }
        if agent.prize_claimed {
            return Err(Error::PrizeAlreadyClaimed);
        }
        let n = self.agents.len();
        let ghost s = self.agents@;
        let mut total_survivor_score: u64 = 0;
        let mut i: usize = 0;
        while i < n
            invariant
                0 <= i <= n,
                n == s.len(),
                s == self.agents@,
                *self == *old(self),
                self.season_data.2,
                lookup(s, agent_id@) == Some(agent),
                is_survivor(agent.status),
                !agent.prize_claimed,
                total_survivor_score as int == survivor_score_total(s.take(i as int)),
            decreases n - i,
        {
            let a = self.agents.get(i);
            proof {
                assert(s.take(i + 1).drop_last() =~= s.take(i as int));
                lemma_survivor_score_prefix(s, i + 1);
            }
            if a.status == AgentStatus::Alive || a.status == AgentStatus::Wounded {
                total_survivor_score = match total_survivor_score.checked_add(a.activity_score) {
                    Some(v) => v,
                    None => {
                        return Err(Error::Overflow);
                    },
                };
            }
            i = i + 1;
        }
        assert(s.take(n as int) =~= s);
        if total_survivor_score == 0 {
            return Err(Error::NoPrizeToClaim);
        }
        let prize_pool = self.prize_pool;
        if prize_pool == 0 {
            return Err(Error::PrizePoolEmpty);
        }
        let product = match prize_pool.checked_mul(agent.activity_score as i128) {
            Some(v) => v,
            None => {
                return Err(Error::Overflow);
            },
        };
        assert(fits_i128(trunc_div(product as int, total_survivor_score as int))) by (nonlinear_arith)
            requires
                total_survivor_score > 0,
                fits_i128(product as int),
        {
            let x = product as int;
            let d = total_survivor_score as int;
            if x >= 0 {
                assert(x / d <= x);
            } else {
                assert((-x) / d <= -x);
            }
        }
        let share = match product.checked_div(total_survivor_score as i128) {
            Some(v) => v,
            None => {
                return Err(Error::DivisionByZero);
            },
        };
        let new_balance = match agent.heart_balance.checked_add(share) {
            Some(v) => v,
            None => {
                return Err(Error::Overflow);
            },
        };
        let new_total_earned = match agent.total_earned.checked_add(share) {
            Some(v) => v,
            None => {
                return Err(Error::Overflow);
            },
        };
        let mut agent_mut = agent;
        agent_mut.heart_balance = new_balance;
        agent_mut.total_earned = new_total_earned;
        agent_mut.prize_claimed = true;
        self.agents.set_at(idx, agent_mut);
        Ok(share)
    }

    /// Summaries of all agents at ledger `current_ledger`, in id order.
    pub fn get_all_agents(&self, current_ledger: u32) -> (r: Vec<AgentSummary>)
        ensures
            r@ == all_summaries(self@.agents, current_ledger),
    {
        let n = self.agents.len();
        let ghost s = self.agents@;
        let mut result: Vec<AgentSummary> = Vec::new();
        let mut i: usize = 0;
        while i < n
            invariant
                0 <= i <= n,
                n == s.len(),
                s == self.agents@,
                result@ == all_summaries(s.take(i as int), current_ledger),
            decreases n - i,
        {
            let agent = self.agents.get(i);
            let ledgers_remaining = if agent.deadline_ledger > current_ledger {
                agent.deadline_ledger - current_ledger
            } else {
                0
            };
            result.push(summary(&agent, agent.status, ledgers_remaining));
            proof {
                assert(s.take(i + 1).drop_last() =~= s.take(i as int));
            }
            i = i + 1;
        }
        assert(s.take(n as int) =~= s);
        result
    }

    /// Summaries of the agents that are Wounded, or Alive with less than two
    /// pulse periods of the current round left, in id order.
    pub fn get_vulnerable_agents(&self, current_ledger: u32) -> (r: Vec<AgentSummary>)
        ensures
            r@ == vulnerable_agents_at(self@, current_ledger),
    {
        let config = get_round_config(self.season_data.0);
        let window = config.pulse_period * 2;
        let n = self.agents.len();
        let ghost s = self.agents@;
        let mut result: Vec<AgentSummary> = Vec::new();
        let mut i: usize = 0;
        while i < n
            invariant
                0 <= i <= n,
                n == s.len(),
                s == self.agents@,
                window == 2 * round_pulse_period(self@.season_data.0),
                result@ == vulnerable_summaries(s.take(i as int), current_ledger, window as int),
            decreases n - i,
        {
            let agent = self.agents.get(i);
            let is_vulnerable = match agent.status {
                AgentStatus::Wounded => true,
                AgentStatus::Alive => {
                    let ledgers_remaining = if agent.deadline_ledger > current_ledger {
                        agent.deadline_ledger - current_ledger
                    } else {
                        0
                    };
                    ledgers_remaining < window
                },
                _ => false,
            };
            if is_vulnerable {
                let ledgers_remaining = if agent.deadline_ledger > current_ledger {
                    agent.deadline_ledger - current_ledger
                } else {
                    0
                };
                result.push(summary(&agent, agent.status, ledgers_remaining));
            }
            proof {
                assert(s.take(i + 1).drop_last() =~= s.take(i as int));
            }
            i = i + 1;
        }
        assert(s.take(n as int) =~= s);
        result
    }

    /// Summaries, reported as Dead, of the agents that are Dead or past
    /// their grace deadline and still hold a positive balance, in id order.
    pub fn get_dead_agents(&self, current_ledger: u32) -> (r: Vec<AgentSummary>)
        ensures
            r@ == dead_summaries(self@.agents, current_ledger),
    {
        let n = self.agents.len();
        let ghost s = self.agents@;
        let mut result: Vec<AgentSummary> = Vec::new();
        let mut i: usize = 0;
        while i < n
            invariant
                0 <= i <= n,
                n == s.len(),
                s == self.agents@,
                result@ == dead_summaries(s.take(i as int), current_ledger),
            decreases n - i,
        {
            let agent = self.agents.get(i);
            let is_dead = match agent.status {
                AgentStatus::Dead => true,
                AgentStatus::Alive | AgentStatus::Wounded => current_ledger > agent.grace_deadline,
                _ => false,
            };
            if is_dead && agent.heart_balance > 0 {
                let ledgers_remaining = if agent.deadline_ledger > current_ledger {
                    agent.deadline_ledger - current_ledger
                } else {
                    0
                };
                result.push(summary(&agent, AgentStatus::Dead, ledgers_remaining));
            }
            proof {
                assert(s.take(i + 1).drop_last() =~= s.take(i as int));
            }
            i = i + 1;
        }
        assert(s.take(n as int) =~= s);
        result
    }

    /// The record of an agent.
    pub fn get_agent_detail(&self, id: &AgentId) -> (r: Result<AgentRecord, Error>)
        ensures
            r == match lookup(self@.agents, id@) {
                Some(rec) => Ok::<AgentRecord, Error>(rec),
                None => Err(Error::AgentNotFound),
            },
    {
        match self.agents.find(id) {
            Ok(i) => Ok(self.agents.get(i)),
            Err(_) => Err(Error::AgentNotFound),
        }
    }

    /// The current season: number, round and its configuration, agent
    /// counts (Wounded agents count as alive), prize pool, whether it ended.
    pub fn get_season_state(&self) -> (r: Result<SeasonState, Error>)
        ensures
            self@.season_id == 0 ==> r == Err::<SeasonState, Error>(Error::NotInitialized),
            self@.season_id != 0 ==> (r matches Ok(st) && reports_season(st, self@)),
    {
        let season_id = self.season_id;
        if season_id == 0 {
            return Err(Error::NotInitialized);
        }
        let (round, round_deadline, ended) = self.season_data;
        let config = get_round_config(round);
        let n = self.agents.len();
        let ghost s = self.agents@;
        let mut alive: u32 = 0;
        let mut dead: u32 = 0;
        let mut i: usize = 0;
        while i < n
            invariant
                0 <= i <= n,
                n == s.len(),
                n <= u32::MAX,
                s == self.agents@,
                alive == alive_count(s.take(i as int)),
                dead == dead_count(s.take(i as int)),
                alive + dead <= i,
            decreases n - i,
        {
            let agent = self.agents.get(i);
            proof {
                assert(s.take(i + 1).drop_last() =~= s.take(i as int));
            }
            match agent.status {
                AgentStatus::Alive => {
                    alive = alive + 1;
                },
                AgentStatus::Dead => {
                    dead = dead + 1;
                },
                AgentStatus::Wounded => {
                    alive = alive + 1;
                },
                _ => {},
            }
            i = i + 1;
        }
        assert(s.take(n as int) =~= s);
        Ok(
            SeasonState {
                season_id,
                current_round: round,
                round_name: config.name,
                round_deadline,
                pulse_cost: config.pulse_cost,
                pulse_period: config.pulse_period,
                grace_period: config.grace_period,
                total_agents: n as u32,
                alive_agents: alive,
                dead_agents: dead,
                prize_pool: self.prize_pool,
                season_ended: ended,
            },
        )
    }

    /// The protocol fee address, once `init` has recorded it.
    pub fn get_protocol_fee_address(&self) -> (r: Result<Address, Error>)
        ensures
            r == match self@.protocol_fee_address {
                Some(a) => Ok::<Address, Error>(a),
                None => Err(Error::NotInitialized),
            },
    {
        match self.protocol_fee_address {
            Some(a) => Ok(a),
            None => Err(Error::NotInitialized),
        }
    }

    /// The prize pool.
    pub fn get_prize_pool(&self) -> (r: i128)
        ensures
            r == self@.prize_pool,
    {
        self.prize_pool
    }
}

/// The summary of `rec` reporting `status` and `ledgers_remaining`.
fn summary(rec: &AgentRecord, status: AgentStatus, ledgers_remaining: u32) -> (r: AgentSummary)
    ensures
        r == (AgentSummary {
            agent_id: rec.agent_id,
            status: status,
            deadline_ledger: rec.deadline_ledger,
            grace_deadline: rec.grace_deadline,
            ledgers_remaining: ledgers_remaining,
            heart_balance: rec.heart_balance,
            activity_score: rec.activity_score,
            wound_count: rec.wound_count,
        }),
{
    AgentSummary {
        agent_id: rec.agent_id,
        status: status,
        deadline_ledger: rec.deadline_ledger,
        grace_deadline: rec.grace_deadline,
        ledgers_remaining: ledgers_remaining,
        heart_balance: rec.heart_balance,
        activity_score: rec.activity_score,
        wound_count: rec.wound_count,
    }
}

/// A sorted table has one insertion point for an absent id.
pub proof fn lemma_insertion_point_unique(s: Seq<AgentRecord>, id: Seq<u8>, p: int)
    requires
        insertion_point(s, id, p),
    ensures
        (choose|q: int| insertion_point(s, id, q)) == p,
{
    let q = choose|q: int| insertion_point(s, id, q);
    assert(insertion_point(s, id, q));
    if q < p {
        assert(id_lt(s[q].agent_id@, id));
        assert(id_lt(id, s[q].agent_id@));
        crate::ids::lemma_id_lt_asymmetric(id, s[q].agent_id@);
    } else if p < q {
        assert(id_lt(s[p].agent_id@, id));
        assert(id_lt(id, s[p].agent_id@));
        crate::ids::lemma_id_lt_asymmetric(id, s[p].agent_id@);
    }
}

} // verus!

verus! {

/// The survivors' total of a prefix never exceeds that of the whole table.
pub proof fn lemma_survivor_score_prefix(s: Seq<AgentRecord>, i: int)
    requires
        0 <= i <= s.len(),
    ensures
        0 <= survivor_score_total(s.take(i)) <= survivor_score_total(s),
    decreases s.len() - i,
{
    if i < s.len() {
        lemma_survivor_score_prefix(s, i + 1);
        assert(s.take(i + 1).drop_last() =~= s.take(i));
        lemma_survivor_score_nonneg(s.take(i));
    } else {
        assert(s.take(i) =~= s);
        lemma_survivor_score_nonneg(s);
    }
}

/// Scores added up are never negative.
pub proof fn lemma_survivor_score_nonneg(s: Seq<AgentRecord>)
    ensures
        survivor_score_total(s) >= 0,
    decreases s.len(),
{
    if s.len() > 0 {
        lemma_survivor_score_nonneg(s.drop_last());
    }
}

} // verus!
