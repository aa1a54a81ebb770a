//! The agent contract's storage and the decisions it takes. Calls to the
//! registry are made by the caller of these functions: an operation that
//! needs the registry's answer takes it as an argument, and one that must
//! tell the registry something says so in its result. An operation that
//! fails leaves the storage as it was.
use vstd::prelude::*;

use crate::agent::types::{
    get_round_config, round_params, AgentState, AgentStatus, Error, LiquidationEvent,
    PrizeClaimedEvent, PulseEvent, ScanEvent, WithdrawalEvent,
};
use crate::ids::{Address, AgentId};
use crate::registry::types::AgentSummary;
use crate::rounds::{
    checked_scale, fits_i128, streak_bonus, streak_bonus_spec, trunc_div, ENTRY_BOND,
    ROUND_1_GRACE, ROUND_1_PULSE_PERIOD,
};

verus! {

/// What the contract keeps once initialized.
#[derive(Clone, Copy, Debug, PartialEq, Eq)]
pub struct AgentStorage {
    pub state: AgentState,
    /// The registry contract this agent reports to.
    pub registry: Address,
    /// On-time pulses in a row since the last late pulse or healing.
    pub consecutive_pulses: u32,
}

/// The agent contract's storage: nothing before the constructor runs.
/// `round` is the stored round number that pulses price themselves by
/// (round 1 when absent).
#[derive(Clone, Copy, Debug, PartialEq, Eq)]
pub struct AgentContract {
    pub storage: Option<AgentStorage>,
    pub round: Option<u32>,
}

/// What a successful pulse asks the caller to do: tell the registry
/// (`update_agent_pulse(agent_id, cost, is_late)`), look up the protocol
/// fee address when `protocol_fee` is positive, and publish `event`.
#[derive(Clone, Copy, Debug, PartialEq, Eq)]
pub struct PulseReceipt {
    pub agent_id: AgentId,
    pub cost: i128,
    pub is_late: bool,
    pub protocol_fee: i128,
    pub event: PulseEvent,
}

/// The result of a pulse: paid, or too late (past the grace deadline): the
/// agent is now Dead, the caller must tell the registry
/// (`mark_agent_dead(agent_id)`) and fail the call with `AgentDead`.
#[derive(Clone, Copy, Debug, PartialEq, Eq)]
pub enum PulseOutcome {
    Pulsed(PulseReceipt),
    Expired(AgentId),
}

/// The agent id derived from the contract's own address in its XDR form:
/// its first 32 bytes, padded with zeros.
pub open spec fn id_from_xdr(bytes: Seq<u8>) -> Seq<u8> {
    Seq::new(
        32,
        |i: int|
            if i < bytes.len() {
                bytes[i]
            } else {
                0u8
            },
    )
}

/// The first 32 bytes of the contract address's XDR form, padded with
/// zeros: the agent id.
pub fn agent_id_from_xdr(bytes: &[u8]) -> (id: AgentId)
    ensures
        id@ == id_from_xdr(bytes@),
{
    let mut id: AgentId = [0u8; 32];
    let len = if bytes.len() < 32 {
        bytes.len()
    } else {
        32
    };
    let mut i: usize = 0;
    while i < len
        invariant
            0 <= i <= len,
            len <= 32,
            len == bytes@.len() || (len == 32 && bytes@.len() >= 32),
            id@.len() == 32,
            forall|j: int| 0 <= j < i ==> id@[j] == bytes@[j],
            forall|j: int| i <= j < 32 ==> id@[j] == 0u8,
        decreases len - i,
    {
        id[i] = bytes[i];
        i = i + 1;
    }
    assert(id@ =~= id_from_xdr(bytes@));
    id
}

/// The state of a freshly initialized agent.
pub open spec fn initial_state(owner: Address, season_id: u32, id: AgentId, ledger: u32) -> AgentState {
    AgentState {
        agent_id: id,
        owner: owner,
        season_id: season_id,
        status: AgentStatus::Alive,
        deadline_ledger: (ledger + ROUND_1_PULSE_PERIOD) as u32,
        grace_deadline: (ledger + ROUND_1_PULSE_PERIOD + ROUND_1_GRACE) as u32,
        last_pulse_ledger: ledger,
        streak_count: 0,
        activity_score: 0,
        heart_balance: ENTRY_BOND,
        total_earned: 0,
        total_spent: 0,
        kill_count: 0,
        wound_count: 0,
    }
}

/// `c` after `constructor`: the entry bond as balance, deadlines from round
/// 1, every counter 0.
pub open spec fn constructed(
    c: AgentContract,
    owner: Address,
    registry: Address,
    season_id: u32,
    id: AgentId,
    ledger: u32,
) -> AgentContract {
    AgentContract {
        storage: Some(
            AgentStorage {
                state: initial_state(owner, season_id, id, ledger),
                registry: registry,
                consecutive_pulses: 0,
            },
        ),
        ..c
    }
}

/// The state stored, unless the contract is uninitialized, Dead or
/// Withdrawn: the checks that open pulse, liquidate and withdraw.
pub open spec fn active_storage(c: AgentContract) -> Result<AgentStorage, Error> {
    match c.storage {
        None => Err(Error::NotInitialized),
        Some(st) => if st.state.status == AgentStatus::Dead {
            Err(Error::AgentDead)
        } else if st.state.status == AgentStatus::Withdrawn {
            Err(Error::AgentWithdrawn)
        } else {
            Ok(st)
        },
    }
}

/// The pulse cost: the round's base cost, doubled when late.
pub open spec fn pulse_cost(round: u32, is_late: bool) -> i128 {
    if is_late {
        (round_params(round).2 * 2) as i128
    } else {
        round_params(round).2
    }
}

/// The storage after a pulse that is not past the grace deadline, or
/// `None` when a counter or a ledger number leaves its range.
pub open spec fn pulsed_storage(st: AgentStorage, ledger: u32, round: u32) -> Option<
    AgentStorage,
> {
    let s = st.state;
    let (period, grace, _) = round_params(round);
    let is_late = ledger > s.deadline_ledger;
    let cost = pulse_cost(round, is_late);
    let spent = s.total_spent + cost;
    let deadline = ledger + period;
    let grace_deadline = deadline + grace;
    let base = AgentState {
        heart_balance: (s.heart_balance - cost) as i128,
        total_spent: spent as i128,
        deadline_ledger: deadline as u32,
        grace_deadline: grace_deadline as u32,
        last_pulse_ledger: ledger,
        ..s
    };
    if !fits_i128(spent) || deadline > u32::MAX || grace_deadline > u32::MAX {
        None
    } else if is_late {
        if s.wound_count == u32::MAX {
            None
        } else {
            Some(
                AgentStorage {
                    state: AgentState {
                        streak_count: 0,
                        status: AgentStatus::Wounded,
                        wound_count: (s.wound_count + 1) as u32,
                        ..base
                    },
                    consecutive_pulses: 0,
                    ..st
                },
            )
        }
    } else if s.streak_count == u32::MAX || st.consecutive_pulses == u32::MAX {
        None
    } else {
        let streak = (s.streak_count + 1) as u32;
        let consecutive = (st.consecutive_pulses + 1) as u32;
        let score = s.activity_score + streak_bonus_spec(streak);
        let heals = s.status == AgentStatus::Wounded && consecutive >= 2;
        if score > u64::MAX {
            None
        } else {
            Some(
                AgentStorage {
                    state: AgentState {
                        streak_count: streak,
                        activity_score: score as u64,
                        status: if heals {
                            AgentStatus::Alive
                        } else {
                            s.status
                        },
                        ..base
                    },
                    consecutive_pulses: if heals {
                        0
                    } else {
                        consecutive
                    },
                    ..st
                },
            )
        }
    }
}

/// `pulse` at ledger `ledger`. Past the grace deadline the agent becomes
/// Dead. Otherwise it pays the round's cost (twice it when past the
/// deadline) out of its balance into what it has spent, and its deadlines
/// restart from now. A late pulse wounds and resets the streak; an on-time
/// one extends the streak, earns the streak bonus, and two on-time pulses
/// in a row heal a wound.
pub open spec fn pulse_step(c: AgentContract, ledger: u32) -> Result<
    (AgentContract, PulseOutcome),
    Error,
> {
    match active_storage(c) {
        Err(e) => Err(e),
        Ok(st) => {
            let s = st.state;
            if ledger > s.grace_deadline {
                Ok(
                    (
                        AgentContract {
                            storage: Some(
                                AgentStorage {
                                    state: AgentState { status: AgentStatus::Dead, ..s },
                                    ..st
                                },
                            ),
                            ..c
                        },
                        PulseOutcome::Expired(s.agent_id),
                    ),
                )
            } else {
                let round = match c.round {
                    Some(r) => r,
                    None => 1,
                };
                let is_late = ledger > s.deadline_ledger;
                let cost = pulse_cost(round, is_late);
                if s.heart_balance < cost {
                    Err(Error::InsufficientBalance)
                } else {
                    match pulsed_storage(st, ledger, round) {
                        None => Err(Error::Overflow),
                        Some(st2) => Ok(
                            (
                                AgentContract { storage: Some(st2), ..c },
                                PulseOutcome::Pulsed(
                                    PulseReceipt {
                                        agent_id: s.agent_id,
                                        cost: cost,
                                        is_late: is_late,
                                        protocol_fee: trunc_div(cost * 5, 100) as i128,
                                        event: PulseEvent {
                                            ledger: ledger,
                                            cost: cost,
                                            is_late: is_late,
                                            new_balance: st2.state.heart_balance,
                                        },
                                    },
                                ),
                            ),
                        ),
                    }
                }
            }
        },
    }
}

/// `c` with the stored state replaced by `s`.
pub open spec fn with_state(c: AgentContract, s: AgentState) -> AgentContract {
    AgentContract { storage: Some(AgentStorage { state: s, ..c.storage->0 }), ..c }
}

/// `liquidate` once the registry answered with `reward`: a positive reward
/// is added to the balance and to the earnings, and counts one kill.
pub open spec fn liquidate_step(
    c: AgentContract,
    target: AgentId,
    reward: i128,
    ledger: u32,
) -> Result<(AgentContract, LiquidationEvent), Error> {
    match active_storage(c) {
        Err(e) => Err(e),
        Ok(st) => {
            let s = st.state;
            if reward <= 0 {
                Err(Error::TargetNotDead)
            } else if !fits_i128(s.heart_balance + reward) || !fits_i128(s.total_earned + reward)
                || s.kill_count == u32::MAX {
                Err(Error::Overflow)
            } else {
                let balance = (s.heart_balance + reward) as i128;
                Ok(
                    (
                        with_state(
                            c,
                            AgentState {
                                heart_balance: balance,
                                total_earned: (s.total_earned + reward) as i128,
                                kill_count: (s.kill_count + 1) as u32,
                                ..s
                            },
                        ),
                        LiquidationEvent {
                            target_agent_id: target,
                            reward: reward,
                            new_balance: balance,
                            ledger: ledger,
                        },
                    ),
                )
            }
        },
    }
}

/// `withdraw` once the registry answered with `refund`: the agent becomes
/// Withdrawn and its whole heart balance leaves it (80% refunded to the
/// owner, 20% to the prize pool, as the registry settles it).
pub open spec fn withdraw_step(c: AgentContract, refund: i128, ledger: u32) -> Result<
    (AgentContract, WithdrawalEvent),
    Error,
> {
    match active_storage(c) {
        Err(e) => Err(e),
        Ok(st) => if !fits_i128(st.state.heart_balance * 20) {
            Err(Error::Overflow)
        } else {
            Ok(
                (
                    with_state(
                        c,
                        AgentState { status: AgentStatus::Withdrawn, heart_balance: 0, ..st.state },
                    ),
                    WithdrawalEvent { refund: refund, ledger: ledger },
                ),
            )
        },
    }
}

/// The stored state, when the agent is Alive or Wounded: the checks that
/// open a prize claim.
pub open spec fn survivor_storage(c: AgentContract) -> Result<AgentStorage, Error> {
    match c.storage {
        None => Err(Error::NotInitialized),
        Some(st) => if st.state.status != AgentStatus::Alive && st.state.status
            != AgentStatus::Wounded {
            Err(Error::NoPrizeToClaim)
        } else {
            Ok(st)
        },
    }
}

/// `claim_prize` once the registry answered with `prize`: a positive prize
/// is added to the balance and to the earnings.
pub open spec fn claim_step(c: AgentContract, prize: i128, ledger: u32) -> Result<
    (AgentContract, PrizeClaimedEvent),
    Error,
> {
    match survivor_storage(c) {
        Err(e) => Err(e),
        Ok(st) => {
            let s = st.state;
            if prize <= 0 {
                Err(Error::NoPrizeToClaim)
            } else if !fits_i128(s.heart_balance + prize) || !fits_i128(s.total_earned + prize) {
                Err(Error::Overflow)
            } else {
                let balance = (s.heart_balance + prize) as i128;
                Ok(
                    (
                        with_state(
                            c,
                            AgentState {
                                heart_balance: balance,
                                total_earned: (s.total_earned + prize) as i128,
                                ..s
                            },
                        ),
                        PrizeClaimedEvent {
                            prize_amount: prize,
                            new_balance: balance,
                            ledger: ledger,
                        },
                    ),
                )
            }
        },
    }
}

impl AgentContract {
    /// A contract with nothing in storage.
    pub fn new() -> (c: Self)
        ensures
            c.storage is None,
            c.round is None,
    {
        AgentContract { storage: None, round: None }
    }

    /// Initializes the agent once: owner, registry, season, the agent id
    /// taken from the contract's address in XDR form, the entry bond as
    /// balance and round 1 deadlines from `current_ledger`.
    pub fn constructor(
        &mut self,
        owner: Address,
        game_registry: Address,
        season_id: u32,
        contract_address_xdr: &[u8],
        current_ledger: u32,
    ) -> (r: Result<(), Error>)
        requires
            old(self).storage is None ==> current_ledger + ROUND_1_PULSE_PERIOD + ROUND_1_GRACE
                <= u32::MAX,
        ensures
            old(self).storage is Some ==> r == Err::<(), Error>(Error::AlreadyInitialized)
                && *final(self) == *old(self),
            old(self).storage is None ==> r is Ok && final(self).storage is Some && *final(self)
                == constructed(
                *old(self),
                owner,
                game_registry,
                season_id,
                final(self).storage->0.state.agent_id,
                current_ledger,
            ) && final(self).storage->0.state.agent_id@ == id_from_xdr(contract_address_xdr@),
    {
        if self.storage.is_some() {
            return Err(Error::AlreadyInitialized);
        }
        let agent_id = agent_id_from_xdr(contract_address_xdr);
        let (pulse_period, grace_period, _) = get_round_config(1);
        let deadline = current_ledger + pulse_period;
        let grace_deadline = deadline + grace_period;
        let state = AgentState {
            agent_id,
            owner,
            season_id,
            status: AgentStatus::Alive,
            deadline_ledger: deadline,
            grace_deadline,
            last_pulse_ledger: current_ledger,
            streak_count: 0,
            activity_score: 0,
            heart_balance: ENTRY_BOND,
            total_earned: 0,
            total_spent: 0,
            kill_count: 0,
            wound_count: 0,
        };
        self.storage = Some(
            AgentStorage { state, registry: game_registry, consecutive_pulses: 0 },
        );
        Ok(())
    }

    /// The stored state, unless uninitialized (`NotInitialized`), Dead
    /// (`AgentDead`) or Withdrawn (`AgentWithdrawn`). Its agent id is what
    /// the registry is asked about before a liquidation or a withdrawal.
    pub fn ensure_active(&self) -> (r: Result<AgentId, Error>)
        ensures
            r == match active_storage(*self) {
                Ok(st) => Ok::<AgentId, Error>(st.state.agent_id),
                Err(e) => Err(e),
            },
    {
        match &self.storage {
            None => Err(Error::NotInitialized),
            Some(st) => match st.state.status {
                AgentStatus::Dead => Err(Error::AgentDead),
                AgentStatus::Withdrawn => Err(Error::AgentWithdrawn),
                _ => Ok(st.state.agent_id),
            },
        }
    }

    /// The agent id, when the agent is Alive or Wounded; what the registry
    /// is asked about before a prize claim.
    pub fn ensure_survivor(&self) -> (r: Result<AgentId, Error>)
        ensures
            r == match survivor_storage(*self) {
                Ok(st) => Ok::<AgentId, Error>(st.state.agent_id),
                Err(e) => Err(e),
            },
    {
        match &self.storage {
            None => Err(Error::NotInitialized),
            Some(st) => if st.state.status != AgentStatus::Alive && st.state.status
                != AgentStatus::Wounded {
                Err(Error::NoPrizeToClaim)
            } else {
                Ok(st.state.agent_id)
            },
        }
    }

    /// Pulses at ledger `current_ledger`. (The owner authorises the call.)
    pub fn pulse(&mut self, current_ledger: u32) -> (r: Result<PulseOutcome, Error>)
        ensures
            match pulse_step(*old(self), current_ledger) {
                Ok((c, outcome)) => r == Ok::<PulseOutcome, Error>(outcome) && *final(self) == c,
                Err(e) => r == Err::<PulseOutcome, Error>(e) && *final(self) == *old(self),
            },
    {
        let st = match &self.storage {
            None => {
                return Err(Error::NotInitialized);
            },
            Some(st) => *st,
        };
        let status = st.state.status;
        match status {
            AgentStatus::Dead => {
                return Err(Error::AgentDead);
            },
            AgentStatus::Withdrawn => {
                return Err(Error::AgentWithdrawn);
            },
            _ => {},
        }
        let deadline = st.state.deadline_ledger;
        let grace_deadline = st.state.grace_deadline;
        let is_late = current_ledger > deadline;
        let is_past_grace = current_ledger > grace_deadline;
        if is_past_grace {
            let mut dead = st;
            dead.state.status = AgentStatus::Dead;
            self.storage = Some(dead);
            return Ok(PulseOutcome::Expired(st.state.agent_id));
        }
        let round = match self.round {
            Some(r) => r,
            None => 1,
        };
        let (pulse_period, grace_period, base_cost) = get_round_config(round);
        let pulse_cost = if is_late {
            match base_cost.checked_mul(2) {
                Some(v) => v,
                None => {
                    return Err(Error::Overflow);
                },
            }
        } else {
            base_cost
        };
        let heart_balance = st.state.heart_balance;
        if heart_balance < pulse_cost {
            return Err(Error::InsufficientBalance);
        }
        let protocol_fee = match checked_scale(pulse_cost, 5, 100) {
            Some(v) => v,
            None => {
                return Err(Error::Overflow);
            },
        };
        let _prize_contribution = match checked_scale(pulse_cost, 5, 100) {
            Some(v) => v,
            None => {
                return Err(Error::Overflow);
            },
        };
        let _ttl_rent = match checked_scale(pulse_cost, 90, 100) {
            Some(v) => v,
            None => {
                return Err(Error::Overflow);
            },
        };
        let new_balance = match heart_balance.checked_sub(pulse_cost) {
            Some(v) => v,
            None => {
                return Err(Error::Overflow);
            },
        };
        let new_total_spent = match st.state.total_spent.checked_add(pulse_cost) {
            Some(v) => v,
            None => {
                return Err(Error::Overflow);
            },
        };
        let mut next = st;
        next.state.heart_balance = new_balance;
        next.state.total_spent = new_total_spent;
        if is_late {
            next.state.streak_count = 0;
            next.consecutive_pulses = 0;
            next.state.status = AgentStatus::Wounded;
            next.state.wound_count = match st.state.wound_count.checked_add(1) {
                Some(v) => v,
                None => {
                    return Err(Error::Overflow);
                },
            };
        } else {
            let new_streak = match st.state.streak_count.checked_add(1) {
                Some(v) => v,
                None => {
                    return Err(Error::Overflow);
                },
            };
            next.state.streak_count = new_streak;
            let new_consecutive = match st.consecutive_pulses.checked_add(1) {
                Some(v) => v,
                None => {
                    return Err(Error::Overflow);
                },
            };
            next.consecutive_pulses = new_consecutive;
            let bonus = streak_bonus(new_streak);
            next.state.activity_score = match st.state.activity_score.checked_add(bonus) {
                Some(v) => v,
                None => {
                    return Err(Error::Overflow);
                },
            };
            if status == AgentStatus::Wounded && new_consecutive >= 2 {
                next.state.status = AgentStatus::Alive;
                next.consecutive_pulses = 0;
            }
        }
        let new_deadline = match current_ledger.checked_add(pulse_period) {
            Some(v) => v,
            None => {
                return Err(Error::Overflow);
            },
        };
        let new_grace_deadline = match new_deadline.checked_add(grace_period) {
            Some(v) => v,
            None => {
                return Err(Error::Overflow);
            },
        };
        next.state.deadline_ledger = new_deadline;
        next.state.grace_deadline = new_grace_deadline;
        next.state.last_pulse_ledger = current_ledger;
        assert(pulsed_storage(st, current_ledger, round) == Some(next));
        self.storage = Some(next);
        Ok(
            PulseOutcome::Pulsed(
                PulseReceipt {
                    agent_id: st.state.agent_id,
                    cost: pulse_cost,
                    is_late,
                    protocol_fee,
                    event: PulseEvent {
                        ledger: current_ledger,
                        cost: pulse_cost,
                        is_late,
                        new_balance,
                    },
                },
            ),
        )
    }

    /// Takes in the reward the registry paid for liquidating
    /// `target_agent_id`. (The owner authorises the call.)
    pub fn liquidate(&mut self, target_agent_id: AgentId, reward: i128, current_ledger: u32) -> (r:
        Result<LiquidationEvent, Error>)
        ensures
            match liquidate_step(*old(self), target_agent_id, reward, current_ledger) {
                Ok((c, event)) => r == Ok::<LiquidationEvent, Error>(event) && *final(self) == c,
                Err(e) => r == Err::<LiquidationEvent, Error>(e) && *final(self) == *old(self),
            },
    {
        let st = match &self.storage {
            None => {
                return Err(Error::NotInitialized);
            },
            Some(st) => *st,
        };
        if st.state.status == AgentStatus::Dead {
            return Err(Error::AgentDead);
        }
        if st.state.status == AgentStatus::Withdrawn {
            return Err(Error::AgentWithdrawn);
        }
        if reward <= 0 {
            return Err(Error::TargetNotDead);
        }
        let new_balance = match st.state.heart_balance.checked_add(reward) {
            Some(v) => v,
            None => {
                return Err(Error::Overflow);
            },
        };
        let new_total_earned = match st.state.total_earned.checked_add(reward) {
            Some(v) => v,
            None => {
                return Err(Error::Overflow);
            },
        };
        let new_kill_count = match st.state.kill_count.checked_add(1) {
            Some(v) => v,
            None => {
                return Err(Error::Overflow);
            },
        };
        let mut next = st;
        next.state.heart_balance = new_balance;
        next.state.total_earned = new_total_earned;
        next.state.kill_count = new_kill_count;
        self.storage = Some(next);
        Ok(
            LiquidationEvent {
                target_agent_id,
                reward,
                new_balance,
                ledger: current_ledger,
            },
        )
    }

    /// Leaves the game once the registry processed the withdrawal and
    /// answered with `refund`. (The owner authorises the call.)
    pub fn withdraw(&mut self, refund: i128, current_ledger: u32) -> (r: Result<
        WithdrawalEvent,
        Error,
    >)
        ensures
            match withdraw_step(*old(self), refund, current_ledger) {
                Ok((c, event)) => r == Ok::<WithdrawalEvent, Error>(event) && *final(self) == c,
                Err(e) => r == Err::<WithdrawalEvent, Error>(e) && *final(self) == *old(self),
            },
    {
        let st = match &self.storage {
            None => {
                return Err(Error::NotInitialized);
            },
            Some(st) => *st,
        };
        if st.state.status == AgentStatus::Dead {
            return Err(Error::AgentDead);
        }
        if st.state.status == AgentStatus::Withdrawn {
            return Err(Error::AgentWithdrawn);
        }
        let _prize_contribution = match checked_scale(st.state.heart_balance, 20, 100) {
            Some(v) => v,
            None => {
                return Err(Error::Overflow);
            },
        };
        let mut next = st;
        next.state.status = AgentStatus::Withdrawn;
        next.state.heart_balance = 0;
        self.storage = Some(next);
        Ok(WithdrawalEvent { refund, ledger: current_ledger })
    }

    /// Takes in the prize the registry paid. (The owner authorises the
    /// call.)
    pub fn claim_prize(&mut self, prize: i128, current_ledger: u32) -> (r: Result<
        PrizeClaimedEvent,
        Error,
    >)
        ensures
            match claim_step(*old(self), prize, current_ledger) {
                Ok((c, event)) => r == Ok::<PrizeClaimedEvent, Error>(event) && *final(self) == c,
                Err(e) => r == Err::<PrizeClaimedEvent, Error>(e) && *final(self) == *old(self),
            },
    {
        let st = match &self.storage {
            None => {
                return Err(Error::NotInitialized);
            },
            Some(st) => *st,
        };
        if st.state.status != AgentStatus::Alive && st.state.status != AgentStatus::Wounded {
            return Err(Error::NoPrizeToClaim);
        }
        if prize <= 0 {
            return Err(Error::NoPrizeToClaim);
        }
        let new_balance = match st.state.heart_balance.checked_add(prize) {
            Some(v) => v,
            None => {
                return Err(Error::Overflow);
            },
        };
        let new_total_earned = match st.state.total_earned.checked_add(prize) {
            Some(v) => v,
            None => {
                return Err(Error::Overflow);
            },
        };
        let mut next = st;
        next.state.heart_balance = new_balance;
        next.state.total_earned = new_total_earned;
        self.storage = Some(next);
        Ok(PrizeClaimedEvent { prize_amount: prize, new_balance, ledger: current_ledger })
    }

    /// Combines the registry's dead agents (first) and vulnerable agents
    /// into the list of targets, with the event that reports the counts.
    pub fn scan(
        &self,
        dead_agents: &Vec<AgentSummary>,
        vulnerable_agents: &Vec<AgentSummary>,
        current_ledger: u32,
    ) -> (r: Result<(Vec<AgentSummary>, ScanEvent), Error>)
        requires
            dead_agents@.len() + vulnerable_agents@.len() <= u32::MAX,
        ensures
            self.storage is None ==> r == Err::<(Vec<AgentSummary>, ScanEvent), Error>(
                Error::NotInitialized,
            ),
            self.storage is Some ==> (r matches Ok((targets, event)) && targets@ == dead_agents@
                + vulnerable_agents@ && event == (ScanEvent {
                agent_id: self.storage->0.state.agent_id,
                dead_count: dead_agents@.len() as u32,
                vulnerable_count: vulnerable_agents@.len() as u32,
                total_targets: (dead_agents@.len() + vulnerable_agents@.len()) as u32,
                ledger: current_ledger,
            })),
    {
        let agent_id = match &self.storage {
            None => {
                return Err(Error::NotInitialized);
            },
            Some(st) => st.state.agent_id,
        };
        let mut targets: Vec<AgentSummary> = Vec::new();
        let mut i: usize = 0;
        while i < dead_agents.len()
            invariant
                0 <= i <= dead_agents@.len(),
                targets@ == dead_agents@.take(i as int),
            decreases dead_agents@.len() - i,
        {
            targets.push(dead_agents[i]);
            assert(dead_agents@.take(i + 1) =~= dead_agents@.take(i as int).push(dead_agents@[i as int]));
            i = i + 1;
        }
        assert(dead_agents@.take(dead_agents@.len() as int) =~= dead_agents@);
        let mut j: usize = 0;
        while j < vulnerable_agents.len()
            invariant
                0 <= j <= vulnerable_agents@.len(),
                targets@ == dead_agents@ + vulnerable_agents@.take(j as int),
            decreases vulnerable_agents@.len() - j,
        {
            targets.push(vulnerable_agents[j]);
            assert(vulnerable_agents@.take(j + 1) =~= vulnerable_agents@.take(j as int).push(
                vulnerable_agents@[j as int],
            ));
            assert(dead_agents@ + vulnerable_agents@.take(j + 1) =~= (dead_agents@
                + vulnerable_agents@.take(j as int)).push(vulnerable_agents@[j as int]));
            j = j + 1;
        }
        assert(vulnerable_agents@.take(vulnerable_agents@.len() as int) =~= vulnerable_agents@);
        let event = ScanEvent {
            agent_id,
            dead_count: dead_agents.len() as u32,
            vulnerable_count: vulnerable_agents.len() as u32,
            total_targets: targets.len() as u32,
            ledger: current_ledger,
        };
        Ok((targets, event))
    }

    /// The agent's full state, once initialized.
    pub fn get_status(&self) -> (r: Result<AgentState, Error>)
        ensures
            r == match self.storage {
                Some(st) => Ok::<AgentState, Error>(st.state),
                None => Err(Error::NotInitialized),
            },
    {
        match &self.storage {
            Some(st) => Ok(st.state),
            None => Err(Error::NotInitialized),
        }
    }

    /// The heart balance (0 before initialization).
    pub fn get_heart_balance(&self) -> (r: i128)
        ensures
            r == match self.storage {
                Some(st) => st.state.heart_balance,
                None => 0,
            },
    {
        match &self.storage {
            Some(st) => st.state.heart_balance,
            None => 0,
        }
    }

    /// Whether the constructor has run.
    pub fn is_initialized(&self) -> (r: bool)
        ensures
            r == self.storage is Some,
    {
        self.storage.is_some()
    }

    /// (current ledger, deadline, grace deadline); both deadlines read as
    /// the current ledger before initialization.
    pub fn get_deadlines(&self, current_ledger: u32) -> (r: (u32, u32, u32))
        ensures
            r == match self.storage {
                Some(st) => (current_ledger, st.state.deadline_ledger, st.state.grace_deadline),
                None => (current_ledger, current_ledger, current_ledger),
            },
    {
        match &self.storage {
            Some(st) => (current_ledger, st.state.deadline_ledger, st.state.grace_deadline),
            None => (current_ledger, current_ledger, current_ledger),
        }
    }
}

} // verus!
