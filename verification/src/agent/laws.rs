//! Properties of the agent contract that span operations.
use vstd::prelude::*;

use crate::agent::contract::{
    active_storage, claim_step, constructed, liquidate_step, pulse_cost, pulse_step,
    withdraw_step, AgentContract, PulseOutcome,
};
use crate::agent::types::{
    round_params, AgentState, AgentStatus, Error, LiquidationEvent, PrizeClaimedEvent,
};
use crate::ids::{Address, AgentId};
use crate::registry::types::{round_cost, round_duration, round_grace, round_pulse_period};
use crate::rounds::{streak_bonus_spec, ENTRY_BOND, ROUND_1_GRACE, ROUND_1_PULSE_PERIOD};

verus! {

/// The agent's books balance: what it holds plus what it has spent, less
/// what it has earned, is the entry bond.
pub open spec fn books_balance(s: AgentState) -> bool {
    s.heart_balance + s.total_spent - s.total_earned == ENTRY_BOND
}

/// The books balance from the constructor on, and every successful pulse,
/// liquidation and prize claim keeps them balanced: money only enters as
/// earnings and only leaves as spending. A withdrawal pays the whole balance
/// out: the agent is left Withdrawn with 0, its spending and earnings as
/// they were.
pub proof fn law_books_balance(
    c: AgentContract,
    owner: Address,
    registry: Address,
    season_id: u32,
    id: AgentId,
    ledger: u32,
    target: AgentId,
    reward: i128,
    refund: i128,
    prize: i128,
)
    ensures
        books_balance(constructed(c, owner, registry, season_id, id, ledger).storage->0.state),
        (c.storage is Some && books_balance(c.storage->0.state)) ==> {
            &&& pulse_step(c, ledger) matches Ok((c2, _)) ==> books_balance(c2.storage->0.state)
            &&& liquidate_step(c, target, reward, ledger) matches Ok((c2, _)) ==> books_balance(
                c2.storage->0.state,
            )
            &&& withdraw_step(c, refund, ledger) matches Ok((c2, _)) ==> ({
                let s2 = c2.storage->0.state;
                &&& s2.status == AgentStatus::Withdrawn
                &&& s2.heart_balance == 0
                &&& s2.total_spent == c.storage->0.state.total_spent
                &&& s2.total_earned == c.storage->0.state.total_earned
            })
            &&& claim_step(c, prize, ledger) matches Ok((c2, _)) ==> books_balance(
                c2.storage->0.state,
            )
        },
{
}

/// A Dead or Withdrawn agent is finished: pulses, liquidations and
/// withdrawals are refused (`AgentDead` or `AgentWithdrawn`), prize claims
/// too (`NoPrizeToClaim`).
pub proof fn law_finished_agent_is_inert(
    c: AgentContract,
    ledger: u32,
    target: AgentId,
    reward: i128,
    refund: i128,
    prize: i128,
)
    requires
        c.storage is Some,
        c.storage->0.state.status == AgentStatus::Dead || c.storage->0.state.status
            == AgentStatus::Withdrawn,
    ensures
        ({
            let e = if c.storage->0.state.status == AgentStatus::Dead {
                Error::AgentDead
            } else {
                Error::AgentWithdrawn
            };
            &&& pulse_step(c, ledger) == Err::<(AgentContract, PulseOutcome), Error>(e)
            &&& liquidate_step(c, target, reward, ledger) is Err
            &&& liquidate_step(c, target, reward, ledger)->Err_0 == e
            &&& withdraw_step(c, refund, ledger) is Err
            &&& withdraw_step(c, refund, ledger)->Err_0 == e
            &&& claim_step(c, prize, ledger) is Err
            &&& claim_step(c, prize, ledger)->Err_0 == Error::NoPrizeToClaim
        }),
{
}

/// A pulse past the grace deadline kills the agent; any other successful
/// pulse costs the round's price (double when past the deadline), taken
/// from the balance and added to the spending, and restarts the deadline at
/// now plus the pulse period, and the grace deadline a grace period after
/// that. An on-time pulse extends the streak by one and adds the new
/// streak's bonus to the activity score; a late one resets the streak,
/// adds a wound, and leaves the score as it was.
pub proof fn law_pulse_timing(c: AgentContract, ledger: u32)
    requires
        active_storage(c) is Ok,
    ensures
        ({
            let s = c.storage->0.state;
            let round = match c.round {
                Some(r) => r,
                None => 1,
            };
            &&& ledger > s.grace_deadline ==> (pulse_step(c, ledger) matches Ok((c2, outcome))
                && outcome == PulseOutcome::Expired(s.agent_id) && c2.storage->0.state.status
                == AgentStatus::Dead)
            &&& (ledger <= s.grace_deadline && s.heart_balance < pulse_cost(
                round,
                ledger > s.deadline_ledger,
            )) ==> pulse_step(c, ledger) == Err::<(AgentContract, PulseOutcome), Error>(
                Error::InsufficientBalance,
            )
            &&& (ledger <= s.grace_deadline && pulse_step(c, ledger) is Ok) ==> s.heart_balance
                >= pulse_cost(round, ledger > s.deadline_ledger)
            &&& (ledger <= s.grace_deadline && pulse_step(c, ledger) is Ok) ==> ({
                let (c2, outcome) = pulse_step(c, ledger)->Ok_0;
                let s2 = c2.storage->0.state;
                &&& outcome matches PulseOutcome::Pulsed(receipt)
                &&& outcome->Pulsed_0.is_late == (ledger > s.deadline_ledger)
                &&& outcome->Pulsed_0.cost == pulse_cost(round, ledger > s.deadline_ledger)
                &&& pulse_cost(round, true) == 2 * pulse_cost(round, false)
                &&& s2.deadline_ledger == ledger + round_params(round).0
                &&& s2.grace_deadline == s2.deadline_ledger + round_params(round).1
                &&& s2.last_pulse_ledger == ledger
                &&& s2.activity_score == s.activity_score + if ledger > s.deadline_ledger {
                    0
                } else {
                    streak_bonus_spec((s.streak_count + 1) as u32) as int
                }
                &&& s2.streak_count == if ledger > s.deadline_ledger {
                    0
                } else {
                    s.streak_count + 1
                }
                &&& s2.wound_count == s.wound_count + if ledger > s.deadline_ledger {
                    1int
                } else {
                    0
                }
                &&& s2.heart_balance == s.heart_balance - outcome->Pulsed_0.cost
                &&& s2.total_spent == s.total_spent + outcome->Pulsed_0.cost
                &&& outcome->Pulsed_0.event.new_balance == s2.heart_balance
                &&& s2.total_earned == s.total_earned && s2.kill_count == s.kill_count
                &&& s2.agent_id == s.agent_id && s2.owner == s.owner && s2.season_id
                    == s.season_id
            })
        }),
{
}

/// A late pulse wounds the agent and starts its count of on-time pulses
/// over; a Wounded agent heals on its second on-time pulse in a row, not
/// on its first.
pub proof fn law_wound_heals_after_two_on_time_pulses(
    c: AgentContract,
    ledger1: u32,
    ledger2: u32,
)
    requires
        c.storage is Some,
        c.storage->0.state.status == AgentStatus::Wounded,
        c.storage->0.consecutive_pulses == 0,
        c.storage->0.state.deadline_ledger <= c.storage->0.state.grace_deadline,
        ledger1 <= c.storage->0.state.deadline_ledger,
        pulse_step(c, ledger1) is Ok,
    ensures
        ({
            let c1 = pulse_step(c, ledger1)->Ok_0.0;
            &&& c1.storage->0.state.status == AgentStatus::Wounded
            &&& c1.storage->0.consecutive_pulses == 1
            &&& (ledger2 <= c1.storage->0.state.deadline_ledger && pulse_step(c1, ledger2) is Ok)
                ==> pulse_step(c1, ledger2)->Ok_0.0.storage->0.state.status
                == AgentStatus::Alive
        }),
{
}

/// After a late pulse the agent is Wounded, its streak and its count of
/// on-time pulses start over, and it carries one more wound.
pub proof fn law_late_pulse_wounds(c: AgentContract, ledger: u32)
    requires
        c.storage is Some,
        ledger > c.storage->0.state.deadline_ledger,
        ledger <= c.storage->0.state.grace_deadline,
        pulse_step(c, ledger) is Ok,
    ensures
        ({
            let st2 = pulse_step(c, ledger)->Ok_0.0.storage->0;
            &&& st2.state.status == AgentStatus::Wounded
            &&& st2.state.streak_count == 0
            &&& st2.consecutive_pulses == 0
            &&& st2.state.wound_count == c.storage->0.state.wound_count + 1
        }),
{
}

/// The constructor's state: Alive with the entry bond, deadlines from round
/// 1 (one round-1 pulse period from now, then one round-1 grace period),
/// every counter 0; the owner, season, id and registry as given; the stored
/// round as it was.
pub proof fn law_constructor_fresh_state(
    c: AgentContract,
    owner: Address,
    registry: Address,
    season_id: u32,
    id: AgentId,
    ledger: u32,
)
    requires
        ledger + ROUND_1_PULSE_PERIOD + ROUND_1_GRACE <= u32::MAX,
    ensures
        ({
            let c2 = constructed(c, owner, registry, season_id, id, ledger);
            let st = c2.storage->0;
            let s = st.state;
            &&& c2.storage is Some && c2.round == c.round
            &&& st.registry == registry && st.consecutive_pulses == 0
            &&& s.agent_id == id && s.owner == owner && s.season_id == season_id
            &&& s.status == AgentStatus::Alive && s.heart_balance == ENTRY_BOND
            &&& s.deadline_ledger == ledger + ROUND_1_PULSE_PERIOD
            &&& s.grace_deadline == ledger + ROUND_1_PULSE_PERIOD + ROUND_1_GRACE
            &&& s.last_pulse_ledger == ledger
            &&& s.streak_count == 0 && s.activity_score == 0 && s.wound_count == 0
            &&& s.total_earned == 0 && s.total_spent == 0 && s.kill_count == 0
        }),
{
}

/// A liquidation by an active agent succeeds exactly when the registry's
/// reward is positive (and the sums stay in range); it adds the reward to
/// the balance and the earnings and one to the kills, keeps the status,
/// and reports the target, the reward and the new balance. A prize claim by
/// a survivor adds a positive prize to the balance and the earnings and
/// changes nothing else; a prize of 0 or less is `NoPrizeToClaim`.
pub proof fn law_liquidation_and_prize_effects(
    c: AgentContract,
    target: AgentId,
    reward: i128,
    prize: i128,
    ledger: u32,
)
    requires
        c.storage is Some,
    ensures
        ({
            let s = c.storage->0.state;
            &&& (active_storage(c) is Ok && reward <= 0) ==> liquidate_step(c, target, reward, ledger)
                == Err::<(AgentContract, LiquidationEvent), Error>(Error::TargetNotDead)
            &&& liquidate_step(c, target, reward, ledger) matches Ok((c2, ev)) ==> {
                let s2 = c2.storage->0.state;
                &&& reward > 0
                &&& s2.heart_balance == s.heart_balance + reward
                &&& s2.total_earned == s.total_earned + reward
                &&& s2.kill_count == s.kill_count + 1
                &&& s2.status == s.status && s2.total_spent == s.total_spent
                &&& s2.activity_score == s.activity_score
                &&& s2.deadline_ledger == s.deadline_ledger
                &&& ev.target_agent_id == target && ev.reward == reward && ev.new_balance
                    == s2.heart_balance && ev.ledger == ledger
            }
            &&& (s.status == AgentStatus::Alive || s.status == AgentStatus::Wounded) && prize <= 0
                ==> claim_step(c, prize, ledger) == Err::<(AgentContract, PrizeClaimedEvent), Error>(
                Error::NoPrizeToClaim,
            )
            &&& claim_step(c, prize, ledger) matches Ok((c2, ev)) ==> {
                let s2 = c2.storage->0.state;
                &&& prize > 0
                &&& s2 == AgentState {
                    heart_balance: (s.heart_balance + prize) as i128,
                    total_earned: (s.total_earned + prize) as i128,
                    ..s
                }
                &&& s2.heart_balance == s.heart_balance + prize
                &&& s2.total_earned == s.total_earned + prize
                &&& ev.prize_amount == prize && ev.new_balance == s2.heart_balance && ev.ledger
                    == ledger
            }
        }),
{
}

/// In rounds 1 to 5 both contracts price and time pulses by the same
/// table; in it the grace period is shorter than the pulse period, which is
/// shorter than the round; from one round to the next the cost rises while
/// the round, the pulse period and the grace period shrink.
pub proof fn law_round_table(round: u32)
    requires
        1 <= round <= 5,
    ensures
        round_params(round) == (round_pulse_period(round), round_grace(round), round_cost(round)),
        0 < round_grace(round) < round_pulse_period(round) < round_duration(round),
        round_cost(round) > 0,
        round < 5 ==> {
            &&& round_cost(round) < round_cost((round + 1) as u32)
            &&& round_duration((round + 1) as u32) < round_duration(round)
            &&& round_pulse_period((round + 1) as u32) < round_pulse_period(round)
            &&& round_grace((round + 1) as u32) < round_grace(round)
        },
{
}

} // verus!
