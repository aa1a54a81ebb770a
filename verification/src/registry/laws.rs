//! Properties of the registry that span operations.
use vstd::prelude::*;

use crate::ids::{id_lt, lemma_id_lt_total, lemma_id_lt_transitive, Address, AgentId};
use crate::registry::game::{
    advance_round_transition, survivor_score_total, claim_transition, is_survivor,
    init_season_in_range, init_season_transition, init_transition,
    kill_transition, lemma_insertion_point_unique, mark_dead_transition, new_record, prize_share,
    pulse_transition, register_transition, withdrawal_transition, dead_summaries, all_summaries,
    alive_count, dead_count, vulnerable_agents_at,
    vulnerable_summaries, RegistryModel,
};
use crate::registry::table::{
    has_agent, ids_sorted, index_of, insertion_point, lemma_index_of_unique, lemma_insert_at_point,
    lemma_update_same_id, lookup, table_wf,
};
use crate::registry::types::{
    round_duration, round_grace, round_pulse_period, AgentRecord, AgentStatus, AgentSummary, Error, MAX_AGENTS,
};
use crate::rounds::{
    fits_i128, scaled_share, streak_bonus_spec, trunc_div, ENTRY_BOND, ROUND_1_DURATION,
};

verus! {

/// A registered agent is found under its id with a fresh record (Alive,
/// the entry bond, deadlines from now, every counter 0); no other agent's
/// record changes; registering the same id again is refused.
pub proof fn law_register_then_lookup(
    m: RegistryModel,
    contract: Address,
    id: AgentId,
    ledger: u32,
    other: Seq<u8>,
)
    requires
        table_wf(m.agents),
        m.agents.len() < u32::MAX,
        register_transition(m, contract, id, ledger) is Ok,
    ensures
        ({
            let m2 = register_transition(m, contract, id, ledger)->Ok_0;
            let r = lookup(m2.agents, id@)->0;
            let round = m.season_data.0;
            &&& table_wf(m2.agents)
            &&& lookup(m2.agents, id@) == Some(
                new_record(contract, id, m.season_id, m.season_data.0, ledger),
            )
            &&& r.agent_id == id && r.owner == contract && r.contract_address == contract
            &&& r.season_id == m.season_id && r.round_joined == round
            &&& r.status == AgentStatus::Alive && r.heart_balance == ENTRY_BOND
            &&& ledger + round_pulse_period(round) + round_grace(round) <= u32::MAX ==> {
                &&& r.deadline_ledger == ledger + round_pulse_period(round)
                &&& r.grace_deadline == ledger + round_pulse_period(round) + round_grace(round)
            }
            &&& r.last_pulse_ledger == ledger
            &&& r.streak_count == 0 && r.activity_score == 0 && r.wound_count == 0
            &&& r.total_earned == 0 && r.total_spent == 0 && r.kill_count == 0
            &&& !r.prize_claimed
            &&& m2.agent_count == m.agent_count + 1
            &&& m2.agents.len() == m.agents.len() + 1
            &&& m2.prize_pool == m.prize_pool && m2.season_data == m.season_data
            &&& other != id@ ==> lookup(m2.agents, other) == lookup(m.agents, other)
            &&& register_transition(m2, contract, id, ledger) == Err::<RegistryModel, Error>(
                Error::AgentAlreadyRegistered,
            )
        }),
{
    let r = new_record(contract, id, m.season_id, m.season_data.0, ledger);
    let p = choose|p: int| insertion_point(m.agents, id@, p);
    lemma_insertion_point_exists(m.agents, id);
    lemma_insert_at_point(m.agents, p, r);
    let m2 = register_transition(m, contract, id, ledger)->Ok_0;
    assert(lookup(m2.agents, other) == if other == id@ {
        Some(r)
    } else {
        lookup(m.agents, other)
    });
    assert(lookup(m2.agents, id@) == Some(r));
}

/// Registration succeeds exactly when a season is running, the id is not
/// taken yet, and fewer than `MAX_AGENTS` agents are registered.
pub proof fn law_register_succeeds(m: RegistryModel, contract: Address, id: AgentId, ledger: u32)
    ensures
        register_transition(m, contract, id, ledger) is Ok <==> (m.season_id != 0
            && !m.season_data.2 && !has_agent(m.agents, id@) && m.agent_count < MAX_AGENTS),
{
}

/// A liquidation moves the victim's whole balance to the killer: the
/// reward is that balance, the killer gains it (in balance and earnings)
/// with one more kill, the victim is left Dead with 0, the two balances add
/// up as before, no other agent and not the pool changes, and a second
/// liquidation of the same victim, by anyone, is refused.
pub proof fn law_liquidation_moves_balance(
    m: RegistryModel,
    dead: Seq<u8>,
    killer: Seq<u8>,
    killer2: Seq<u8>,
    other: Seq<u8>,
)
    requires
        table_wf(m.agents),
        kill_transition(m, dead, killer) is Ok,
    ensures
        ({
            let (m2, reward) = kill_transition(m, dead, killer)->Ok_0;
            let d = lookup(m.agents, dead)->0;
            let k = lookup(m.agents, killer)->0;
            &&& table_wf(m2.agents)
            &&& reward == d.heart_balance
            &&& lookup(m2.agents, dead) == Some(AgentRecord { heart_balance: 0, ..d })
            &&& lookup(m2.agents, killer) == Some(
                AgentRecord {
                    heart_balance: (k.heart_balance + reward) as i128,
                    total_earned: (k.total_earned + reward) as i128,
                    kill_count: (k.kill_count + 1) as u32,
                    ..k
                },
            )
            &&& lookup(m2.agents, killer)->0.heart_balance + lookup(m2.agents, dead)->0.heart_balance
                == k.heart_balance + d.heart_balance
            &&& (other != dead && other != killer) ==> lookup(m2.agents, other) == lookup(
                m.agents,
                other,
            )
            &&& m2.prize_pool == m.prize_pool
            &&& killer2 != dead ==> kill_transition(m2, dead, killer2) == Err::<
                (RegistryModel, i128),
                Error,
            >(Error::NoPrizeToClaim)
        }),
{
    let d = lookup(m.agents, dead)->0;
    let k = lookup(m.agents, killer)->0;
    let id_ = index_of(m.agents, dead);
    let ik = index_of(m.agents, killer);
    let k2 = AgentRecord {
        heart_balance: (k.heart_balance + d.heart_balance) as i128,
        total_earned: (k.total_earned + d.heart_balance) as i128,
        kill_count: (k.kill_count + 1) as u32,
        ..k
    };
    let d2 = AgentRecord { heart_balance: 0, ..d };
    lemma_update_same_id(m.agents, ik, k2);
    let t1 = m.agents.update(ik, k2);
    assert(id_ != ik);
    assert(t1[id_] == m.agents[id_]);
    lemma_update_same_id(t1, id_, d2);
    let t2 = t1.update(id_, d2);
    assert(lookup(t2, dead) == Some(d2));
    assert(lookup(t2, killer) == lookup(t1, killer));
    if other != dead {
        assert(lookup(t2, other) == lookup(t1, other));
    }
    if killer2 != dead {
        assert(lookup(t2, killer2) == lookup(t1, killer2));
    }
}

/// A withdrawal refunds 80% and adds 20% of the balance to the pool
/// (together the balance, or one stroop short of it when it is not a
/// multiple of 5 — see `law_withdrawal_split`); the agent is left Withdrawn
/// with 0; nobody else changes; the agent can neither withdraw nor pulse
/// again.
pub proof fn law_withdrawal_settles(
    m: RegistryModel,
    id: Seq<u8>,
    other: Seq<u8>,
    amount: i128,
    is_late: bool,
    ledger: u32,
)
    requires
        table_wf(m.agents),
        withdrawal_transition(m, id) is Ok,
    ensures
        ({
            let (m2, refund) = withdrawal_transition(m, id)->Ok_0;
            let rec = lookup(m.agents, id)->0;
            let b = rec.heart_balance as int;
            &&& table_wf(m2.agents)
            &&& refund == trunc_div(b * 80, 100)
            &&& m2.prize_pool == m.prize_pool + trunc_div(b * 20, 100)
            &&& lookup(m2.agents, id) == Some(
                AgentRecord { status: AgentStatus::Withdrawn, heart_balance: 0, ..rec },
            )
            &&& other != id ==> lookup(m2.agents, other) == lookup(m.agents, other)
            &&& withdrawal_transition(m2, id) == Err::<(RegistryModel, i128), Error>(
                Error::AgentWithdrawn,
            )
            &&& pulse_transition(m2, id, amount, is_late, ledger) == Err::<RegistryModel, Error>(
                Error::AgentWithdrawn,
            )
        }),
{
    let rec = lookup(m.agents, id)->0;
    let i = index_of(m.agents, id);
    let r2 = AgentRecord { status: AgentStatus::Withdrawn, heart_balance: 0, ..rec };
    lemma_update_same_id(m.agents, i, r2);
    assert(lookup(m.agents.update(i, r2), other) == lookup(m.agents, other) || other == id);
}

/// A pulse adds 5% of the amount to the pool, charges the agent's balance
/// 10% and its spending the whole amount, restarts its deadlines from now
/// with the current round's pulse period and grace period (whatever round
/// the agent joined in), adds the streak bonus of the new streak to its
/// activity score when on time and leaves the score as it was when late,
/// leaves it Wounded when late, and
/// when on time leaves it Alive unless it is Wounded and its streak is
/// still short of 2; it changes no other agent.
pub proof fn law_pulse_effects(
    m: RegistryModel,
    id: Seq<u8>,
    amount: i128,
    is_late: bool,
    ledger: u32,
    other: Seq<u8>,
)
    requires
        table_wf(m.agents),
        pulse_transition(m, id, amount, is_late, ledger) is Ok,
    ensures
        ({
            let m2 = pulse_transition(m, id, amount, is_late, ledger)->Ok_0;
            let rec = lookup(m.agents, id)->0;
            let rec2 = lookup(m2.agents, id)->0;
            let share = trunc_div(amount * 500, 10000);
            &&& table_wf(m2.agents)
            &&& lookup(m2.agents, id) is Some
            &&& m2.prize_pool == m.prize_pool + share
            &&& rec2.heart_balance == rec.heart_balance - 2 * share
            &&& rec2.total_spent == rec.total_spent + amount
            &&& rec2.deadline_ledger == ledger + round_pulse_period(m.season_data.0)
            &&& rec2.grace_deadline == ledger + round_pulse_period(m.season_data.0) + round_grace(
                m.season_data.0,
            )
            &&& rec2.last_pulse_ledger == ledger
            &&& rec2.activity_score == rec.activity_score + if is_late {
                0
            } else {
                streak_bonus_spec((rec.streak_count + 1) as u32) as int
            }
            &&& rec2.agent_id == rec.agent_id && rec2.owner == rec.owner && rec2.contract_address
                == rec.contract_address && rec2.season_id == rec.season_id
            &&& rec2.total_earned == rec.total_earned && rec2.kill_count == rec.kill_count
            &&& rec2.round_joined == rec.round_joined && rec2.prize_claimed == rec.prize_claimed
            &&& !is_late ==> rec2.wound_count == rec.wound_count
            &&& rec2.status == if is_late || (rec.status == AgentStatus::Wounded
                && rec.streak_count + 1 < 2) {
                AgentStatus::Wounded
            } else {
                AgentStatus::Alive
            }
            &&& is_late ==> rec2.streak_count == 0 && rec2.wound_count == rec.wound_count + 1
            &&& !is_late ==> rec2.streak_count == rec.streak_count + 1
            &&& other != id ==> lookup(m2.agents, other) == lookup(m.agents, other)
            &&& m2.season_data == m.season_data && m2.season_id == m.season_id
        }),
{
    let rec = lookup(m.agents, id)->0;
    let i = index_of(m.agents, id);
    let share = scaled_share(amount as int, 500, 10000)->0;
    let r2 = crate::registry::game::pulsed_record(
        rec,
        amount,
        share,
        is_late,
        ledger,
        m.season_data.0,
    )->0;
    lemma_update_same_id(m.agents, i, r2);
}

/// Marking an agent dead changes its status to Dead and nothing else of its
/// record (its balance stays, for a killer to take); it then refuses pulses
/// and withdrawals with `AgentDead`; no other agent changes.
pub proof fn law_dead_agent_refuses(
    m: RegistryModel,
    id: Seq<u8>,
    amount: i128,
    is_late: bool,
    ledger: u32,
    other: Seq<u8>,
)
    requires
        table_wf(m.agents),
        mark_dead_transition(m, id) is Ok,
    ensures
        ({
            let m2 = mark_dead_transition(m, id)->Ok_0;
            &&& table_wf(m2.agents)
            &&& lookup(m2.agents, id) == Some(
                AgentRecord { status: AgentStatus::Dead, ..lookup(m.agents, id)->0 },
            )
            &&& m2.prize_pool == m.prize_pool && m2.season_data == m.season_data
            &&& pulse_transition(m2, id, amount, is_late, ledger) == Err::<RegistryModel, Error>(
                Error::AgentDead,
            )
            &&& withdrawal_transition(m2, id) == Err::<(RegistryModel, i128), Error>(
                Error::AgentDead,
            )
            &&& other != id ==> lookup(m2.agents, other) == lookup(m.agents, other)
        }),
{
    let rec = lookup(m.agents, id)->0;
    let i = index_of(m.agents, id);
    lemma_update_same_id(m.agents, i, AgentRecord { status: AgentStatus::Dead, ..rec });
}

/// `x` reports record `r` at ledger `ledger` with status `status`: same id,
/// deadlines, balance, score and wounds, and the ledgers left before the
/// deadline (0 once it has passed).
pub open spec fn reports(x: AgentSummary, r: AgentRecord, ledger: u32, status: AgentStatus) -> bool {
    &&& x.agent_id == r.agent_id
    &&& x.status == status
    &&& x.deadline_ledger == r.deadline_ledger
    &&& x.grace_deadline == r.grace_deadline
    &&& x.heart_balance == r.heart_balance
    &&& x.activity_score == r.activity_score
    &&& x.wound_count == r.wound_count
    &&& x.ledgers_remaining == if r.deadline_ledger > ledger {
        r.deadline_ledger - ledger
    } else {
        0
    }
}

/// Something to liquidate at `ledger`: a positive balance, and Dead, or
/// Alive or Wounded past the grace deadline.
pub open spec fn liquidatable_at(r: AgentRecord, ledger: u32) -> bool {
    &&& r.heart_balance > 0
    &&& (r.status == AgentStatus::Dead || ((r.status == AgentStatus::Alive || r.status
        == AgentStatus::Wounded) && r.grace_deadline < ledger))
}

/// Worth watching at `ledger` in round `round`: Wounded, or Alive with
/// fewer than two of the round's pulse periods left before the deadline (0
/// left once the deadline has passed).
pub open spec fn vulnerable_at(r: AgentRecord, ledger: u32, round: u32) -> bool {
    ||| r.status == AgentStatus::Wounded
    ||| r.status == AgentStatus::Alive && (if r.deadline_ledger > ledger {
        r.deadline_ledger - ledger
    } else {
        0
    }) < 2 * round_pulse_period(round)
}

/// `x` reports, as Dead, some liquidatable record of `s`.
pub open spec fn reports_liquidatable(s: Seq<AgentRecord>, ledger: u32, x: AgentSummary) -> bool {
    exists|i: int|
        0 <= i < s.len() && liquidatable_at(s[i], ledger) && #[trigger] reports(
            x,
            s[i],
            ledger,
            AgentStatus::Dead,
        )
}

/// `x` reports, with its own status, some vulnerable record of `s`.
pub open spec fn reports_vulnerable(
    s: Seq<AgentRecord>,
    ledger: u32,
    round: u32,
    x: AgentSummary,
) -> bool {
    exists|i: int|
        0 <= i < s.len() && vulnerable_at(s[i], ledger, round) && #[trigger] reports(
            x,
            s[i],
            ledger,
            s[i].status,
        )
}

/// The dead-agents list holds, reported as Dead, exactly the records that
/// are liquidatable: every such record is listed, and every entry reports
/// one.
pub proof fn law_dead_agents_listed(s: Seq<AgentRecord>, ledger: u32)
    ensures
        forall|i: int|
            0 <= i < s.len() && #[trigger] liquidatable_at(s[i], ledger) ==> exists|j: int|
                0 <= j < dead_summaries(s, ledger).len() && #[trigger] reports(
                    dead_summaries(s, ledger)[j],
                    s[i],
                    ledger,
                    AgentStatus::Dead,
                ),
        forall|j: int|
            0 <= j < dead_summaries(s, ledger).len() ==> reports_liquidatable(
                s,
                ledger,
                #[trigger] dead_summaries(s, ledger)[j],
            ),
{
    assert forall|i: int| 0 <= i < s.len() && #[trigger] liquidatable_at(s[i], ledger) implies exists|j: int|
        0 <= j < dead_summaries(s, ledger).len() && #[trigger] reports(
            dead_summaries(s, ledger)[j],
            s[i],
            ledger,
            AgentStatus::Dead,
        ) by {
        let j = lemma_dead_listed(s, ledger, i);
    }
    assert forall|j: int| 0 <= j < dead_summaries(s, ledger).len() implies reports_liquidatable(
        s,
        ledger,
        #[trigger] dead_summaries(s, ledger)[j],
    ) by {
        let i = lemma_dead_entry_source(s, ledger, j);
    }
}

/// Where a liquidatable record stands in the dead-agents list.
proof fn lemma_dead_listed(s: Seq<AgentRecord>, ledger: u32, i: int) -> (j: int)
    requires
        0 <= i < s.len(),
        liquidatable_at(s[i], ledger),
    ensures
        0 <= j < dead_summaries(s, ledger).len(),
        reports(dead_summaries(s, ledger)[j], s[i], ledger, AgentStatus::Dead),
    decreases s.len(),
{
    let p = s.drop_last();
    let op = dead_summaries(p, ledger);
    let last = s.last();
    let x = crate::registry::game::summary_of(last, ledger, AgentStatus::Dead);
    assert(crate::registry::game::is_liquidatable(last, ledger) == liquidatable_at(last, ledger));
    assert(dead_summaries(s, ledger) == if liquidatable_at(last, ledger) { op.push(x) } else { op });
    if i < s.len() - 1 {
        assert(s[i] == p[i]);
        let j = lemma_dead_listed(p, ledger, i);
        j
    } else {
        op.len() as int
    }
}

/// The record an entry of the dead-agents list reports.
proof fn lemma_dead_entry_source(s: Seq<AgentRecord>, ledger: u32, j: int) -> (i: int)
    requires
        0 <= j < dead_summaries(s, ledger).len(),
    ensures
        0 <= i < s.len(),
        liquidatable_at(s[i], ledger),
        reports(dead_summaries(s, ledger)[j], s[i], ledger, AgentStatus::Dead),
    decreases s.len(),
{
    let p = s.drop_last();
    let op = dead_summaries(p, ledger);
    let last = s.last();
    let x = crate::registry::game::summary_of(last, ledger, AgentStatus::Dead);
    assert(crate::registry::game::is_liquidatable(last, ledger) == liquidatable_at(last, ledger));
    assert(dead_summaries(s, ledger) == if liquidatable_at(last, ledger) { op.push(x) } else { op });
    if j < op.len() {
        let i = lemma_dead_entry_source(p, ledger, j);
        assert(s[i] == p[i]);
        i
    } else {
        s.len() - 1
    }
}

/// The vulnerable-agents list holds, with their own status, exactly the
/// records vulnerable in the season's current round: every such record is
/// listed, and every entry reports one.
pub proof fn law_vulnerable_agents_listed(m: RegistryModel, ledger: u32)
    ensures
        forall|i: int|
            0 <= i < m.agents.len() && #[trigger] vulnerable_at(m.agents[i], ledger, m.season_data.0)
                ==> exists|j: int|
                0 <= j < vulnerable_agents_at(m, ledger).len() && #[trigger] reports(
                    vulnerable_agents_at(m, ledger)[j],
                    m.agents[i],
                    ledger,
                    m.agents[i].status,
                ),
        forall|j: int|
            0 <= j < vulnerable_agents_at(m, ledger).len() ==> reports_vulnerable(
                m.agents,
                ledger,
                m.season_data.0,
                #[trigger] vulnerable_agents_at(m, ledger)[j],
            ),
{
    let s = m.agents;
    let round = m.season_data.0;
    assert forall|i: int| 0 <= i < s.len() && #[trigger] vulnerable_at(s[i], ledger, round) implies exists|j: int|
        0 <= j < vulnerable_agents_at(m, ledger).len() && #[trigger] reports(
            vulnerable_agents_at(m, ledger)[j],
            s[i],
            ledger,
            s[i].status,
        ) by {
        let j = lemma_vulnerable_listed(s, ledger, round, i);
        assert(reports(vulnerable_agents_at(m, ledger)[j], s[i], ledger, s[i].status));
    }
    assert forall|j: int| 0 <= j < vulnerable_agents_at(m, ledger).len() implies reports_vulnerable(
        s,
        ledger,
        round,
        #[trigger] vulnerable_agents_at(m, ledger)[j],
    ) by {
        let i = lemma_vulnerable_entry_source(s, ledger, round, j);
        assert(reports(vulnerable_agents_at(m, ledger)[j], s[i], ledger, s[i].status));
    }
}

/// Where a vulnerable record stands in the vulnerable-agents list.
proof fn lemma_vulnerable_listed(s: Seq<AgentRecord>, ledger: u32, round: u32, i: int) -> (j: int)
    requires
        0 <= i < s.len(),
        vulnerable_at(s[i], ledger, round),
    ensures
        0 <= j < vulnerable_summaries(s, ledger, 2 * round_pulse_period(round)).len(),
        reports(vulnerable_summaries(s, ledger, 2 * round_pulse_period(round))[j], s[i], ledger, s[i].status),
    decreases s.len(),
{
    let w = 2 * round_pulse_period(round);
    let p = s.drop_last();
    let op = vulnerable_summaries(p, ledger, w);
    let last = s.last();
    let x = crate::registry::game::summary_of(last, ledger, last.status);
    assert(crate::registry::game::is_vulnerable(last, ledger, w) == vulnerable_at(last, ledger, round));
    assert(vulnerable_summaries(s, ledger, w) == if vulnerable_at(last, ledger, round) { op.push(x) } else { op });
    if i < s.len() - 1 {
        assert(s[i] == p[i]);
        let j = lemma_vulnerable_listed(p, ledger, round, i);
        j
    } else {
        op.len() as int
    }
}

/// The record an entry of the vulnerable-agents list reports.
proof fn lemma_vulnerable_entry_source(s: Seq<AgentRecord>, ledger: u32, round: u32, j: int) -> (i: int)
    requires
        0 <= j < vulnerable_summaries(s, ledger, 2 * round_pulse_period(round)).len(),
    ensures
        0 <= i < s.len(),
        vulnerable_at(s[i], ledger, round),
        reports(vulnerable_summaries(s, ledger, 2 * round_pulse_period(round))[j], s[i], ledger, s[i].status),
    decreases s.len(),
{
    let w = 2 * round_pulse_period(round);
    let p = s.drop_last();
    let op = vulnerable_summaries(p, ledger, w);
    let last = s.last();
    let x = crate::registry::game::summary_of(last, ledger, last.status);
    assert(crate::registry::game::is_vulnerable(last, ledger, w) == vulnerable_at(last, ledger, round));
    assert(vulnerable_summaries(s, ledger, w) == if vulnerable_at(last, ledger, round) { op.push(x) } else { op });
    if j < op.len() {
        let i = lemma_vulnerable_entry_source(p, ledger, round, j);
        assert(s[i] == p[i]);
        i
    } else {
        s.len() - 1
    }
}

/// The all-agents list has one entry per record, in table order, each
/// reporting its record with the record's own status.
pub proof fn law_all_agents_listed(s: Seq<AgentRecord>, ledger: u32)
    ensures
        all_summaries(s, ledger).len() == s.len(),
        forall|i: int|
            0 <= i < s.len() ==> reports(
                #[trigger] all_summaries(s, ledger)[i],
                s[i],
                ledger,
                s[i].status,
            ),
    decreases s.len(),
{
    if s.len() > 0 {
        let p = s.drop_last();
        law_all_agents_listed(p, ledger);
        let x = crate::registry::game::summary_of(s.last(), ledger, s.last().status);
        assert(all_summaries(s, ledger) == all_summaries(p, ledger).push(x));
        assert forall|i: int| 0 <= i < s.len() implies reports(
            #[trigger] all_summaries(s, ledger)[i],
            s[i],
            ledger,
            s[i].status,
        ) by {
            if i < p.len() {
                assert(s[i] == p[i]);
                assert(all_summaries(s, ledger)[i] == all_summaries(p, ledger)[i]);
            }
        }
    }
}

/// The season's agent counts: the alive count is the number of records
/// that are Alive or Wounded, the dead count the number that are Dead.
pub proof fn law_season_counts(s: Seq<AgentRecord>)
    ensures
        alive_count(s) == s.filter(
            |r: AgentRecord| r.status == AgentStatus::Alive || r.status == AgentStatus::Wounded,
        ).len(),
        dead_count(s) == s.filter(|r: AgentRecord| r.status == AgentStatus::Dead).len(),
    decreases s.len(),
{
    reveal_with_fuel(Seq::filter, 1);
    if s.len() > 0 {
        law_season_counts(s.drop_last());
    }
}

/// Opening a season succeeds exactly when none is running (or none was
/// ever opened); the new season is numbered one more, starts in round 1
/// with its round deadline one round-1 duration from now, an empty pool
/// and no agents, and keeps the fee address.
pub proof fn law_init_season(m: RegistryModel, ledger: u32)
    ensures
        init_season_transition(m, ledger) is Ok <==> (m.season_id == 0 || m.season_data.2),
        init_season_transition(m, ledger) matches Ok((m2, season)) ==> {
            &&& m.season_id < u32::MAX ==> season == m.season_id + 1
            &&& m2.season_id == season
            &&& m2.season_data.0 == 1 && !m2.season_data.2
            &&& ledger + ROUND_1_DURATION <= u32::MAX ==> m2.season_data.1 == ledger
                + ROUND_1_DURATION
            &&& m2.prize_pool == 0 && m2.agents.len() == 0 && m2.agent_count == 0
            &&& m2.protocol_fee_address == m.protocol_fee_address
        },
{
}

/// Advancing the round succeeds exactly when a season is running and its
/// round deadline has come. From rounds 1 to 4 it moves to the next round,
/// with a deadline one duration of that round from now; in round 5 it ends
/// the season and stays in round 5. It touches neither the agents, nor the
/// pool, nor the season number.
pub proof fn law_advance_round(m: RegistryModel, ledger: u32)
    requires
        1 <= m.season_data.0 <= 5,
    ensures
        advance_round_transition(m, ledger) is Ok <==> (m.season_id != 0 && !m.season_data.2
            && ledger >= m.season_data.1),
        advance_round_transition(m, ledger) matches Ok((m2, r)) ==> {
            let round = m.season_data.0;
            &&& m2.agents == m.agents && m2.prize_pool == m.prize_pool
            &&& m2.season_id == m.season_id && m2.agent_count == m.agent_count
            &&& round < 5 ==> {
                &&& r == round + 1 && m2.season_data.0 == round + 1 && !m2.season_data.2
                &&& ledger + round_duration((round + 1) as u32) <= u32::MAX
                    ==> m2.season_data.1 == ledger + round_duration((round + 1) as u32)
            }
            &&& round == 5 ==> r == 5 && m2.season_data.0 == 5 && m2.season_data.2
        },
{
}

/// A liquidation succeeds exactly when victim and killer are two different
/// registered agents, the victim is Dead with a nonzero balance, the killer
/// is Alive or Wounded, and the killer's new balance, earnings and kill
/// count stay in range.
pub proof fn law_kill_succeeds(m: RegistryModel, dead: Seq<u8>, killer: Seq<u8>)
    ensures
        kill_transition(m, dead, killer) is Ok <==> ({
            &&& dead != killer
            &&& lookup(m.agents, dead) matches Some(d) && d.status == AgentStatus::Dead
                && d.heart_balance != 0
            &&& lookup(m.agents, killer) matches Some(k) && (k.status == AgentStatus::Alive
                || k.status == AgentStatus::Wounded)
            &&& fits_i128(lookup(m.agents, killer)->0.heart_balance + lookup(
                m.agents,
                dead,
            )->0.heart_balance)
            &&& fits_i128(lookup(m.agents, killer)->0.total_earned + lookup(
                m.agents,
                dead,
            )->0.heart_balance)
            &&& lookup(m.agents, killer)->0.kill_count < u32::MAX
        }),
{
}

/// A withdrawal succeeds exactly when the agent is registered, Alive or
/// Wounded, with a nonzero balance, and the pool's share fits.
pub proof fn law_withdrawal_succeeds(m: RegistryModel, id: Seq<u8>)
    ensures
        withdrawal_transition(m, id) is Ok <==> ({
            &&& lookup(m.agents, id) matches Some(r) && (r.status == AgentStatus::Alive
                || r.status == AgentStatus::Wounded) && r.heart_balance != 0
            &&& fits_i128(lookup(m.agents, id)->0.heart_balance * 80)
            &&& fits_i128(lookup(m.agents, id)->0.heart_balance * 20)
            &&& fits_i128(m.prize_pool + trunc_div(lookup(m.agents, id)->0.heart_balance * 20, 100))
        }),
{
}

/// A prize claim succeeds exactly when the season has ended, the agent is
/// registered, Alive or Wounded, has not claimed yet, the survivors' total
/// score is positive and fits a `u64`, the pool is not empty, and the
/// share and the new balance and earnings stay in range.
pub proof fn law_claim_succeeds(m: RegistryModel, id: Seq<u8>)
    ensures
        claim_transition(m, id) is Ok <==> ({
            let rec = lookup(m.agents, id)->0;
            let total = survivor_score_total(m.agents);
            let share = prize_share(m.prize_pool as int, rec.activity_score as int, total);
            &&& m.season_data.2
            &&& lookup(m.agents, id) is Some
            &&& (rec.status == AgentStatus::Alive || rec.status == AgentStatus::Wounded)
            &&& !rec.prize_claimed
            &&& 0 < total <= u64::MAX
            &&& m.prize_pool != 0
            &&& fits_i128(m.prize_pool * rec.activity_score)
            &&& fits_i128(rec.heart_balance + share)
            &&& fits_i128(rec.total_earned + share)
        }),
{
    crate::registry::game::lemma_survivor_score_nonneg(m.agents);
    if m.season_data.2 {
        match lookup(m.agents, id) {
            Some(rec) => {
                let total = survivor_score_total(m.agents);
                let share = prize_share(m.prize_pool as int, rec.activity_score as int, total);
                if crate::registry::game::is_survivor(rec.status) && !rec.prize_claimed && 0 < total
                    <= u64::MAX && m.prize_pool != 0 && fits_i128(m.prize_pool * rec.activity_score)
                    && fits_i128(rec.heart_balance + share) && fits_i128(rec.total_earned + share) {
                    assert(claim_transition(m, id) is Ok);
                } else {
                    assert(claim_transition(m, id) is Err);
                }
            },
            None => {},
        }
    }
}

/// After a late pulse (which leaves the agent Wounded with a streak of 0)
/// the first on-time pulse keeps it Wounded, and the second heals it.
pub proof fn law_wound_heals_on_second_on_time_pulse(
    m: RegistryModel,
    id: Seq<u8>,
    amount1: i128,
    ledger1: u32,
    amount2: i128,
    ledger2: u32,
)
    requires
        table_wf(m.agents),
        lookup(m.agents, id) matches Some(rec) && rec.status == AgentStatus::Wounded
            && rec.streak_count == 0,
        pulse_transition(m, id, amount1, false, ledger1) is Ok,
    ensures
        ({
            let m1 = pulse_transition(m, id, amount1, false, ledger1)->Ok_0;
            &&& lookup(m1.agents, id)->0.status == AgentStatus::Wounded
            &&& lookup(m1.agents, id)->0.streak_count == 1
            &&& pulse_transition(m1, id, amount2, false, ledger2) matches Ok(m2)
                ==> lookup(m2.agents, id)->0.status == AgentStatus::Alive
        }),
{
    law_pulse_effects(m, id, amount1, false, ledger1, id);
    let m1 = pulse_transition(m, id, amount1, false, ledger1)->Ok_0;
    if pulse_transition(m1, id, amount2, false, ledger2) is Ok {
        law_pulse_effects(m1, id, amount2, false, ledger2, id);
    }
}

/// A Dead agent whose balance has been taken: nothing left to liquidate.
pub open spec fn drained(m: RegistryModel, v: Seq<u8>) -> bool {
    lookup(m.agents, v) matches Some(r) && r.status == AgentStatus::Dead && r.heart_balance == 0
}

/// A victim once liquidated stays liquidated for the rest of the season:
/// every registry operation short of opening a new season keeps it Dead
/// with 0, so every later liquidation of it, by anyone, is refused.
pub proof fn law_drained_victim_stays_drained(
    m: RegistryModel,
    v: Seq<u8>,
    a: Seq<u8>,
    d: Seq<u8>,
    k: Seq<u8>,
    contract: Address,
    rid: AgentId,
    fee: Address,
    amount: i128,
    is_late: bool,
    ledger: u32,
)
    requires
        table_wf(m.agents),
        m.agents.len() < u32::MAX,
        drained(m, v),
    ensures
        kill_transition(m, v, k) is Err,
        k != v ==> kill_transition(m, v, k) == Err::<(RegistryModel, i128), Error>(
            Error::NoPrizeToClaim,
        ),
        init_transition(m, fee).agents == m.agents,
        register_transition(m, contract, rid, ledger) matches Ok(m2) ==> table_wf(m2.agents)
            && drained(m2, v),
        advance_round_transition(m, ledger) matches Ok((m2, _)) ==> m2.agents == m.agents,
        pulse_transition(m, a, amount, is_late, ledger) matches Ok(m2) ==> table_wf(m2.agents)
            && drained(m2, v),
        mark_dead_transition(m, a) matches Ok(m2) ==> table_wf(m2.agents) && drained(m2, v),
        kill_transition(m, d, k) matches Ok((m2, _)) ==> table_wf(m2.agents) && drained(m2, v),
        withdrawal_transition(m, a) matches Ok((m2, _)) ==> table_wf(m2.agents) && drained(
            m2,
            v,
        ),
        claim_transition(m, a) matches Ok((m2, _)) ==> table_wf(m2.agents) && drained(m2, v),
{
    if register_transition(m, contract, rid, ledger) is Ok {
        law_register_then_lookup(m, contract, rid, ledger, v);
    }
    if pulse_transition(m, a, amount, is_late, ledger) is Ok {
        law_pulse_effects(m, a, amount, is_late, ledger, v);
    }
    if mark_dead_transition(m, a) is Ok {
        law_dead_agent_refuses(m, a, amount, is_late, ledger, v);
        let rec = lookup(m.agents, a)->0;
        let i = index_of(m.agents, a);
        lemma_update_same_id(m.agents, i, AgentRecord { status: AgentStatus::Dead, ..rec });
    }
    if kill_transition(m, d, k) is Ok {
        law_liquidation_moves_balance(m, d, k, k, v);
    }
    if withdrawal_transition(m, a) is Ok {
        law_withdrawal_settles(m, a, v, amount, is_late, ledger);
    }
    if claim_transition(m, a) is Ok {
        law_claim_keeps_shares(m, a, v);
    }
}

/// The registry after advancing the round at each of `ledgers` in turn.
pub open spec fn advance_all(m: RegistryModel, ledgers: Seq<u32>) -> Result<RegistryModel, Error>
    decreases ledgers.len(),
{
    if ledgers.len() == 0 {
        Ok(m)
    } else {
        match advance_all(m, ledgers.drop_last()) {
            Ok(m1) => match advance_round_transition(m1, ledgers.last()) {
                Ok((m2, _)) => Ok(m2),
                Err(e) => Err(e),
            },
            Err(e) => Err(e),
        }
    }
}

/// A season opened by `init_season` starts in round 1 with an empty pool
/// and no agents; each successful advance moves it one round on; after
/// five it has ended in round 5, and no sixth advance succeeds. Advancing
/// touches neither the agents, nor the pool, nor the season number.
pub proof fn law_season_runs_five_rounds(m0: RegistryModel, opened_at: u32, ledgers: Seq<u32>)
    requires
        init_season_in_range(m0, opened_at),
        init_season_transition(m0, opened_at) is Ok,
        advance_all(init_season_transition(m0, opened_at)->Ok_0.0, ledgers) is Ok,
    ensures
        ({
            let m1 = init_season_transition(m0, opened_at)->Ok_0.0;
            let m2 = advance_all(m1, ledgers)->Ok_0;
            &&& m1.season_data.0 == 1 && !m1.season_data.2
            &&& m1.prize_pool == 0 && m1.agents.len() == 0
            &&& ledgers.len() <= 5
            &&& ledgers.len() < 5 ==> m2.season_data.0 == ledgers.len() + 1 && !m2.season_data.2
            &&& ledgers.len() == 5 ==> m2.season_data.0 == 5 && m2.season_data.2
            &&& m2.agents == m1.agents && m2.prize_pool == m1.prize_pool && m2.season_id
                == m1.season_id
        }),
{
    let m1 = init_season_transition(m0, opened_at)->Ok_0.0;
    lemma_advance_all(m1, ledgers);
}

/// The induction behind `law_season_runs_five_rounds`.
proof fn lemma_advance_all(m1: RegistryModel, ledgers: Seq<u32>)
    requires
        m1.season_id != 0,
        m1.season_data.0 == 1,
        !m1.season_data.2,
        advance_all(m1, ledgers) is Ok,
    ensures
        ({
            let m2 = advance_all(m1, ledgers)->Ok_0;
            &&& ledgers.len() <= 5
            &&& ledgers.len() < 5 ==> m2.season_data.0 == ledgers.len() + 1 && !m2.season_data.2
            &&& ledgers.len() == 5 ==> m2.season_data.0 == 5 && m2.season_data.2
            &&& m2.agents == m1.agents && m2.prize_pool == m1.prize_pool && m2.season_id
                == m1.season_id
        }),
    decreases ledgers.len(),
{
    if ledgers.len() > 0 {
        lemma_advance_all(m1, ledgers.drop_last());
    }
}

/// Once a season has ended, rounds no longer advance and nobody can
/// register, while a new season can be opened (numbered one more); while a
/// season runs, no new one can be opened and no prize can be claimed.
pub proof fn law_season_end(
    m: RegistryModel,
    ledger: u32,
    contract: Address,
    id: AgentId,
    claimant: Seq<u8>,
)
    requires
        m.season_id != 0,
    ensures
        m.season_data.2 ==> advance_round_transition(m, ledger) == Err::<(RegistryModel, u32), Error>(
            Error::SeasonAlreadyEnded,
        ),
        m.season_data.2 ==> register_transition(m, contract, id, ledger) == Err::<
            RegistryModel,
            Error,
        >(Error::SeasonAlreadyEnded),
        m.season_data.2 && m.season_id < u32::MAX ==> (init_season_transition(m, ledger) matches Ok(
            (m2, season),
        ) && season
            == m.season_id + 1 && m2.season_id == season),
        !m.season_data.2 ==> init_season_transition(m, ledger) == Err::<(RegistryModel, u32), Error>(
            Error::AlreadyInitialized,
        ),
        !m.season_data.2 ==> claim_transition(m, claimant) == Err::<(RegistryModel, i128), Error>(
            Error::SeasonNotEnded,
        ),
{
}

/// The survivors' prize shares, added up.
pub open spec fn survivor_share_total(s: Seq<AgentRecord>, pool: int, total: int) -> int
    decreases s.len(),
{
    if s.len() == 0 {
        0
    } else {
        survivor_share_total(s.drop_last(), pool, total) + if is_survivor(s.last().status) {
            prize_share(pool, s.last().activity_score as int, total)
        } else {
            0
        }
    }
}

/// The prize shares of the survivors that have claimed, added up: what the
/// claims of the season have paid out.
pub open spec fn claimed_share_total(s: Seq<AgentRecord>, pool: int, total: int) -> int
    decreases s.len(),
{
    if s.len() == 0 {
        0
    } else {
        claimed_share_total(s.drop_last(), pool, total) + if is_survivor(s.last().status)
            && s.last().prize_claimed {
            prize_share(pool, s.last().activity_score as int, total)
        } else {
            0
        }
    }
}

/// A claim pays the claimant its share once: the share is the pool times
/// the claimant's score divided by the survivors' total score, rounded
/// down (for a positive pool); the claimant is marked as
/// having claimed, and claiming again is refused with
/// `PrizeAlreadyClaimed`. It changes nothing that another survivor's share
/// depends on: the pool, the season, every status and every score stay as
/// they were, so every survivor's share is computed from the same pool and
/// the same total.
pub proof fn law_claim_keeps_shares(m: RegistryModel, id: Seq<u8>, other: Seq<u8>)
    requires
        table_wf(m.agents),
        claim_transition(m, id) is Ok,
    ensures
        ({
            let (m2, share) = claim_transition(m, id)->Ok_0;
            let rec = lookup(m.agents, id)->0;
            &&& table_wf(m2.agents)
            &&& is_survivor(rec.status) && !rec.prize_claimed
            &&& share == prize_share(
                m.prize_pool as int,
                rec.activity_score as int,
                survivor_score_total(m.agents),
            )
            &&& m.prize_pool != 0 && survivor_score_total(m.agents) > 0
            &&& m.prize_pool > 0 ==> share * survivor_score_total(m.agents) <= m.prize_pool
                * rec.activity_score < (share + 1) * survivor_score_total(m.agents)
            &&& m2.prize_pool == m.prize_pool && m2.season_data == m.season_data
            &&& survivor_score_total(m2.agents) == survivor_score_total(m.agents)
            &&& lookup(m2.agents, id) == Some(
                AgentRecord {
                    heart_balance: (rec.heart_balance + share) as i128,
                    total_earned: (rec.total_earned + share) as i128,
                    prize_claimed: true,
                    ..rec
                },
            )
            &&& claim_transition(m2, id) == Err::<(RegistryModel, i128), Error>(
                Error::PrizeAlreadyClaimed,
            )
            &&& other != id ==> lookup(m2.agents, other) == lookup(m.agents, other)
        }),
{
    let rec = lookup(m.agents, id)->0;
    let t = survivor_score_total(m.agents);
    let x = m.prize_pool * rec.activity_score;
    let sh = prize_share(m.prize_pool as int, rec.activity_score as int, t);
    crate::registry::game::lemma_survivor_score_nonneg(m.agents);
    assert(t > 0 && fits_i128(x));
    assert(fits_i128(sh)) by (nonlinear_arith)
        requires
            t > 0,
            fits_i128(x),
            sh == trunc_div(x, t),
    {
        if x >= 0 {
            assert(x / t <= x);
        } else {
            assert((-x) / t <= -x);
        }
    }
    assert(m.prize_pool > 0 ==> sh * t <= x < (sh + 1) * t) by {
        if m.prize_pool > 0 {
            vstd::arithmetic::mul::lemma_mul_nonnegative(m.prize_pool as int, rec.activity_score as int);
            vstd::arithmetic::div_mod::lemma_fundamental_div_mod(x, t);
            vstd::arithmetic::div_mod::lemma_mod_pos_bound(x, t);
            assert(sh == x / t);
            assert(t * (x / t) == (x / t) * t) by {
                vstd::arithmetic::mul::lemma_mul_is_commutative(t, x / t);
            }
            assert((sh + 1) * t == sh * t + t) by {
                vstd::arithmetic::mul::lemma_mul_is_distributive_add_other_way(t, sh, 1);
            }
        }
    }
    let i = index_of(m.agents, id);
    let r2 = AgentRecord {
        heart_balance: (rec.heart_balance + sh) as i128,
        total_earned: (rec.total_earned + sh) as i128,
        prize_claimed: true,
        ..rec
    };
    lemma_update_same_id(m.agents, i, r2);
    lemma_survivor_total_update(m.agents, i, r2);
}

/// Replacing a record by one with the same status and score keeps the
/// survivors' total.
proof fn lemma_survivor_total_update(s: Seq<AgentRecord>, i: int, r: AgentRecord)
    requires
        0 <= i < s.len(),
        r.status == s[i].status,
        r.activity_score == s[i].activity_score,
    ensures
        survivor_score_total(s.update(i, r)) == survivor_score_total(s),
    decreases s.len(),
{
    let t = s.update(i, r);
    if i == s.len() - 1 {
        assert(t.drop_last() =~= s.drop_last());
    } else {
        assert(t.drop_last() =~= s.drop_last().update(i, r));
        lemma_survivor_total_update(s.drop_last(), i, r);
    }
}

/// Claims never pay out more than the pool: what the season's claims have
/// paid never exceeds a nonnegative pool, and each successful claim adds
/// exactly the share it returns to that sum, computed from the same pool
/// and total as before. So over any sequence of claims the amounts
/// returned add up to at most the pool.
pub proof fn law_claims_stay_within_pool(m: RegistryModel, id: Seq<u8>)
    requires
        table_wf(m.agents),
        m.prize_pool >= 0,
        survivor_score_total(m.agents) > 0,
    ensures
        ({
            let pool = m.prize_pool as int;
            let total = survivor_score_total(m.agents);
            &&& 0 <= claimed_share_total(m.agents, pool, total) <= pool
            &&& claim_transition(m, id) matches Ok((m2, share)) ==> {
                &&& m2.prize_pool == m.prize_pool
                &&& survivor_score_total(m2.agents) == total
                &&& claimed_share_total(m2.agents, pool, total) == claimed_share_total(
                    m.agents,
                    pool,
                    total,
                ) + share
                &&& claimed_share_total(m2.agents, pool, total) <= pool
            }
        }),
{
    let pool = m.prize_pool as int;
    let total = survivor_score_total(m.agents);
    lemma_claimed_within_shares(m.agents, pool, total);
    law_shares_within_pool(m.agents, pool);
    if claim_transition(m, id) is Ok {
        law_claim_keeps_shares(m, id, id);
        let (m2, share) = claim_transition(m, id)->Ok_0;
        let i = index_of(m.agents, id);
        let rec = m.agents[i];
        let r2 = m2.agents[i];
        assert(m2.agents == m.agents.update(i, r2));
        lemma_claimed_total_update(m.agents, i, r2, pool, total);
        lemma_claimed_within_shares(m2.agents, pool, total);
        law_shares_within_pool(m2.agents, pool);
    }
}

/// A share of a nonnegative pool is never negative.
proof fn lemma_share_nonneg(pool: int, score: int, total: int)
    requires
        pool >= 0,
        score >= 0,
        total > 0,
    ensures
        prize_share(pool, score, total) >= 0,
{
    vstd::arithmetic::mul::lemma_mul_nonnegative(pool, score);
    vstd::arithmetic::div_mod::lemma_div_pos_is_pos(pool * score, total);
}

/// The claimed shares are part of all the survivors' shares.
proof fn lemma_claimed_within_shares(s: Seq<AgentRecord>, pool: int, total: int)
    requires
        pool >= 0,
        total > 0,
    ensures
        0 <= claimed_share_total(s, pool, total) <= survivor_share_total(s, pool, total),
    decreases s.len(),
{
    if s.len() > 0 {
        lemma_claimed_within_shares(s.drop_last(), pool, total);
        lemma_share_nonneg(pool, s.last().activity_score as int, total);
    }
}

/// Marking an unclaimed survivor as claimed, with its status and score
/// kept, adds its share to the claimed total.
proof fn lemma_claimed_total_update(
    s: Seq<AgentRecord>,
    i: int,
    r: AgentRecord,
    pool: int,
    total: int,
)
    requires
        0 <= i < s.len(),
        r.status == s[i].status,
        r.activity_score == s[i].activity_score,
        is_survivor(s[i].status),
        !s[i].prize_claimed,
        r.prize_claimed,
    ensures
        claimed_share_total(s.update(i, r), pool, total) == claimed_share_total(s, pool, total)
            + prize_share(pool, s[i].activity_score as int, total),
    decreases s.len(),
{
    let t = s.update(i, r);
    if i == s.len() - 1 {
        assert(t.drop_last() =~= s.drop_last());
    } else {
        assert(t.drop_last() =~= s.drop_last().update(i, r));
        lemma_claimed_total_update(s.drop_last(), i, r, pool, total);
    }
}

/// The survivors' shares together never exceed a nonnegative pool:
/// rounding each share down can only leave part of the pool unpaid.
pub proof fn law_shares_within_pool(s: Seq<AgentRecord>, pool: int)
    requires
        pool >= 0,
        survivor_score_total(s) > 0,
    ensures
        survivor_share_total(s, pool, survivor_score_total(s)) <= pool,
{
    let t = survivor_score_total(s);
    lemma_share_total_bound(s, pool, t);
    assert((pool * t) / t == pool) by {
        vstd::arithmetic::div_mod::lemma_div_by_multiple(pool, t);
    }
}

/// Added-up shares stay within the share of the added-up scores.
proof fn lemma_share_total_bound(s: Seq<AgentRecord>, pool: int, t: int)
    requires
        pool >= 0,
        t > 0,
    ensures
        0 <= survivor_share_total(s, pool, t) <= (pool * survivor_score_total(s)) / t,
        survivor_score_total(s) >= 0,
    decreases s.len(),
{
    if s.len() > 0 {
        let s1 = s.drop_last();
        lemma_share_total_bound(s1, pool, t);
        let a = pool * survivor_score_total(s1);
        let x = if is_survivor(s.last().status) {
            s.last().activity_score as int
        } else {
            0
        };
        let b = pool * x;
        assert(a >= 0) by {
            vstd::arithmetic::mul::lemma_mul_nonnegative(pool, survivor_score_total(s1));
        }
        assert(b >= 0) by {
            vstd::arithmetic::mul::lemma_mul_nonnegative(pool, x);
        }
        assert(pool * survivor_score_total(s) == a + b) by {
            vstd::arithmetic::mul::lemma_mul_is_distributive_add(pool, survivor_score_total(s1), x);
        }
        assert(b / t >= 0) by {
            vstd::arithmetic::div_mod::lemma_div_pos_is_pos(b, t);
        }
        lemma_floor_sum(a, b, t);
        assert(prize_share(pool, x, t) == b / t);
    }
}

/// Rounding down each part never gives more than rounding down the sum.
proof fn lemma_floor_sum(a: int, b: int, t: int)
    requires
        a >= 0,
        b >= 0,
        t > 0,
    ensures
        a / t + b / t <= (a + b) / t,
{
    vstd::arithmetic::div_mod::lemma_fundamental_div_mod(a, t);
    vstd::arithmetic::div_mod::lemma_fundamental_div_mod(b, t);
    vstd::arithmetic::div_mod::lemma_mod_pos_bound(a, t);
    vstd::arithmetic::div_mod::lemma_mod_pos_bound(b, t);
    let q = a / t + b / t;
    assert(t * q == t * (a / t) + t * (b / t)) by {
        vstd::arithmetic::mul::lemma_mul_is_distributive_add(t, a / t, b / t);
    }
    assert(t * q <= a + b);
    vstd::arithmetic::div_mod::lemma_div_is_ordered(t * q, a + b, t);
    vstd::arithmetic::div_mod::lemma_div_multiples_vanish(q, t);
}

/// A larger activity score never earns a smaller share of a nonnegative
/// pool.
pub proof fn law_share_monotone(pool: int, score1: int, score2: int, total: int)
    requires
        pool >= 0,
        0 <= score1 <= score2,
        total > 0,
    ensures
        0 <= prize_share(pool, score1, total) <= prize_share(pool, score2, total),
{
    vstd::arithmetic::mul::lemma_mul_inequality(score1, score2, pool);
    vstd::arithmetic::mul::lemma_mul_nonnegative(pool, score1);
    assert(pool * score1 == score1 * pool && pool * score2 == score2 * pool) by {
        vstd::arithmetic::mul::lemma_mul_is_commutative(pool, score1);
        vstd::arithmetic::mul::lemma_mul_is_commutative(pool, score2);
    }
    vstd::arithmetic::div_mod::lemma_div_is_ordered(pool * score1, pool * score2, total);
    vstd::arithmetic::div_mod::lemma_div_pos_is_pos(pool * score1, total);
}

/// A survivor whose score is the whole survivors' total takes the whole pool.
pub proof fn law_sole_survivor_takes_pool(pool: int, total: int)
    requires
        total > 0,
    ensures
        prize_share(pool, total, total) == pool,
{
    if pool >= 0 {
        vstd::arithmetic::div_mod::lemma_div_by_multiple(pool, total);
    } else {
        vstd::arithmetic::div_mod::lemma_div_by_multiple(-pool, total);
        assert(-(pool * total) == (-pool) * total) by (nonlinear_arith);
    }
}

/// An id absent from a sorted table of 32-byte ids has a place where it
/// belongs.
pub proof fn lemma_insertion_point_exists(s: Seq<AgentRecord>, id: AgentId)
    requires
        ids_sorted(s),
        !has_agent(s, id@),
    ensures
        exists|p: int| insertion_point(s, id@, p),
{
    lemma_insertion_point_from(s, id, 0);
}

/// Scanning from `k`, past records whose ids all come before `id`.
proof fn lemma_insertion_point_from(s: Seq<AgentRecord>, id: AgentId, k: int)
    requires
        ids_sorted(s),
        !has_agent(s, id@),
        0 <= k <= s.len(),
        forall|j: int| 0 <= j < k ==> id_lt(#[trigger] s[j].agent_id@, id@),
    ensures
        exists|p: int| insertion_point(s, id@, p),
    decreases s.len() - k,
{
    if k == s.len() {
        assert(insertion_point(s, id@, k));
    } else if id_lt(id@, s[k].agent_id@) {
        assert forall|j: int| k <= j < s.len() implies id_lt(id@, #[trigger] s[j].agent_id@) by {
            if j > k {
                assert(id_lt(s[k].agent_id@, s[j].agent_id@));
                lemma_id_lt_transitive(id@, s[k].agent_id@, s[j].agent_id@);
            }
        }
        assert(insertion_point(s, id@, k));
    } else {
        assert(s[k].agent_id@ != id@);
        assert(s[k].agent_id@.len() == 32 && id@.len() == 32);
        lemma_id_lt_total(s[k].agent_id@, id@);
        lemma_insertion_point_from(s, id, k + 1);
    }
}

} // verus!
