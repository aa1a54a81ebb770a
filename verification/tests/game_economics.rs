//! The game's economics across contracts: constants, splits, streak bonuses,
//! prize shares and season arithmetic.

use stellar_squid::rounds::{
    checked_scale, streak_bonus, ENTRY_BOND, ROUND_1_COST, ROUND_1_DURATION, ROUND_1_GRACE,
    ROUND_1_PULSE_PERIOD, ROUND_2_COST, ROUND_2_DURATION, ROUND_3_COST,
    ROUND_3_DURATION, ROUND_4_COST, ROUND_4_DURATION, ROUND_5_COST, ROUND_5_DURATION,
};

// =============================================================================
// CONSTANTS VALIDATION TESTS
// =============================================================================

#[test]
fn test_all_constants_defined() {
    assert!(ENTRY_BOND > 0);
    assert!(ROUND_1_COST > 0);
    assert!(ROUND_2_COST > 0);
    assert!(ROUND_3_COST > 0);
    assert!(ROUND_4_COST > 0);
    assert!(ROUND_5_COST > 0);
    assert!(ROUND_1_DURATION > 0);
    assert!(ROUND_2_DURATION > 0);
    assert!(ROUND_3_DURATION > 0);
    assert!(ROUND_4_DURATION > 0);
    assert!(ROUND_5_DURATION > 0);
}

#[test]
fn test_round_cost_escalation() {
    assert!(ROUND_2_COST > ROUND_1_COST, "Round 2 should cost more than round 1");
    assert!(ROUND_3_COST > ROUND_2_COST, "Round 3 should cost more than round 2");
    assert!(ROUND_4_COST > ROUND_3_COST, "Round 4 should cost more than round 3");
    assert!(ROUND_5_COST > ROUND_4_COST, "Round 5 should cost more than round 4");
}

#[test]
fn test_round_duration_reduction() {
    assert!(ROUND_2_DURATION < ROUND_1_DURATION);
    assert!(ROUND_3_DURATION < ROUND_2_DURATION);
    assert!(ROUND_4_DURATION < ROUND_3_DURATION);
    assert!(ROUND_5_DURATION < ROUND_4_DURATION);
}

#[test]
fn integration_tests_test_total_season_duration() {
    let total = ROUND_1_DURATION + ROUND_2_DURATION + ROUND_3_DURATION + ROUND_4_DURATION + ROUND_5_DURATION;
    assert_eq!(total, 116640, "Total season duration mismatch");
}

// =============================================================================
// ECONOMIC MODEL TESTS
// =============================================================================

#[test]
fn test_pulse_cost_distribution() {
    let test_amounts = [ROUND_1_COST, ROUND_2_COST, ROUND_3_COST, ROUND_4_COST, ROUND_5_COST];
    for amount in test_amounts.iter() {
        let protocol_fee = checked_scale(*amount, 5, 100).unwrap();
        let prize_pool = checked_scale(*amount, 5, 100).unwrap();
        let ttl_rent = checked_scale(*amount, 90, 100).unwrap();
        assert_eq!(protocol_fee, amount / 20, "Protocol fee should be 5%");
        assert_eq!(prize_pool, amount / 20, "Prize pool should be 5%");
        assert_eq!(ttl_rent, amount * 9 / 10, "TTL rent should be 90%");
        let total = protocol_fee + prize_pool + ttl_rent;
        assert!((total - *amount).abs() <= 1, "Split should sum to original amount");
    }
}

#[test]
fn test_withdrawal_split() {
    let balance = ENTRY_BOND;
    let agent_refund = checked_scale(balance, 80, 100).unwrap();
    let prize_contribution = checked_scale(balance, 20, 100).unwrap();
    assert_eq!(agent_refund, 40_0000000, "Agent should get 40 XLM");
    assert_eq!(prize_contribution, 10_0000000, "Prize pool should get 10 XLM");
    assert_eq!(agent_refund + prize_contribution, balance, "Split should equal balance");
}

#[test]
fn test_kill_reward_is_100_percent() {
    let victim_balances = [50_0000000i128, 100_0000000, 25_0000000, 10_0000000];
    for balance in victim_balances.iter() {
        let reward = *balance;
        assert_eq!(reward, *balance, "Kill reward should be 100% of victim balance");
    }
}

#[test]
fn integration_tests_test_minimum_survival_cost() {
    let min_cost = ROUND_1_COST + ROUND_2_COST + ROUND_3_COST + ROUND_4_COST + ROUND_5_COST;
    assert_eq!(min_cost, 11_5000000, "Minimum survival cost should be 11.5 XLM");
    let total_min = ENTRY_BOND + min_cost;
    assert_eq!(total_min, 61_5000000, "Total minimum with entry bond");
}

#[test]
fn test_maximum_survival_cost() {
    let base_cost = ROUND_1_COST + ROUND_2_COST + ROUND_3_COST + ROUND_4_COST + ROUND_5_COST;
    let max_cost = base_cost * 2;
    assert_eq!(max_cost, 23_0000000, "Maximum cost with all late pulses");
}

// =============================================================================
// STREAK BONUS TESTS
// =============================================================================

#[test]
fn test_streak_bonus_tier_calculation() {
    let test_cases = [
        (0u32, 10u64),
        (5, 10),
        (9, 10),
        (10, 11),
        (15, 11),
        (24, 11),
        (25, 12),
        (35, 12),
        (49, 12),
        (50, 15),
        (75, 15),
        (99, 15),
        (100, 20),
        (200, 20),
    ];
    for (streak, expected_bonus) in test_cases.iter() {
        assert_eq!(streak_bonus(*streak), *expected_bonus, "Streak {} should give bonus {}", streak, expected_bonus);
    }
}

#[test]
fn test_activity_score_accumulation() {
    let mut score: u64 = 0;
    for streak in 1u32..=100 {
        score += streak_bonus(streak);
    }
    assert_eq!(score, 1325, "Activity score after 100 pulses");
}

// =============================================================================
// TIME/LEDGER CONVERSION TESTS
// =============================================================================

#[test]
fn test_ledger_to_time_round_1() {
    let seconds_per_ledger = 5u32;
    assert_eq!(ROUND_1_DURATION * seconds_per_ledger / 3600, 72, "Round 1 should be 72 hours");
    assert_eq!(ROUND_1_PULSE_PERIOD * seconds_per_ledger / 3600, 6, "Round 1 pulse period should be 6 hours");
    assert_eq!(ROUND_1_GRACE * seconds_per_ledger / 3600, 1, "Round 1 grace period should be 1 hour");
}

// =============================================================================
// PRIZE DISTRIBUTION TESTS
// =============================================================================

#[test]
fn integration_tests_test_prize_share_calculation() {
    let prize_pool: i128 = 1000_0000000;
    let total_scores: u64 = 1000;
    let share = checked_scale(prize_pool, 100, total_scores as i128).unwrap();
    assert_eq!(share, 100_0000000, "Should get 100 XLM (10%)");
    let share = checked_scale(prize_pool, 500, total_scores as i128).unwrap();
    assert_eq!(share, 500_0000000, "Should get 500 XLM (50%)");
    let single_share = checked_scale(prize_pool, 100, 100).unwrap();
    assert_eq!(single_share, prize_pool, "Single survivor gets entire pool");
}

#[test]
fn test_prize_distribution_with_multiple_survivors() {
    let prize_pool: i128 = 1000_0000000;
    let scores: [u64; 4] = [100, 200, 300, 400];
    let total_score: u64 = scores.iter().sum();
    let mut total_distributed: i128 = 0;
    for score in scores.iter() {
        total_distributed += checked_scale(prize_pool, *score as i128, total_score as i128).unwrap();
    }
    assert!((total_distributed - prize_pool).abs() < 100, "Total distributed should approximately equal prize pool: {} vs {}", total_distributed, prize_pool);
}

// =============================================================================
// EDGE CASE TESTS
// =============================================================================

#[test]
fn integration_tests_test_zero_values() {
    let zero: i128 = 0;
    let share = checked_scale(0, 100, 100).unwrap();
    assert_eq!(share, 0);
    let refund = checked_scale(zero, 80, 100).unwrap();
    assert_eq!(refund, 0);
    let protocol_fee = checked_scale(zero, 5, 100).unwrap();
    assert_eq!(protocol_fee, 0);
}

#[test]
fn integration_tests_test_large_values() {
    let large_balance: i128 = 1_000_000_000_000;
    let agent_refund = checked_scale(large_balance, 80, 100).unwrap();
    let prize_contribution = checked_scale(large_balance, 20, 100).unwrap();
    assert_eq!(agent_refund + prize_contribution, large_balance);
    let share = checked_scale(large_balance, 50, 100).unwrap();
    assert_eq!(share, large_balance / 2);
}

#[test]
fn test_precision_with_stroops() {
    let one_xlm = 10_000_000i128;
    assert_eq!(checked_scale(one_xlm, 5, 100).unwrap(), 500_000);
    assert_eq!(checked_scale(one_xlm, 80, 100).unwrap(), 8_000_000);
}

// =============================================================================
// GAME SCENARIO TESTS
// =============================================================================

#[test]
fn test_scenario_single_agent_survival() {
    let total_cost = ENTRY_BOND + ROUND_1_COST + ROUND_2_COST + ROUND_3_COST + ROUND_4_COST + ROUND_5_COST;
    assert!(total_cost <= 100_0000000, "Single agent can survive with 100 XLM");
}

#[test]
fn test_scenario_multiple_agents_one_winner() {
    let num_agents = 10u32;
    let total_entry_bonds = ENTRY_BOND * num_agents as i128;
    let survivor_share = checked_scale(total_entry_bonds, 20, 100).unwrap();
    assert!(survivor_share > 0);
}

#[test]
fn test_scenario_liquidation_chain() {
    let initial_balance = ENTRY_BOND;
    let a_balance_after = initial_balance + initial_balance;
    assert_eq!(a_balance_after, ENTRY_BOND * 2);
    let c_balance_after = initial_balance + a_balance_after;
    assert_eq!(c_balance_after, ENTRY_BOND * 3);
}

#[test]
fn test_scenario_all_agents_die() {
    let total_survivor_score: u64 = 0;
    assert_eq!(total_survivor_score, 0);
}

// =============================================================================
// BOUNDARY CONDITION TESTS
// =============================================================================

#[test]
fn test_round_boundary_transitions() {
    let round1_end = ROUND_1_DURATION;
    let round2_end = round1_end + ROUND_2_DURATION;
    let round3_end = round2_end + ROUND_3_DURATION;
    let round4_end = round3_end + ROUND_4_DURATION;
    let round5_end = round4_end + ROUND_5_DURATION;
    assert_eq!(round1_end, 51840);
    assert_eq!(round2_end, 86400);
    assert_eq!(round3_end, 103680);
    assert_eq!(round4_end, 112320);
    assert_eq!(round5_end, 116640);
}

#[test]
fn test_pulse_deadline_boundaries() {
    let deadline = 5000u32;
    let grace_deadline = deadline + ROUND_1_GRACE;
    assert!(5000 <= deadline, "At deadline should be valid");
    assert!(5001 > deadline && 5001 <= grace_deadline, "One after deadline is late");
    assert!(5721 > grace_deadline, "After grace period is dead");
}

// =============================================================================
// BALANCE EXHAUSTION TESTS
// =============================================================================

#[test]
fn integration_tests_test_balance_exhaustion_calculation() {
    let starting_balance = ENTRY_BOND;
    assert_eq!(starting_balance / ROUND_1_COST, 100, "Can afford 100 round 1 pulses");
    assert_eq!(starting_balance / ROUND_5_COST, 10, "Can afford 10 round 5 pulses");
}

#[test]
fn test_late_pulse_economic_impact() {
    let base_cost = ROUND_1_COST;
    let late_cost = base_cost * 2;
    let normal_total = base_cost * 10;
    let late_total = late_cost * 10;
    assert_eq!(late_total, normal_total * 2, "Late pulses cost double");
    assert_eq!(ENTRY_BOND / base_cost, 100);
    assert_eq!(ENTRY_BOND / late_cost, 50);
}

// =============================================================================
// COMPLETE GAME FLOW SIMULATIONS
// =============================================================================

#[test]
fn test_simulate_full_season_with_withdrawal() {
    let mut agent_balance = ENTRY_BOND;
    for _ in 0..10u32 {
        agent_balance -= checked_scale(ROUND_1_COST, 10, 100).unwrap();
    }
    let withdrawal = checked_scale(agent_balance, 80, 100).unwrap();
    let prize_contribution = checked_scale(agent_balance, 20, 100).unwrap();
    assert_eq!(withdrawal + prize_contribution, agent_balance);
    assert!(withdrawal > 0);
    assert!(prize_contribution > 0);
}

// =============================================================================
// INVARIANT TESTS
// =============================================================================

#[test]
fn test_invariant_entry_bond_positive() {
    assert!(ENTRY_BOND > 0, "Entry bond must always be positive");
}

#[test]
fn test_invariant_pulse_costs_positive() {
    assert!(ROUND_1_COST > 0);
    assert!(ROUND_2_COST > 0);
    assert!(ROUND_3_COST > 0);
    assert!(ROUND_4_COST > 0);
    assert!(ROUND_5_COST > 0);
}

#[test]
fn test_invariant_round_durations_positive() {
    assert!(ROUND_1_DURATION > 0);
    assert!(ROUND_2_DURATION > 0);
    assert!(ROUND_3_DURATION > 0);
    assert!(ROUND_4_DURATION > 0);
    assert!(ROUND_5_DURATION > 0);
}

#[test]
fn test_invariant_pulse_split_valid() {
    for amount in [ROUND_1_COST, ROUND_2_COST, ROUND_3_COST, ROUND_5_COST].iter() {
        let protocol = checked_scale(*amount, 5, 100).unwrap();
        let prize = checked_scale(*amount, 5, 100).unwrap();
        let ttl = checked_scale(*amount, 90, 100).unwrap();
        let total = protocol + prize + ttl;
        assert!((total - *amount).abs() <= 1, "Pulse split should sum to amount within 1 stroop");
    }
}

#[test]
fn test_invariant_kill_reward_non_negative() {
    let victim_balances = [0i128, 1, 10, 100, 1000, ENTRY_BOND];
    for balance in victim_balances.iter() {
        let reward = *balance;
        assert!(reward >= 0, "Kill reward should be non-negative");
        assert_eq!(reward, *balance, "Kill reward should be 100% of victim balance");
    }
}

#[test]
fn test_invariant_activity_score_non_negative() {
    for streak in [0u32, 1, 10, 50, 100, 1000].iter() {
        assert!(streak_bonus(*streak) >= 10, "Activity bonus should be at least 10");
    }
}

// =============================================================================
// STRESS TESTS
// =============================================================================

#[test]
fn test_many_agents_scenario() {
    let num_agents = 100u32;
    let total_entry_bonds = ENTRY_BOND * num_agents as i128;
    let total_withdrawal_contribution = checked_scale(total_entry_bonds, 20, 100).unwrap();
    assert_eq!(total_withdrawal_contribution, ENTRY_BOND * 20 * num_agents as i128 / 100);
    let single_survivor_prize = total_withdrawal_contribution;
    assert!(single_survivor_prize > ENTRY_BOND * 10);
}

#[test]
fn test_many_pulses_scenario() {
    let mut balance = ENTRY_BOND;
    let mut score: u64 = 0;
    let mut streak: u32 = 0;
    for _ in 0..50 {
        balance -= checked_scale(ROUND_1_COST, 10, 100).unwrap();
        streak += 1;
        score += streak_bonus(streak);
    }
    assert!(balance > 0, "Should still have balance after 50 pulses");
    assert_eq!(streak, 50);
    assert!(score > 500, "Should have significant activity score");
}

// =============================================================================
// SECURITY TESTS
// =============================================================================

#[test]
fn test_prevent_self_liquidation() {
    let agent_id = 5u8;
    assert_eq!(agent_id, agent_id, "Same ID check");
}

#[test]
fn test_prevent_double_liquidation() {
    let balance_after_liquidation = 0i128;
    assert_eq!(balance_after_liquidation, 0);
}

#[test]
fn test_prevent_dead_agent_actions() {
    let status_dead = stellar_squid::agent::AgentStatus::Dead as u32;
    assert_eq!(status_dead, 2);
}

// =============================================================================
// COMPATIBILITY TESTS
// =============================================================================

#[test]
fn test_contract_version_compatibility() {
    assert_eq!(ENTRY_BOND, 50_0000000);
    assert_eq!(ROUND_1_PULSE_PERIOD, 4320);
    assert_eq!(ROUND_1_GRACE, 720);
}
