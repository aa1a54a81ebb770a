//! Registry flows across several operations: seasons, pulses, wounds,
//! liquidations, withdrawals, prize claims and queries.

use stellar_squid::ids::{Address, AddressKind, AgentId};
use stellar_squid::registry::{AgentRecord, AgentStatus, AgentSummary, Error, GameRegistry, SeasonState};
use stellar_squid::rounds::{
    ENTRY_BOND, ROUND_1_COST, ROUND_1_DURATION, ROUND_1_PULSE_PERIOD, ROUND_2_COST,
    ROUND_2_DURATION, ROUND_2_PULSE_PERIOD, ROUND_3_COST, ROUND_3_DURATION, ROUND_3_PULSE_PERIOD,
    ROUND_4_COST, ROUND_4_DURATION, ROUND_4_PULSE_PERIOD, ROUND_5_COST, ROUND_5_DURATION,
    ROUND_5_PULSE_PERIOD,
};

// =============================================================================
// TEST HELPERS
// =============================================================================

/// A registry together with the ledger it runs at.
struct Client {
    reg: GameRegistry,
    ledger: u32,
    next_address: u8,
}

impl Client {
    fn generate_address(&mut self) -> Address {
        self.next_address = self.next_address.wrapping_add(1);
        Address { kind: AddressKind::Contract, key: [self.next_address; 32] }
    }

    fn init(&mut self, fee: &Address) {
        self.reg.init(*fee);
    }

    fn init_season(&mut self) -> u32 {
        self.reg.init_season(self.ledger).unwrap()
    }

    fn try_init_season(&mut self) -> Result<u32, Error> {
        self.reg.init_season(self.ledger)
    }

    fn register(&mut self, contract: &Address, id: &AgentId) {
        self.reg.register(*contract, *id, self.ledger).unwrap()
    }

    fn try_register(&mut self, contract: &Address, id: &AgentId) -> Result<(), Error> {
        self.reg.register(*contract, *id, self.ledger)
    }

    fn advance_round(&mut self) -> u32 {
        self.reg.advance_round(self.ledger).unwrap()
    }

    fn try_advance_round(&mut self) -> Result<u32, Error> {
        self.reg.advance_round(self.ledger)
    }

    fn update_agent_pulse(&mut self, id: &AgentId, amount: &i128, is_late: &bool) {
        self.reg.update_agent_pulse(id, *amount, *is_late, self.ledger).unwrap()
    }

    fn try_update_agent_pulse(&mut self, id: &AgentId, amount: &i128, is_late: &bool) -> Result<(), Error> {
        self.reg.update_agent_pulse(id, *amount, *is_late, self.ledger)
    }

    fn mark_agent_dead(&mut self, id: &AgentId) {
        self.reg.mark_agent_dead(id).unwrap()
    }

    fn try_mark_agent_dead(&mut self, id: &AgentId) -> Result<(), Error> {
        self.reg.mark_agent_dead(id)
    }

    fn transfer_kill_reward(&mut self, dead: &AgentId, killer: &AgentId) -> i128 {
        self.reg.transfer_kill_reward(dead, killer).unwrap()
    }

    fn try_transfer_kill_reward(&mut self, dead: &AgentId, killer: &AgentId) -> Result<i128, Error> {
        self.reg.transfer_kill_reward(dead, killer)
    }

    fn process_withdrawal(&mut self, id: &AgentId) -> i128 {
        self.reg.process_withdrawal(id).unwrap()
    }

    fn try_process_withdrawal(&mut self, id: &AgentId) -> Result<i128, Error> {
        self.reg.process_withdrawal(id)
    }

    fn claim_prize(&mut self, id: &AgentId) -> i128 {
        self.reg.claim_prize(id).unwrap()
    }

    fn try_claim_prize(&mut self, id: &AgentId) -> Result<i128, Error> {
        self.reg.claim_prize(id)
    }

    fn get_all_agents(&self) -> Vec<AgentSummary> {
        self.reg.get_all_agents(self.ledger)
    }

    fn get_vulnerable_agents(&self) -> Vec<AgentSummary> {
        self.reg.get_vulnerable_agents(self.ledger)
    }

    fn get_dead_agents(&self) -> Vec<AgentSummary> {
        self.reg.get_dead_agents(self.ledger)
    }

    fn get_agent_detail(&self, id: &AgentId) -> AgentRecord {
        self.reg.get_agent_detail(id).unwrap()
    }

    fn get_season_state(&self) -> SeasonState {
        self.reg.get_season_state().unwrap()
    }

    fn get_protocol_fee_address(&self) -> Address {
        self.reg.get_protocol_fee_address().unwrap()
    }

    fn get_prize_pool(&self) -> i128 {
        self.reg.get_prize_pool()
    }
}

fn new_client() -> Client {
    Client { reg: GameRegistry::new(), ledger: 0, next_address: 0 }
}

fn setup_contract() -> (Client, Address) {
    let mut client = new_client();
    let protocol_fee_address = client.generate_address();
    client.init(&protocol_fee_address);
    (client, protocol_fee_address)
}

fn create_agent(client: &mut Client, id_byte: u8) -> (Address, AgentId) {
    let agent_contract = client.generate_address();
    let agent_id = [id_byte; 32];
    (agent_contract, agent_id)
}

fn advance_ledger(client: &mut Client, ledgers: u32) {
    client.ledger += ledgers;
}

fn register_agent(client: &mut Client, id_byte: u8) -> (Address, AgentId) {
    let (contract, id) = create_agent(client, id_byte);
    client.register(&contract, &id);
    (contract, id)
}

fn end_season(client: &mut Client) {
    let durations = [ROUND_1_DURATION, ROUND_2_DURATION, ROUND_3_DURATION, ROUND_4_DURATION, ROUND_5_DURATION];
    for duration in durations.iter() {
        advance_ledger(client, duration + 1);
        client.advance_round();
    }
}

// =============================================================================
// BASIC FLOWS
// =============================================================================

#[test]
fn test_registry_initialization_integration() {
    let (client, protocol_fee_address) = setup_contract();
    assert_eq!(client.get_protocol_fee_address(), protocol_fee_address);
    assert_eq!(client.get_prize_pool(), 0);
}

#[test]
fn test_season_lifecycle_integration() {
    let (mut client, _) = setup_contract();
    let season_id = client.init_season();
    assert_eq!(season_id, 1);
    let _ = register_agent(&mut client, 1);
    assert_eq!(client.get_all_agents().len(), 1);
    end_season(&mut client);
    assert!(client.get_season_state().season_ended);
    assert_eq!(client.init_season(), 2);
}

#[test]
fn test_agent_registration_flow_integration() {
    let (mut client, _) = setup_contract();
    client.init_season();
    let agents: Vec<(Address, AgentId)> = (0..5).map(|i| register_agent(&mut client, i as u8)).collect();
    assert_eq!(client.get_all_agents().len(), 5);
    for (_, agent_id) in agents.iter() {
        let detail = client.get_agent_detail(agent_id);
        assert_eq!(detail.status, AgentStatus::Alive);
        assert_eq!(detail.heart_balance, ENTRY_BOND);
        assert_eq!(detail.season_id, 1);
    }
}

#[test]
fn test_pulse_updates_integration() {
    let (mut client, _) = setup_contract();
    client.init_season();
    let (_, agent_id) = register_agent(&mut client, 1);
    let initial_prize_pool = client.get_prize_pool();
    let agent_before = client.get_agent_detail(&agent_id);
    client.update_agent_pulse(&agent_id, &ROUND_1_COST, &false);
    assert!(client.get_prize_pool() > initial_prize_pool);
    let agent_after = client.get_agent_detail(&agent_id);
    assert_eq!(agent_after.streak_count, agent_before.streak_count + 1);
    assert!(agent_after.activity_score > agent_before.activity_score);
    assert_eq!(agent_after.total_spent, agent_before.total_spent + ROUND_1_COST);
}

#[test]
fn test_late_pulse_wound_integration() {
    let (mut client, _) = setup_contract();
    client.init_season();
    let (_, agent_id) = register_agent(&mut client, 1);
    let agent_before = client.get_agent_detail(&agent_id);
    assert_eq!(agent_before.status, AgentStatus::Alive);
    assert_eq!(agent_before.wound_count, 0);
    client.update_agent_pulse(&agent_id, &ROUND_1_COST, &true);
    let agent_after = client.get_agent_detail(&agent_id);
    assert_eq!(agent_after.status, AgentStatus::Wounded);
    assert_eq!(agent_after.wound_count, 1);
    assert_eq!(agent_after.streak_count, 0);
}

#[test]
fn test_wound_recovery_integration() {
    let (mut client, _) = setup_contract();
    client.init_season();
    let (_, agent_id) = register_agent(&mut client, 1);
    client.update_agent_pulse(&agent_id, &ROUND_1_COST, &true);
    assert_eq!(client.get_agent_detail(&agent_id).status, AgentStatus::Wounded);
    client.update_agent_pulse(&agent_id, &ROUND_1_COST, &false);
    assert_eq!(client.get_agent_detail(&agent_id).status, AgentStatus::Wounded);
    client.update_agent_pulse(&agent_id, &ROUND_1_COST, &false);
    assert_eq!(client.get_agent_detail(&agent_id).status, AgentStatus::Alive);
}

// =============================================================================
// LIQUIDATION FLOWS
// =============================================================================

#[test]
fn test_liquidation_flow_integration() {
    let (mut client, _) = setup_contract();
    client.init_season();
    let (_, killer_id) = register_agent(&mut client, 1);
    let (_, victim_id) = register_agent(&mut client, 2);
    let killer_before = client.get_agent_detail(&killer_id);
    let victim_before = client.get_agent_detail(&victim_id);
    client.mark_agent_dead(&victim_id);
    assert_eq!(client.get_agent_detail(&victim_id).status, AgentStatus::Dead);
    let reward = client.transfer_kill_reward(&victim_id, &killer_id);
    assert_eq!(reward, victim_before.heart_balance);
    let killer_after = client.get_agent_detail(&killer_id);
    let victim_after = client.get_agent_detail(&victim_id);
    assert_eq!(killer_after.heart_balance, killer_before.heart_balance + victim_before.heart_balance);
    assert_eq!(victim_after.heart_balance, 0);
    assert_eq!(killer_after.kill_count, 1);
    assert_eq!(killer_after.total_earned, victim_before.heart_balance);
}

#[test]
fn test_multiple_liquidations_integration() {
    let (mut client, _) = setup_contract();
    client.init_season();
    let (_, killer_id) = register_agent(&mut client, 1);
    let (_, victim1_id) = register_agent(&mut client, 2);
    let (_, victim2_id) = register_agent(&mut client, 3);
    client.mark_agent_dead(&victim1_id);
    client.mark_agent_dead(&victim2_id);
    let _ = client.transfer_kill_reward(&victim1_id, &killer_id);
    let _ = client.transfer_kill_reward(&victim2_id, &killer_id);
    assert_eq!(client.get_agent_detail(&killer_id).kill_count, 2);
    assert_eq!(client.get_agent_detail(&victim1_id).heart_balance, 0);
    assert_eq!(client.get_agent_detail(&victim2_id).heart_balance, 0);
}

// =============================================================================
// WITHDRAWAL FLOWS
// =============================================================================

#[test]
fn test_withdrawal_flow_integration() {
    let (mut client, _) = setup_contract();
    client.init_season();
    let (_, agent_id) = register_agent(&mut client, 1);
    let prize_pool_before = client.get_prize_pool();
    let refund = client.process_withdrawal(&agent_id);
    assert_eq!(refund, ENTRY_BOND * 80 / 100);
    assert_eq!(client.get_prize_pool(), prize_pool_before + ENTRY_BOND * 20 / 100);
    let agent = client.get_agent_detail(&agent_id);
    assert_eq!(agent.status, AgentStatus::Withdrawn);
    assert_eq!(agent.heart_balance, 0);
}

#[test]
fn test_withdrawal_then_liquidation_integration() {
    let (mut client, _) = setup_contract();
    client.init_season();
    let (_, _killer_id) = register_agent(&mut client, 1);
    let (_, victim_id) = register_agent(&mut client, 2);
    let refund = client.process_withdrawal(&victim_id);
    assert_eq!(refund, ENTRY_BOND * 80 / 100);
    let victim = client.get_agent_detail(&victim_id);
    assert_eq!(victim.status, AgentStatus::Withdrawn);
    assert_eq!(victim.heart_balance, 0);
}

// =============================================================================
// PRIZE CLAIM FLOWS
// =============================================================================

#[test]
fn test_prize_claim_flow_integration() {
    let (mut client, _) = setup_contract();
    client.init_season();
    let (_, agent_id) = register_agent(&mut client, 1);
    client.update_agent_pulse(&agent_id, &(ENTRY_BOND * 2), &false);
    end_season(&mut client);
    let state = client.get_season_state();
    assert!(state.season_ended);
    assert!(state.prize_pool > 0);
    let prize = client.claim_prize(&agent_id);
    assert!(prize > 0);
    let agent = client.get_agent_detail(&agent_id);
    assert_eq!(agent.heart_balance, ENTRY_BOND - (ENTRY_BOND * 2 * 10 / 100) + prize);
}

#[test]
fn test_prize_distribution_proportional_integration() {
    let (mut client, _) = setup_contract();
    client.init_season();
    let (_, agent1_id) = register_agent(&mut client, 1);
    let (_, agent2_id) = register_agent(&mut client, 2);
    for _ in 0..10 {
        client.update_agent_pulse(&agent1_id, &ROUND_1_COST, &false);
    }
    for _ in 0..3 {
        client.update_agent_pulse(&agent2_id, &ROUND_1_COST, &false);
    }
    let agent1_before = client.get_agent_detail(&agent1_id);
    let agent2_before = client.get_agent_detail(&agent2_id);
    assert!(agent1_before.activity_score > agent2_before.activity_score);
    end_season(&mut client);
    let prize1 = client.claim_prize(&agent1_id);
    let prize2 = client.claim_prize(&agent2_id);
    assert!(prize1 > prize2);
}

// =============================================================================
// ROUND TRANSITIONS
// =============================================================================

#[test]
fn test_round_transition_integration() {
    let (mut client, _) = setup_contract();
    client.init_season();
    let state = client.get_season_state();
    assert_eq!(state.current_round, 1);
    assert_eq!(state.pulse_cost, ROUND_1_COST);
    advance_ledger(&mut client, ROUND_1_DURATION + 1);
    client.advance_round();
    let state = client.get_season_state();
    assert_eq!(state.current_round, 2);
    assert_eq!(state.pulse_cost, ROUND_2_COST);
}

#[test]
fn test_all_rounds_transition_integration() {
    let (mut client, _) = setup_contract();
    client.init_season();
    let _ = register_agent(&mut client, 1);
    let rounds = [
        (1u32, ROUND_1_COST, ROUND_1_PULSE_PERIOD),
        (2, ROUND_2_COST, ROUND_2_PULSE_PERIOD),
        (3, ROUND_3_COST, ROUND_3_PULSE_PERIOD),
        (4, ROUND_4_COST, ROUND_4_PULSE_PERIOD),
        (5, ROUND_5_COST, ROUND_5_PULSE_PERIOD),
    ];
    let durations = [ROUND_1_DURATION, ROUND_2_DURATION, ROUND_3_DURATION, ROUND_4_DURATION, ROUND_5_DURATION];
    for (i, (expected_round, expected_cost, expected_period)) in rounds.iter().enumerate() {
        let state = client.get_season_state();
        assert_eq!(state.current_round, *expected_round);
        assert_eq!(state.pulse_cost, *expected_cost);
        assert_eq!(state.pulse_period, *expected_period);
        if i < rounds.len() - 1 {
            advance_ledger(&mut client, durations[i] + 1);
            client.advance_round();
        }
    }
}

// =============================================================================
// QUERIES
// =============================================================================

#[test]
fn test_dead_agents_query_integration() {
    let (mut client, _) = setup_contract();
    client.init_season();
    let (_, agent1_id) = register_agent(&mut client, 1);
    let (_, agent2_id) = register_agent(&mut client, 2);
    let _ = register_agent(&mut client, 3);
    assert_eq!(client.get_dead_agents().len(), 0);
    client.mark_agent_dead(&agent1_id);
    let dead = client.get_dead_agents();
    assert_eq!(dead.len(), 1);
    assert_eq!(dead[0].agent_id, agent1_id);
    client.mark_agent_dead(&agent2_id);
    assert_eq!(client.get_dead_agents().len(), 2);
}

#[test]
fn test_dead_agents_excludes_liquidated_integration() {
    let (mut client, _) = setup_contract();
    client.init_season();
    let (_, killer_id) = register_agent(&mut client, 1);
    let (_, victim_id) = register_agent(&mut client, 2);
    client.mark_agent_dead(&victim_id);
    let _ = client.transfer_kill_reward(&victim_id, &killer_id);
    assert_eq!(client.get_dead_agents().len(), 0);
}

#[test]
fn test_season_state_updates_integration() {
    let (mut client, _) = setup_contract();
    client.init_season();
    let state = client.get_season_state();
    assert_eq!(state.total_agents, 0);
    assert_eq!(state.alive_agents, 0);
    assert_eq!(state.dead_agents, 0);
    let (_, agent1_id) = register_agent(&mut client, 1);
    let (_, agent2_id) = register_agent(&mut client, 2);
    let (_, agent3_id) = register_agent(&mut client, 3);
    let state = client.get_season_state();
    assert_eq!(state.total_agents, 3);
    assert_eq!(state.alive_agents, 3);
    client.update_agent_pulse(&agent1_id, &ROUND_1_COST, &true);
    assert_eq!(client.get_season_state().alive_agents, 3);
    client.mark_agent_dead(&agent2_id);
    let state = client.get_season_state();
    assert_eq!(state.alive_agents, 2);
    assert_eq!(state.dead_agents, 1);
    let _ = client.process_withdrawal(&agent3_id);
    assert_eq!(client.get_season_state().alive_agents, 1);
}

// =============================================================================
// ERRORS
// =============================================================================

#[test]
fn test_double_registration_fails_integration() {
    let (mut client, _) = setup_contract();
    client.init_season();
    let (contract, agent_id) = create_agent(&mut client, 1);
    client.register(&contract, &agent_id);
    assert!(client.try_register(&contract, &agent_id).is_err());
}

#[test]
fn test_liquidate_alive_agent_fails_integration() {
    let (mut client, _) = setup_contract();
    client.init_season();
    let (_, killer_id) = register_agent(&mut client, 1);
    let (_, victim_id) = register_agent(&mut client, 2);
    assert!(client.try_transfer_kill_reward(&victim_id, &killer_id).is_err());
}

#[test]
fn test_double_liquidation_fails_integration() {
    let (mut client, _) = setup_contract();
    client.init_season();
    let (_, killer_id) = register_agent(&mut client, 1);
    let (_, victim_id) = register_agent(&mut client, 2);
    client.mark_agent_dead(&victim_id);
    let _ = client.transfer_kill_reward(&victim_id, &killer_id);
    assert!(client.try_transfer_kill_reward(&victim_id, &killer_id).is_err());
}

#[test]
fn test_claim_prize_before_season_end_fails_integration() {
    let (mut client, _) = setup_contract();
    client.init_season();
    let (_, agent_id) = register_agent(&mut client, 1);
    assert!(client.try_claim_prize(&agent_id).is_err());
}

#[test]
fn test_dead_agent_claim_prize_fails_integration() {
    let (mut client, _) = setup_contract();
    client.init_season();
    let (_, agent_id) = register_agent(&mut client, 1);
    client.mark_agent_dead(&agent_id);
    end_season(&mut client);
    assert!(client.try_claim_prize(&agent_id).is_err());
}

#[test]
fn test_withdrawn_agent_claim_prize_fails_integration() {
    let (mut client, _) = setup_contract();
    client.init_season();
    let (_, agent_id) = register_agent(&mut client, 1);
    let _ = client.process_withdrawal(&agent_id);
    end_season(&mut client);
    assert!(client.try_claim_prize(&agent_id).is_err());
}

// =============================================================================
// COMPLETE GAMES
// =============================================================================

#[test]
fn test_complete_game_single_agent_integration() {
    let (mut client, _) = setup_contract();
    client.init_season();
    let (_, agent_id) = register_agent(&mut client, 1);
    for _ in 0..5 {
        client.update_agent_pulse(&agent_id, &ROUND_1_COST, &false);
    }
    end_season(&mut client);
    assert!(client.get_season_state().season_ended);
    let prize = client.claim_prize(&agent_id);
    assert!(prize >= 0);
    assert_eq!(client.get_agent_detail(&agent_id).status, AgentStatus::Alive);
}

#[test]
fn test_complete_game_with_killer_integration() {
    let (mut client, _) = setup_contract();
    client.init_season();
    let (_, killer_id) = register_agent(&mut client, 1);
    let victims: Vec<AgentId> = (2..6).map(|i| register_agent(&mut client, i as u8).1).collect();
    for _ in 0..3 {
        client.update_agent_pulse(&killer_id, &ROUND_1_COST, &false);
    }
    for victim_id in victims.iter() {
        client.mark_agent_dead(victim_id);
        let _ = client.transfer_kill_reward(victim_id, &killer_id);
    }
    let killer = client.get_agent_detail(&killer_id);
    assert_eq!(killer.kill_count, 4);
    assert_eq!(killer.total_earned, ENTRY_BOND * 4);
    assert!(killer.heart_balance > ENTRY_BOND);
    end_season(&mut client);
    let prize = client.claim_prize(&killer_id);
    assert!(prize > 0);
    assert!(client.get_agent_detail(&killer_id).heart_balance > ENTRY_BOND * 4);
}

#[test]
fn test_multi_season_integration() {
    let (mut client, _) = setup_contract();
    client.init_season();
    let (_, agent1_s1) = register_agent(&mut client, 1);
    client.update_agent_pulse(&agent1_s1, &ROUND_1_COST, &false);
    end_season(&mut client);
    assert!(client.claim_prize(&agent1_s1) >= 0);
    assert_eq!(client.init_season(), 2);
    let (_, agent1_s2) = register_agent(&mut client, 2);
    client.update_agent_pulse(&agent1_s2, &ROUND_1_COST, &false);
    end_season(&mut client);
    assert!(client.claim_prize(&agent1_s2) >= 0);
    assert_eq!(client.init_season(), 3);
    let state = client.get_season_state();
    assert_eq!(state.season_id, 3);
    assert_eq!(state.current_round, 1);
}

// =============================================================================
// EDGE CASES
// =============================================================================

#[test]
fn test_agent_pulses_exactly_at_deadline_integration() {
    let (mut client, _) = setup_contract();
    client.init_season();
    let (_, agent_id) = register_agent(&mut client, 1);
    let deadline = client.get_agent_detail(&agent_id).deadline_ledger;
    client.ledger = deadline;
    client.update_agent_pulse(&agent_id, &ROUND_1_COST, &false);
    assert_eq!(client.get_agent_detail(&agent_id).status, AgentStatus::Alive);
}

#[test]
fn test_agent_pulses_exactly_at_grace_deadline_integration() {
    let (mut client, _) = setup_contract();
    client.init_season();
    let (_, agent_id) = register_agent(&mut client, 1);
    let grace_deadline = client.get_agent_detail(&agent_id).grace_deadline;
    client.ledger = grace_deadline;
    client.update_agent_pulse(&agent_id, &ROUND_1_COST, &true);
    assert_eq!(client.get_agent_detail(&agent_id).status, AgentStatus::Wounded);
}

#[test]
fn test_zero_prize_pool_claim_integration() {
    let (mut client, _) = setup_contract();
    client.init_season();
    let (_, agent_id) = register_agent(&mut client, 1);
    end_season(&mut client);
    assert!(client.try_claim_prize(&agent_id).is_err());
}

#[test]
fn test_single_survivor_gets_all_prize_integration() {
    let (mut client, _) = setup_contract();
    client.init_season();
    let (_, agent_id) = register_agent(&mut client, 1);
    let large_pulse = 100_0000000i128;
    client.update_agent_pulse(&agent_id, &large_pulse, &false);
    let expected_prize = large_pulse * 5 / 100;
    end_season(&mut client);
    assert_eq!(client.claim_prize(&agent_id), expected_prize);
}

#[test]
fn test_all_agents_withdraw_integration() {
    let (mut client, _) = setup_contract();
    client.init_season();
    let agents: Vec<(Address, AgentId)> = (0..5).map(|i| register_agent(&mut client, i as u8)).collect();
    let mut total_refunds = 0i128;
    for (_, agent_id) in agents.iter() {
        total_refunds += client.process_withdrawal(agent_id);
    }
    assert_eq!(total_refunds, ENTRY_BOND * 5 * 80 / 100);
    assert_eq!(client.get_prize_pool(), ENTRY_BOND * 5 * 20 / 100);
    for (_, agent_id) in agents.iter() {
        assert_eq!(client.get_agent_detail(agent_id).status, AgentStatus::Withdrawn);
    }
    end_season(&mut client);
    for (_, agent_id) in agents.iter() {
        assert!(client.try_claim_prize(agent_id).is_err());
    }
}
