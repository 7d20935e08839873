use bitcoin_digital_labor_derivative::economic_oracle::EconomicReading;
use bitcoin_digital_labor_derivative::rbi_engine::RbiStatus;
use bitcoin_digital_labor_derivative::scenarios::{
    address_reuse_sybil_attempt, all_scenarios, demand_shock_near_zero,
    future_height_utxo_corruption, long_inactivity_stale_utxos, run_all_scenarios,
    single_dominant_actor, wash_activity_self_churn, zero_participation_zero_stake,
};
use bitcoin_digital_labor_derivative::simulation::{
    ensure_unique_addresses, evaluate_invariants, execute_step, run_scenario, sort_participants,
    SimulationParticipant, SimulationStepInput,
};
use bitcoin_digital_labor_derivative::alerts::AlertThresholds;
use bitcoin_digital_labor_derivative::velocity_config::VelocityConfig;

#[test]
fn simulation_reports_are_deterministic() {
    let report_a = run_all_scenarios();
    let report_b = run_all_scenarios();
    assert_eq!(report_a, report_b);
}

#[test]
fn demand_shock_near_zero_not_healthy() {
    let scenario = demand_shock_near_zero();
    let report = run_scenario(&scenario);
    for step in report.steps {
        assert_eq!(step.is_healthy, Some(false));
        assert!(step.rbi_status.is_some());
    }
}

#[test]
fn zero_participants_not_healthy() {
    let scenario = zero_participation_zero_stake();
    let report = run_scenario(&scenario);
    for step in report.steps {
        assert_eq!(step.participant_count, 0);
        assert_eq!(step.total_stake_sats, 0);
        assert_eq!(step.is_healthy, Some(false));
    }
}

#[test]
fn address_reuse_rejected() {
    let scenario = address_reuse_sybil_attempt();
    let report = run_scenario(&scenario);
    let step = &report.steps[0];
    let error = step.error.as_ref().expect("expected error");
    assert!(error.contains("address reused"));
}

#[test]
fn future_height_output_counts_as_new() {
    // an output above the step's height has age 0
    let report = run_scenario(&future_height_utxo_corruption());
    let step = &report.steps[0];
    assert!(step.error.is_none());
    assert!(step.rbi_status.is_some());
    // freshness 1.0 * 0.6, no activity: multiplier 1.3
    assert_eq!(step.average_velocity, Some(1_300_000_000));
}

#[test]
fn scenarios_run_without_broken_expectations() {
    let report = run_all_scenarios();
    assert_eq!(report.scenarios.len(), 7);
    for scenario in &report.scenarios {
        for v in &scenario.invariants {
            assert_eq!(v.kind, "step_error", "{}: {}", scenario.name, v.message);
        }
    }
    let names: Vec<String> = all_scenarios().into_iter().map(|s| s.name).collect();
    assert_eq!(names[0], "zero_participation_zero_stake");
    assert_eq!(names[6], "long_inactivity_stale_utxos");
    let sybil = &report.scenarios[3];
    assert_eq!(sybil.invariants.len(), 1);
}

#[test]
fn scenario_outcomes() {
    let churn = run_scenario(&wash_activity_self_churn());
    assert_eq!(churn.steps.len(), 2);
    // one block old, activity over the threshold
    assert_eq!(churn.steps[0].average_velocity, Some(1_499_930_571));
    let whale = run_scenario(&single_dominant_actor());
    assert_eq!(whale.steps[0].participant_count, 2);
    assert_eq!(whale.steps[0].total_stake_sats, 910_000_000);
    let sleeper = run_scenario(&long_inactivity_stale_utxos());
    let v = sleeper.steps[0].average_velocity.unwrap();
    assert!(v > 1_000_000_000 && v < 1_100_000_000);
    assert_eq!(sleeper.steps[0].rbi_status, Some(RbiStatus::Warning));
}

fn person(id: &str, stake: u64, addresses: &[&str]) -> SimulationParticipant {
    SimulationParticipant {
        participant_id: id.to_string(),
        stake_sats: stake,
        trust_coefficient: 1_000_000_000,
        addresses: addresses.iter().map(|a| a.to_string()).collect(),
    }
}

#[test]
fn participants_sorted_and_checked() {
    let sorted = sort_participants(vec![person("carol", 1, &["c"]), person("alice", 2, &["a"]), person("bob", 3, &["b"])]);
    let ids: Vec<&str> = sorted.iter().map(|p| p.participant_id.as_str()).collect();
    assert_eq!(ids, vec!["alice", "bob", "carol"]);
    assert!(ensure_unique_addresses(&sorted).is_ok());
    // one participant may list an address twice
    assert!(ensure_unique_addresses(&vec![person("a", 1, &["x", "x"]), person("a", 1, &["x"])]).is_ok());
    assert!(ensure_unique_addresses(&vec![person("a", 1, &["x", "y"]), person("b", 1, &["z", "y"])]).is_err());
}

#[test]
fn step_results_are_order_independent() {
    let step = |ps: Vec<SimulationParticipant>| SimulationStepInput {
        step_index: 4,
        block_height: 1_000,
        total_distributed_sats: 1_000_000,
        epoch_duration_days: 2,
        participants: ps,
        utxos: vec![],
        activities: vec![],
        economic: EconomicReading { demand_shock: 20_000_000, productivity: 0, growth_factor: 1_000_000_000 },
    };
    let cfg = VelocityConfig::default();
    let t = AlertThresholds::default();
    let a = execute_step(&step(vec![person("a", 10, &["x"]), person("b", 30, &["y"])]), &cfg, &t);
    let b = execute_step(&step(vec![person("b", 30, &["y"]), person("a", 10, &["x"])]), &cfg, &t);
    assert_eq!(a.rbi_snapshot.as_ref().unwrap().rbi_value, b.rbi_snapshot.as_ref().unwrap().rbi_value);
    assert_eq!(a.total_stake_sats, 40);
    assert_eq!(a.rbi_snapshot.as_ref().unwrap().timestamp, 4);
    assert!(evaluate_invariants(&a).is_empty());
    let unknown = execute_step(&step(vec![person("a", 10, &[])]), &cfg, &t);
    assert!(unknown.error.is_some());
    assert_eq!(evaluate_invariants(&unknown)[0].kind, "step_error");
}
