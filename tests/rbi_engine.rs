use bitcoin_digital_labor_derivative::alerts::{AlertLevel, AlertThresholds, RBIAlert};
use bitcoin_digital_labor_derivative::economic_oracle::EconomicReading;
use bitcoin_digital_labor_derivative::rbi_engine::{
    DistributionPoolState, ParticipantSnapshot, RBIEngine, RBIError, RbiStatus,
};
use bitcoin_digital_labor_derivative::velocity_config::VelocityConfig;

const TS: i64 = 1_700_000_000;

fn reading(demand_shock: f64, productivity: f64) -> EconomicReading {
    EconomicReading {
        demand_shock: (demand_shock * 1e9).round() as i64,
        productivity: (productivity * 1e9).round() as i64,
        growth_factor: (productivity.exp() * 1e9).round() as i64,
    }
}

fn participant(id: &str, stake: u64, trust: i64) -> ParticipantSnapshot {
    ParticipantSnapshot {
        participant_id: id.to_string(),
        stake_amount_sats: stake,
        trust_coefficient: trust,
    }
}

fn pool(participants: Vec<ParticipantSnapshot>) -> DistributionPoolState {
    DistributionPoolState {
        total_distributed_sats: 1_000_000_000,
        average_participant_velocity: 1_200_000_000,
        epoch_duration_days: 1,
        participants,
    }
}

#[test]
fn rbi_computes() {
    let mut engine = RBIEngine::new();
    let state = pool(vec![participant("alice", 100_000_000, 1_300_000_000)]);
    let snap = engine.calculate_rbi_at(&state, 800_000, TS, &reading(0.02, 0.05)).unwrap();
    assert!(snap.status != RbiStatus::Invalid);
    assert!(snap.is_healthy);
}

#[test]
fn concrete_scenario_values() {
    let mut engine = RBIEngine::new();
    let state = pool(vec![participant("alice", 100_000_000, 1_300_000_000)]);
    let r = reading(0.02, 0.05);
    assert_eq!(r.growth_factor, 1_051_271_096);
    let snap = engine.calculate_rbi_at(&state, 800_000, TS, &r).unwrap();
    // V_dld = 1.2e9 sats/day, T_c = 1.3
    assert_eq!(snap.v_dld, 1_200_000_000_000_000_000);
    assert_eq!(snap.t_c, 1_300_000_000);
    assert_eq!(snap.d_s, 20_000_000);
    assert_eq!(snap.productivity_a, 50_000_000);
    // about 8.2e10
    assert_eq!(snap.rbi_value, 81_999_145_488_000_000_000);
    assert_eq!(snap.status, RbiStatus::Warning);
    // the health flag follows the threshold alone, as the status says Warning
    assert!(snap.is_healthy);
    match snap.alert {
        Some(RBIAlert::Overheating { rbi, .. }) => assert_eq!(rbi, snap.rbi_value),
        other => panic!("expected an overheating alert, got {:?}", other),
    }
    assert_eq!(snap.block_height, 800_000);
    assert_eq!(snap.timestamp, TS);
    assert_eq!(engine.history().len(), 1);
    assert_eq!(engine.latest().unwrap().rbi_value, snap.rbi_value);
}

#[test]
fn empty_pool_is_indeterminate() {
    let mut engine = RBIEngine::new();
    let snap = engine.calculate_rbi_at(&pool(vec![]), 10, TS, &reading(0.02, 0.05)).unwrap();
    assert_eq!(snap.status, RbiStatus::Indeterminate);
    assert!(!snap.is_healthy);
    assert!(snap.alert.is_none());
    assert_eq!(snap.v_dld, 0);
    assert_eq!(snap.t_c, 1_000_000_000);
    assert_eq!(snap.rbi_value, 0);
    assert_eq!(engine.history().len(), 1);
}

#[test]
fn zero_stake_is_indeterminate() {
    let mut engine = RBIEngine::new();
    let state = pool(vec![participant("a", 0, 1_000_000_000), participant("b", 0, -5)]);
    let snap = engine.calculate_rbi_at(&state, 10, TS, &reading(0.5, 0.0)).unwrap();
    assert_eq!(snap.status, RbiStatus::Indeterminate);
    assert!(!snap.is_healthy);
    assert!(snap.alert.is_none());
}

#[test]
fn negligible_demand_is_indeterminate() {
    let mut engine = RBIEngine::new();
    let state = pool(vec![participant("alice", 100_000_000, 1_300_000_000)]);
    let snap = engine.calculate_rbi_at(&state, 10, TS, &reading(0.0, 0.05)).unwrap();
    assert_eq!(snap.status, RbiStatus::Indeterminate);
    assert!(!snap.is_healthy);
    assert!(snap.alert.is_none());
    assert_eq!(snap.v_dld, 1_200_000_000_000_000_000);
    assert_eq!(snap.t_c, 1_300_000_000);
}

#[test]
fn out_of_range_value_is_invalid_zero() {
    let mut engine = RBIEngine::new();
    let mut state = pool(vec![participant("whale", 1, i64::MAX)]);
    state.total_distributed_sats = u64::MAX;
    state.average_participant_velocity = 1_500_000_000;
    let r = EconomicReading { demand_shock: 1, productivity: 0, growth_factor: 1_000_000_000 };
    let snap = engine.calculate_rbi_at(&state, 10, TS, &r).unwrap();
    assert_eq!(snap.status, RbiStatus::Invalid);
    assert_eq!(snap.rbi_value, 0);
    assert!(!snap.is_healthy);
    assert!(snap.alert.is_none());
}

#[test]
fn trust_is_stake_weighted_and_bounded() {
    let mut engine = RBIEngine::new();
    let state = pool(vec![
        participant("a", 300, 1_000_000_000),
        participant("b", 100, 2_000_000_000),
    ]);
    let snap = engine.calculate_rbi_at(&state, 10, TS, &reading(0.02, 0.0)).unwrap();
    assert_eq!(snap.t_c, 1_250_000_000);
    assert!(snap.t_c >= 1_000_000_000 && snap.t_c <= 2_000_000_000);
}

#[test]
fn velocity_is_clamped_to_bounds() {
    let mut engine = RBIEngine::new();
    let mut state = pool(vec![participant("a", 1, 1_000_000_000)]);
    state.average_participant_velocity = 9_000_000_000;
    state.epoch_duration_days = 4;
    let snap = engine.calculate_rbi_at(&state, 10, TS, &reading(0.02, 0.0)).unwrap();
    assert_eq!(snap.v_dld, 1_000_000_000u128 * 1_500_000_000 / 4);
}

#[test]
fn low_values_raise_deflation_alerts() {
    let mut engine = RBIEngine::new();
    let mut state = pool(vec![participant("a", 1, 1_000_000_000)]);
    state.total_distributed_sats = 1;
    state.average_participant_velocity = 1_000_000_000;
    // rbi = 1 * 1 * 1 / 1.0 = 1.0 at the warning threshold: healthy
    let r = EconomicReading { demand_shock: 1_000_000_000, productivity: 0, growth_factor: 1_000_000_000 };
    let snap = engine.calculate_rbi_at(&state, 10, TS, &r).unwrap();
    assert_eq!(snap.rbi_value, 1_000_000_000);
    assert_eq!(snap.status, RbiStatus::Healthy);
    assert!(snap.is_healthy);
    assert!(snap.alert.is_none());
    // rbi = 0.9: warning, moderate alert
    let r = EconomicReading { demand_shock: 1_000_000_000, productivity: 0, growth_factor: 900_000_000 };
    let snap = engine.calculate_rbi_at(&state, 11, TS, &r).unwrap();
    assert_eq!(snap.status, RbiStatus::Warning);
    assert!(!snap.is_healthy);
    assert!(matches!(snap.alert, Some(RBIAlert::ModerateDeflationary { .. })));
    // rbi = 0.5: critical
    let r = EconomicReading { demand_shock: 2_000_000_000, productivity: 0, growth_factor: 1_000_000_000 };
    let snap = engine.calculate_rbi_at(&state, 12, TS, &r).unwrap();
    assert_eq!(snap.status, RbiStatus::Critical);
    assert!(matches!(snap.alert, Some(RBIAlert::CriticalDeflationary { .. })));
    assert_eq!(engine.history().len(), 3);
    assert_eq!(engine.history()[0].block_height, 10);
    assert_eq!(engine.history()[2].block_height, 12);
}

#[test]
fn rejected_calls_leave_history_alone() {
    let mut engine = RBIEngine::new();
    let good = reading(0.02, 0.05);
    let mut state = pool(vec![participant("a", 10, 1_000_000_000)]);
    state.epoch_duration_days = 0;
    assert!(matches!(engine.calculate_rbi_at(&state, 1, TS, &good), Err(RBIError::InvalidState(_))));

    let state = pool(vec![participant("a", 10, 1_000_000_000)]);
    let negative = EconomicReading { demand_shock: -1, ..good };
    assert!(matches!(engine.calculate_rbi_at(&state, 1, TS, &negative), Err(RBIError::InvalidState(_))));

    let state = pool(vec![participant("a", 10, 0)]);
    assert!(matches!(engine.calculate_rbi_at(&state, 1, TS, &good), Err(RBIError::InvalidState(_))));

    let mut state = pool(vec![participant("a", 10, 1_000_000_000)]);
    state.average_participant_velocity = 0;
    assert!(matches!(engine.calculate_rbi_at(&state, 1, TS, &good), Err(RBIError::InvalidState(_))));

    let state = pool(vec![participant("a", u64::MAX, 1), participant("b", 1, 1)]);
    assert!(matches!(engine.calculate_rbi_at(&state, 1, TS, &good), Err(RBIError::InvalidState(_))));

    let state = pool(vec![participant("a", 10, 1_000_000_000)]);
    let no_growth = EconomicReading { growth_factor: 0, ..good };
    assert!(matches!(engine.calculate_rbi_at(&state, 1, TS, &no_growth), Err(RBIError::Calculation(_))));

    let cfg = VelocityConfig {
        min_velocity_multiplier: -2_000_000_000,
        max_velocity_multiplier: -1_000_000_000,
        ..VelocityConfig::default()
    };
    let mut negative_engine = RBIEngine::new().with_velocity_config(cfg);
    let state = pool(vec![participant("a", 10, 1_000_000_000)]);
    assert!(matches!(negative_engine.calculate_rbi_at(&state, 1, TS, &good), Err(RBIError::InvalidState(_))));

    assert_eq!(engine.history().len(), 0);
    assert!(engine.latest().is_none());
    assert_eq!(negative_engine.history().len(), 0);
}

#[test]
fn custom_thresholds_drive_status() {
    let thresholds = AlertThresholds { critical_low: 0, warning_low: 0, overheating_high: i64::MAX };
    let mut engine = RBIEngine::new().with_thresholds(thresholds);
    let state = pool(vec![participant("alice", 100_000_000, 1_300_000_000)]);
    let snap = engine.calculate_rbi_at(&state, 1, TS, &reading(0.02, 0.05)).unwrap();
    assert_eq!(snap.status, RbiStatus::Warning);
    let thresholds = AlertThresholds { critical_low: 0, warning_low: 0, overheating_high: 0 };
    let alert = bitcoin_digital_labor_derivative::alerts::evaluate_alert(1, &thresholds);
    assert!(matches!(alert, Some(RBIAlert::Overheating { rbi: 1, .. })));
    assert_eq!(AlertLevel::Overheating, AlertLevel::Overheating);
    assert_eq!(RbiStatus::Indeterminate.as_str(), "indeterminate");
}

#[test]
fn large_distributions_stay_in_range() {
    let mut engine = RBIEngine::new();
    let mut state = pool(vec![participant("alice", 100_000_000, 1_300_000_000)]);
    // 10,000 BTC in one day
    state.total_distributed_sats = 1_000_000_000_000;
    let snap = engine.calculate_rbi_at(&state, 800_000, TS, &reading(0.02, 0.05)).unwrap();
    assert_eq!(snap.status, RbiStatus::Warning);
    assert_eq!(snap.rbi_value, 81_999_145_488_000_000_000_000);
}
