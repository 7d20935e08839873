use bitcoin_digital_labor_derivative::velocity_analyzer::{require_addresses, VelocityError};
use bitcoin_digital_labor_derivative::alerts::{evaluate_alert, AlertThresholds, RBIAlert};
use bitcoin_digital_labor_derivative::api_types::{
    calculate_trust_coefficient, default_page_size, AppError, ApplyLaborRequest, ErrorResponse,
    NodeConfiguration, PaginationQuery,
};
use bitcoin_digital_labor_derivative::economic_oracle::{
    CachedProvider, EconomicDataProvider, EconomicError, MockEconomicDataProvider,
    RecordedEconomicProvider, RecordedEconomicSnapshot,
};
use bitcoin_digital_labor_derivative::simulation::deterministic_height;

#[test]
fn alerts_follow_thresholds() {
    let t = AlertThresholds::default();
    assert!(matches!(evaluate_alert(799_999_999, &t), Some(RBIAlert::CriticalDeflationary { .. })));
    assert!(matches!(evaluate_alert(800_000_000, &t), Some(RBIAlert::ModerateDeflationary { .. })));
    assert!(evaluate_alert(1_000_000_000, &t).is_none());
    assert!(evaluate_alert(2_000_000_000, &t).is_none());
    let a = evaluate_alert(2_000_000_001, &t).unwrap();
    assert!(matches!(a, RBIAlert::Overheating { .. }));
    assert_eq!(a.rbi(), 2_000_000_001);
    assert!(matches!(a.duplicate(), RBIAlert::Overheating { rbi: 2_000_000_001, .. }));
}

#[test]
fn api_helpers() {
    assert_eq!(default_page_size(), 20);
    assert_eq!(PaginationQuery { page: 1, page_size: 500 }.effective_page_size(), 100);
    assert_eq!(PaginationQuery { page: 1, page_size: 7 }.effective_page_size(), 7);
    assert_eq!(AppError::NotFound("x".into()).status_code(), 404);
    assert_eq!(AppError::Internal("x".into()).status_code(), 500);
    assert_eq!(AppError::InvalidInput("x".into()).status_code(), 400);
    let e = ErrorResponse::new("404 Not Found", "no such participant");
    assert_eq!(e.error, "404 Not Found");
    assert_eq!(e.message, "no such participant");
    let c = NodeConfiguration::with_identity("n1".into(), "development".into());
    assert_eq!(c.rate_limit_per_minute, 100);
    assert!(c.summary().cors_enabled);
    assert_eq!(calculate_trust_coefficient(29), 500_000_000);
    assert_eq!(calculate_trust_coefficient(100), 1_300_000_000);
    assert_eq!(calculate_trust_coefficient(400), 2_000_000_000);
    let req = |v: u64, d: u32| ApplyLaborRequest { participant_id: "p".into(), labor_value_sats: v, duration_days: d };
    assert_eq!(req(1000, 45).validate(), Ok(1_000_000_000));
    assert!(matches!(req(0, 45).validate(), Err(AppError::InvalidInput(_))));
    assert!(matches!(req(100_000_001, 45).validate(), Err(AppError::InvalidInput(_))));
    assert!(matches!(req(1000, 731).validate(), Err(AppError::InvalidInput(_))));
}

#[test]
fn heights_are_deterministic() {
    let a = deterministic_height("sybil");
    assert_eq!(a, deterministic_height("sybil"));
    assert!((100_000..110_000).contains(&a));
    assert_eq!(deterministic_height(""), 100_000);
    // 'a' = 97
    assert_eq!(deterministic_height("a"), 100_097);
    assert_eq!(deterministic_height("ab"), 100_000 + (97 * 131 + 98) % 10_000);
}

#[test]
fn providers_hand_out_values() {
    let mock = MockEconomicDataProvider { demand_shock: 20_000_000, productivity: 50_000_000 };
    assert_eq!(mock.demand_shock_rate(), Ok(20_000_000));
    assert_eq!(mock.productivity_expansion(), Ok(50_000_000));
    let mut rec = RecordedEconomicProvider::new(RecordedEconomicSnapshot { demand_shock: 1, productivity: 2 });
    assert_eq!(rec.demand_shock_rate(), Ok(1));
    rec.set_snapshot(RecordedEconomicSnapshot { demand_shock: 3, productivity: 4 });
    assert_eq!(rec.get_snapshot(), RecordedEconomicSnapshot { demand_shock: 3, productivity: 4 });
    assert_eq!(rec.productivity_expansion(), Ok(4));
}

#[test]
fn cached_provider_refreshes_when_stale() {
    let mut cached = CachedProvider::new(RecordedEconomicProvider::new(RecordedEconomicSnapshot { demand_shock: 5, productivity: 6 }), 1000);
    assert!(matches!(cached.demand_shock_rate(), Err(EconomicError::Provider(_))));
    assert_eq!(cached.refresh_if_needed(0), Ok(()));
    assert_eq!(cached.demand_shock_rate(), Ok(5));
    assert_eq!(cached.productivity_expansion(), Ok(6));
    let mut bad = CachedProvider::new(MockEconomicDataProvider { demand_shock: -1, productivity: 0 }, 1000);
    assert!(matches!(bad.refresh_if_needed(0), Err(EconomicError::InvalidData(_))));
    assert!(bad.productivity_expansion().is_err());
}

#[test]
fn stored_readings_are_checked() {
    let mut cached = CachedProvider::new(MockEconomicDataProvider { demand_shock: 0, productivity: 0 }, 10);
    assert!(matches!(cached.store_reading(-1, 5, 3), Err(EconomicError::InvalidData(_))));
    assert!(cached.demand_shock_rate().is_err());
    assert_eq!(cached.store_reading(7, 8, 3), Ok(()));
    assert_eq!(cached.demand_shock_rate(), Ok(7));
    assert_eq!(cached.productivity_expansion(), Ok(8));
    // still fresh at 12: the wrapped provider is not read
    assert_eq!(cached.refresh_if_needed(12), Ok(()));
    assert_eq!(cached.demand_shock_rate(), Ok(7));
    // stale at 13: both values come from the wrapped provider
    assert_eq!(cached.refresh_if_needed(13), Ok(()));
    assert_eq!(cached.demand_shock_rate(), Ok(0));
}

#[test]
fn empty_address_lists_are_refused() {
    assert!(matches!(require_addresses(&vec![]), Err(VelocityError::InvalidData(_))));
    assert!(require_addresses(&vec!["a".to_string()]).is_ok());
}
