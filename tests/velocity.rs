use bitcoin_digital_labor_derivative::utxo_scoring::{
    utxo_freshness_score, weighted_utxo_age_days, UtxoEntry,
};
use bitcoin_digital_labor_derivative::velocity_analyzer::{
    score_velocity, tx_frequency_score, velocity_multiplier, velocity_score, ChainDataSource,
    ParticipantRegistry, TxActivity, VelocityAnalyzer, VelocityError,
};
use bitcoin_digital_labor_derivative::velocity_config::VelocityConfig;
use std::cell::Cell;
use std::rc::Rc;

const DAY: u128 = 1_000_000_000;

struct MockRegistry;

impl ParticipantRegistry for MockRegistry {
    fn addresses_for(&self, participant_id: &str) -> Result<Vec<String>, VelocityError> {
        match participant_id {
            "alice" => Ok(vec!["bc1qalice".to_string()]),
            "nobody" => Ok(vec![]),
            _ => Err(VelocityError::ParticipantNotFound),
        }
    }
}

struct MockChain {
    utxo_calls: Rc<Cell<u32>>,
    utxos: Vec<UtxoEntry>,
    count: u32,
}

impl MockChain {
    fn new(utxos: Vec<UtxoEntry>, count: u32) -> Self {
        MockChain { utxo_calls: Rc::new(Cell::new(0)), utxos, count }
    }
}

impl ChainDataSource for MockChain {
    fn utxos_for_addresses(&self, _addresses: &[String]) -> Result<Vec<UtxoEntry>, VelocityError> {
        self.utxo_calls.set(self.utxo_calls.get() + 1);
        Ok(self.utxos.clone())
    }

    fn outgoing_activity_for_addresses(
        &self,
        _addresses: &[String],
        _start_height: u64,
        _end_height: u64,
    ) -> Result<TxActivity, VelocityError> {
        Ok(TxActivity { count_outgoing: self.count, volume_outgoing: 50_000_000 })
    }
}

fn utxo(vout: u32, amount: u64, height: u64) -> UtxoEntry {
    UtxoEntry { txid: [2u8; 32], vout, amount, height }
}

#[test]
fn test_freshness_curve() {
    assert_eq!(utxo_freshness_score(0), 1_000_000_000);
    assert_eq!(utxo_freshness_score(30 * DAY), 500_000_000);
    assert_eq!(utxo_freshness_score(90 * DAY), 250_000_000);
}

#[test]
fn test_weighted_age() {
    let current_height = 1000;
    let utxos = vec![
        UtxoEntry { txid: [1u8; 32], vout: 0, amount: 100_000_000, height: 900 },
        UtxoEntry { txid: [1u8; 32], vout: 1, amount: 10_000_000, height: 990 },
    ];
    let age = weighted_utxo_age_days(&utxos, current_height);
    assert!(age > 0);
    // 91.8 blocks on average, at 144 blocks a day
    assert_eq!(age, 637_626_262);
    // outputs aged 0 and 1 block: half a block
    let pair = vec![utxo(0, 10, 1000), utxo(1, 10, 999)];
    assert_eq!(weighted_utxo_age_days(&pair, 1000), 3_472_222);
}

#[test]
fn weighted_age_ignores_empty_and_future_outputs() {
    assert_eq!(weighted_utxo_age_days(&vec![], 500), 0);
    assert_eq!(weighted_utxo_age_days(&vec![utxo(0, 0, 10)], 500), 0);
    assert_eq!(weighted_utxo_age_days(&vec![utxo(0, 5, 900)], 500), 0);
    assert_eq!(weighted_utxo_age_days(&vec![utxo(0, 0, 0), utxo(1, 7, 356)], 500), DAY);
    // a total above u64::MAX is still averaged exactly
    assert_eq!(weighted_utxo_age_days(&vec![utxo(0, u64::MAX, 1), utxo(1, 1, 1)], 10), 62_500_000);
    assert_eq!(
        weighted_utxo_age_days(&vec![utxo(0, u64::MAX, 0), utxo(1, u64::MAX, u64::MAX)], u64::MAX),
        (u64::MAX as u128 / 2) * 1_000_000_000 / 144 + 3_472_222
    );
}

#[test]
fn multiplier_stays_in_bounds() {
    let cfg = VelocityConfig::default();
    let chain = MockChain::new(vec![utxo(0, 100_000_000, 900)], 10);
    let mut analyzer = VelocityAnalyzer::new(cfg, MockRegistry, chain).unwrap();
    let m = analyzer.calculate_velocity_multiplier("alice", 1000).unwrap();
    assert!(m >= 1_000_000_000);
    assert!(m <= 1_500_000_000);
}

#[test]
fn multiplier_exact_value_and_cache() {
    let chain = MockChain::new(vec![utxo(0, 100_000_000, 900)], 10);
    let mut analyzer = VelocityAnalyzer::new(VelocityConfig::default(), MockRegistry, chain).unwrap();
    assert_eq!(analyzer.calculate_velocity_multiplier("alice", 1000), Ok(1_359_879_336));
    let cached = analyzer.get_cached("alice", 1000).unwrap();
    assert_eq!(cached.velocity_score, 719_758_672);
    assert_eq!(cached.utxo_age_weighted_avg_days, 694_444_444);
    assert_eq!(cached.tx_count_window, 10);
    assert_eq!(cached.tx_volume_window, 50_000_000);
    assert!(analyzer.get_cached("alice", 1001).is_none());
    // same height: served from the cache
    assert_eq!(analyzer.calculate_velocity_multiplier("alice", 1000), Ok(1_359_879_336));
    let d = analyzer.analyze("alice", 1000).unwrap();
    assert_eq!(d.velocity_multiplier, 1_359_879_336);
    // another height: computed again and overwritten
    let m = analyzer.calculate_velocity_multiplier("alice", 1100).unwrap();
    assert!(m < 1_359_879_336);
    assert!(analyzer.get_cached("alice", 1000).is_none());
    assert!(analyzer.get_cached("alice", 1100).is_some());
    analyzer.clear_cache();
    assert!(analyzer.get_cached("alice", 1100).is_none());
}

#[test]
fn cache_hit_skips_chain() {
    let chain = MockChain::new(vec![utxo(0, 100_000_000, 900)], 10);
    let calls = chain.utxo_calls.clone();
    let mut analyzer = VelocityAnalyzer::new(VelocityConfig::default(), MockRegistry, chain).unwrap();
    analyzer.calculate_velocity_multiplier("alice", 1000).unwrap();
    analyzer.calculate_velocity_multiplier("alice", 1000).unwrap();
    assert_eq!(calls.get(), 1);
    analyzer.calculate_velocity_multiplier("alice", 1001).unwrap();
    assert_eq!(calls.get(), 2);
    assert_eq!(analyzer.config().window_days, 30);
}

#[test]
fn analyzer_errors() {
    let chain = MockChain::new(vec![], 0);
    let mut analyzer = VelocityAnalyzer::new(VelocityConfig::default(), MockRegistry, chain).unwrap();
    assert_eq!(analyzer.calculate_velocity_multiplier("bob", 10), Err(VelocityError::ParticipantNotFound));
    assert!(matches!(analyzer.calculate_velocity_multiplier("nobody", 10), Err(VelocityError::InvalidData(_))));
    let chain = MockChain::new(vec![utxo(0, u64::MAX, 1), utxo(1, 1, 1)], 0);
    let analyzer = VelocityAnalyzer::new(VelocityConfig::default(), MockRegistry, chain).unwrap();
    assert_eq!(analyzer.analyze("alice", 10).unwrap().utxo_age_weighted_avg_days, 62_500_000);
}

#[test]
fn empty_outputs_score_on_activity_alone() {
    let chain = MockChain::new(vec![], 15);
    let mut analyzer = VelocityAnalyzer::new(VelocityConfig::default(), MockRegistry, chain).unwrap();
    let m = analyzer.calculate_velocity_multiplier("alice", 5000).unwrap();
    let d = analyzer.get_cached("alice", 5000).unwrap();
    assert_eq!(d.utxo_age_weighted_avg_days, 0);
    // freshness 1.0 * 0.6 + frequency 0.5 * 0.4
    assert_eq!(d.velocity_score, 800_000_000);
    assert_eq!(m, 1_400_000_000);
}

#[test]
fn config_validation() {
    let ok = VelocityConfig::default();
    assert!(ok.validate().is_ok());
    assert_eq!(ok.window_blocks(), 30 * 144);
    let bad = [
        VelocityConfig { window_days: 0, ..ok },
        VelocityConfig { blocks_per_day: 0, ..ok },
        VelocityConfig { max_tx_threshold: 0, ..ok },
        VelocityConfig { tx_frequency_weight: 500_000_000, ..ok },
        VelocityConfig { min_velocity_multiplier: 2_000_000_000, ..ok },
    ];
    for cfg in bad.iter() {
        assert!(cfg.validate().is_err());
        let chain = MockChain::new(vec![], 0);
        assert!(matches!(VelocityAnalyzer::new(*cfg, MockRegistry, chain), Err(VelocityError::Config(_))));
    }
    // within one billionth of a whole is accepted
    assert!(VelocityConfig { tx_frequency_weight: 400_000_001, ..ok }.validate().is_ok());
}

#[test]
fn scoring_pieces() {
    let cfg = VelocityConfig::default();
    assert_eq!(tx_frequency_score(0, 0), 0);
    assert_eq!(tx_frequency_score(45, 30), 1_000_000_000);
    assert_eq!(tx_frequency_score(10, 30), 333_333_333);
    assert_eq!(velocity_score(1_000_000_000, 1_000_000_000, &cfg), 1_000_000_000);
    assert_eq!(velocity_multiplier(1_000_000_000, &cfg), 1_500_000_000);
    assert_eq!(velocity_multiplier(0, &cfg), 1_000_000_000);
    assert_eq!(velocity_multiplier(-3, &cfg), 1_000_000_000);
    let wide = VelocityConfig { min_velocity_multiplier: 0, max_velocity_multiplier: 3_000_000_000, ..cfg };
    assert_eq!(velocity_multiplier(-3, &wide), 999_999_998);
    let skewed = VelocityConfig { utxo_freshness_weight: -1_000_000_000, tx_frequency_weight: 2_000_000_000, ..wide };
    assert_eq!(velocity_score(1_000_000_000, 0, &skewed), -1_000_000_000);
    let d = score_velocity(&cfg, "carol", &vec![utxo(0, 1, 0)], TxActivity { count_outgoing: 0, volume_outgoing: 0 }, 4320);
    // 30 days old: freshness one half, score 0.3
    assert_eq!(d.velocity_score, 300_000_000);
    assert_eq!(d.velocity_multiplier, 1_150_000_000);
    assert_eq!(d.participant_id, "carol");
    assert_eq!(d.last_updated_height, 4320);
}
