use bitcoin_digital_labor_derivative::address_parsing::parse_addresses;
use bitcoin_digital_labor_derivative::activity::{aggregate_outgoing, TxRecord};
use bitcoin_digital_labor_derivative::addresses::{normalized_addresses, text_less};
use bitcoin_digital_labor_derivative::chain_cache::{CacheAnswer, ChainCache};
use bitcoin_digital_labor_derivative::rpc_policy::{
    classify_rpc_error, contains_text, decide_after_attempt, is_pruned_error, AttemptOutcome,
    Metrics, RetryDecision, RpcConfig, RpcFailureClass,
};
use bitcoin_digital_labor_derivative::utxo_scoring::UtxoEntry;
use bitcoin_digital_labor_derivative::velocity_analyzer::{TxActivity, VelocityError};

fn strings(v: &[&str]) -> Vec<String> {
    v.iter().map(|s| s.to_string()).collect()
}

fn utxo(amount: u64) -> UtxoEntry {
    UtxoEntry { txid: [7u8; 32], vout: 1, amount, height: 5 }
}

fn miss_key<T>(answer: CacheAnswer<T>) -> Vec<String> {
    match answer {
        CacheAnswer::Miss(k) => k,
        CacheAnswer::Hit(_) => panic!("expected a miss"),
    }
}

#[test]
fn addresses_are_sorted_and_deduplicated() {
    let n = normalized_addresses(&strings(&["bc1qz", "bc1qa", "bc1qz", "bc1q", "bc1qa"]));
    assert_eq!(n, strings(&["bc1q", "bc1qa", "bc1qz"]));
    assert!(normalized_addresses(&[]).is_empty());
    assert!(text_less("abc", "abd"));
    assert!(text_less("ab", "abc"));
    assert!(!text_less("abc", "abc"));
    assert!(!text_less("b", "abc"));
}

#[test]
fn same_addresses_any_order_hit_the_cache() {
    let mut cache = ChainCache::new();
    let (answer, reorg) = cache.begin_utxo_query(&strings(&["b", "a", "c"]), 100);
    assert!(!reorg);
    let key = miss_key(answer);
    assert_eq!(key, strings(&["a", "b", "c"]));
    // one node call, then the result is stored
    let mut node_calls = 1;
    cache.store_utxos(key, 100, vec![utxo(10), utxo(20)]);
    let (answer, _) = cache.begin_utxo_query(&strings(&["c", "a", "b", "a"]), 100);
    match answer {
        CacheAnswer::Hit(v) => {
            assert_eq!(v.len(), 2);
            assert_eq!(v[0].amount, 10);
            assert_eq!(v[1].amount, 20);
        },
        CacheAnswer::Miss(_) => node_calls += 1,
    }
    assert_eq!(node_calls, 1);
    // another height is another key
    let (answer, _) = cache.begin_utxo_query(&strings(&["a", "b", "c"]), 101);
    assert!(matches!(answer, CacheAnswer::Miss(_)));
}

#[test]
fn lower_tip_clears_the_cache() {
    let mut cache = ChainCache::new();
    let key = miss_key(cache.begin_utxo_query(&strings(&["a"]), 200).0);
    cache.store_utxos(key, 200, vec![utxo(1)]);
    let key = miss_key(cache.begin_activity_query(&strings(&["a"]), 200, 150, 200).unwrap().0);
    cache.store_activity(key, 150, 200, TxActivity { count_outgoing: 3, volume_outgoing: 9 });
    assert!(cache.lookup_utxos(&strings(&["a"]), 200).is_some());
    assert!(cache.lookup_activity(&strings(&["a"]), 150, 200).is_some());
    assert!(!cache.observe_tip(200));
    assert!(cache.lookup_utxos(&strings(&["a"]), 200).is_some());
    assert!(cache.observe_tip(199));
    assert!(cache.lookup_utxos(&strings(&["a"]), 200).is_none());
    assert!(cache.lookup_activity(&strings(&["a"]), 150, 200).is_none());
    assert_eq!(cache.last_tip_height(), Some(199));
}

#[test]
fn activity_query_checks_range_and_hits() {
    let mut cache = ChainCache::new();
    match cache.begin_activity_query(&strings(&["a"]), 10, 10, 9) {
        Err(VelocityError::InvalidData(_)) => {},
        _ => panic!("expected invalid data"),
    }
    assert_eq!(cache.last_tip_height(), None);
    let key = miss_key(cache.begin_activity_query(&strings(&["b", "a"]), 9, 1, 9).unwrap().0);
    cache.store_activity(key, 1, 9, TxActivity { count_outgoing: 2, volume_outgoing: 5 });
    match cache.begin_activity_query(&strings(&["a", "b"]), 9, 1, 9).unwrap() {
        (CacheAnswer::Hit(a), false) => assert_eq!(a, TxActivity { count_outgoing: 2, volume_outgoing: 5 }),
        _ => panic!("expected a hit"),
    }
    // storing again under one key replaces the result
    cache.store_activity(strings(&["a", "b"]), 1, 9, TxActivity { count_outgoing: 4, volume_outgoing: 6 });
    assert_eq!(
        cache.lookup_activity(&strings(&["a", "b"]), 1, 9),
        Some(TxActivity { count_outgoing: 4, volume_outgoing: 6 })
    );
    // an older range at the same tip keeps the cache
    let (_, reorg) = cache.begin_activity_query(&strings(&["a"]), 9, 1, 5).unwrap();
    assert!(!reorg);
    let (_, reorg) = cache.begin_activity_query(&strings(&["a"]), 8, 1, 5).unwrap();
    assert!(reorg);
}

fn record(is_send: bool, address: Option<&str>, height: Option<u64>, amount: i64) -> TxRecord {
    TxRecord { is_send, address: address.map(|a| a.to_string()), block_height: height, amount_sats: amount }
}

#[test]
fn outgoing_activity_is_filtered() {
    let records = vec![
        record(true, Some("a"), Some(10), -500),
        record(true, Some("b"), Some(20), -250),
        record(false, Some("a"), Some(10), 900),
        record(true, Some("x"), Some(10), -7),
        record(true, Some("a"), Some(31), -7),
        record(true, None, Some(10), -7),
        record(true, Some("a"), None, -7),
        record(true, Some("x"), None, -7),
        record(true, Some("b"), Some(30), 40),
    ];
    let t = aggregate_outgoing(&records, &strings(&["a", "b"]), 10, 30);
    assert_eq!(t.activity.count_outgoing, 3);
    assert_eq!(t.activity.volume_outgoing, 790);
    assert_eq!(t.partial_responses, 2);
    let t = aggregate_outgoing(&vec![record(true, Some("a"), Some(1), i64::MIN), record(true, Some("a"), Some(1), i64::MIN)], &strings(&["a"]), 0, 1);
    assert_eq!(t.activity.volume_outgoing, u64::MAX);
}

#[test]
fn failures_are_classified() {
    assert_eq!(classify_rpc_error("Connection refused"), RpcFailureClass::Transient);
    assert_eq!(classify_rpc_error("request TIMED OUT"), RpcFailureClass::Transient);
    assert_eq!(classify_rpc_error("Broken pipe"), RpcFailureClass::Transient);
    assert_eq!(classify_rpc_error("Block not available (pruned data)"), RpcFailureClass::Permanent);
    assert_eq!(classify_rpc_error("connection lost while pruning"), RpcFailureClass::Permanent);
    assert_eq!(classify_rpc_error("Invalid address"), RpcFailureClass::Permanent);
    assert!(is_pruned_error("Node is PRUNED"));
    assert!(!is_pruned_error("timeout"));
    assert!(contains_text("abcabd", "abd"));
    assert!(!contains_text("ab", "abc"));
    assert!(contains_text("x", ""));
}

#[test]
fn retries_follow_the_policy() {
    let cfg = RpcConfig::default();
    assert_eq!(cfg.attempts(), 3);
    assert_eq!(RpcConfig { timeout_ms: 1, retry_limit: usize::MAX }.attempts(), usize::MAX);
    let transient = AttemptOutcome::Failed { pruned: false, class: RpcFailureClass::Transient };
    let permanent = AttemptOutcome::Failed { pruned: false, class: RpcFailureClass::Permanent };
    let pruned = AttemptOutcome::Failed { pruned: true, class: RpcFailureClass::Permanent };
    assert_eq!(decide_after_attempt(0, 3, AttemptOutcome::Succeeded), RetryDecision::Accept);
    assert_eq!(decide_after_attempt(0, 3, transient), RetryDecision::Retry);
    assert_eq!(decide_after_attempt(2, 3, transient), RetryDecision::FailWithError);
    assert_eq!(decide_after_attempt(0, 3, permanent), RetryDecision::FailWithError);
    assert_eq!(decide_after_attempt(0, 3, pruned), RetryDecision::FailPruned);
    assert_eq!(decide_after_attempt(1, 3, AttemptOutcome::TimedOut), RetryDecision::Retry);
    assert_eq!(decide_after_attempt(2, 3, AttemptOutcome::TimedOut), RetryDecision::FailTimedOut);
}

#[test]
fn metrics_count_up() {
    let mut m = Metrics::default();
    m.record_rpc_success(10);
    m.record_rpc_failure(RpcFailureClass::Transient, 20);
    m.record_rpc_failure(RpcFailureClass::Permanent, 30);
    m.record_rpc_timeout(40);
    m.record_cache_hit();
    m.record_cache_miss();
    m.record_reorg();
    m.record_partial_response();
    m.record_pruned_node();
    assert_eq!(m.rpc_success, 1);
    assert_eq!(m.rpc_failure_transient, 1);
    assert_eq!(m.rpc_failure_permanent, 1);
    assert_eq!(m.rpc_timeout, 1);
    assert_eq!((m.cache_hit, m.cache_miss, m.reorg_detected), (1, 1, 1));
    assert_eq!((m.partial_response, m.pruned_node), (1, 1));
    assert_eq!(m.rpc_latency_ms_total, 100);
    assert_eq!(m.rpc_latency_ms_count, 4);
    assert_eq!(m.average_latency_ms(), 25);
    m.record_rpc_latency(u64::MAX);
    assert_eq!(m.rpc_latency_ms_total, u64::MAX);
}

struct CountingNode {
    tip: std::cell::Cell<u64>,
    scans: std::cell::Cell<u32>,
    cache: std::cell::RefCell<ChainCache>,
}

impl CountingNode {
    fn utxos(&self, addresses: &[String]) -> Vec<UtxoEntry> {
        let tip = self.tip.get();
        let (answer, _) = self.cache.borrow_mut().begin_utxo_query(addresses, tip);
        match answer {
            CacheAnswer::Hit(v) => v,
            CacheAnswer::Miss(key) => {
                self.scans.set(self.scans.get() + 1);
                let found = vec![utxo(key.len() as u64)];
                self.cache.borrow_mut().store_utxos(key, tip, found.clone());
                found
            },
        }
    }
}

#[test]
fn repeated_queries_reach_the_node_once() {
    let node = CountingNode {
        tip: std::cell::Cell::new(500),
        scans: std::cell::Cell::new(0),
        cache: std::cell::RefCell::new(ChainCache::new()),
    };
    let first = node.utxos(&strings(&["x", "y"]));
    let second = node.utxos(&strings(&["y", "x", "y"]));
    assert_eq!(node.scans.get(), 1);
    assert_eq!(first[0].amount, second[0].amount);
    // the tip goes down: the cache is dropped and the node is asked again
    node.tip.set(499);
    node.utxos(&strings(&["x", "y"]));
    node.tip.set(500);
    node.utxos(&strings(&["x", "y"]));
    assert_eq!(node.scans.get(), 3);
}

#[test]
fn addresses_parse_to_canonical_form() {
    let parsed = parse_addresses(&strings(&["BC1QW508D6QEJXTDG4Y5R3ZARVARY0C5XW7KV8F3T4"])).unwrap();
    assert_eq!(parsed, strings(&["bc1qw508d6qejxtdg4y5r3zarvary0c5xw7kv8f3t4"]));
    assert!(matches!(parse_addresses(&strings(&["bc1qalice"])), Err(VelocityError::InvalidData(_))));
    assert!(parse_addresses(&vec![]).unwrap().is_empty());
}
