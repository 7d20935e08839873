use vstd::prelude::*;
use vstd::string::StrSliceExecFns;

verus! {

/// Whether a failed call may succeed if tried again.
#[derive(Debug, Clone, Copy, PartialEq, Eq, Structural)]
pub enum RpcFailureClass {
    Transient,
    Permanent,
}

/// Retries and per-attempt timeout of node calls.
#[derive(Debug, Clone, Copy, PartialEq, Eq, Structural)]
pub struct RpcConfig {
    /// Bound on the wait for one attempt, in milliseconds.
    pub timeout_ms: u64,
    /// Attempts after the first.
    pub retry_limit: usize,
}

impl Default for RpcConfig {
    fn default() -> (r: Self)
        ensures
            r.timeout_ms == 30_000 && r.retry_limit == 2,
    {
        RpcConfig { timeout_ms: 30_000, retry_limit: 2 }
    }
}

impl RpcConfig {
    /// Attempts in all: one more than the retry limit, saturating.
    pub fn attempts(&self) -> (r: usize)
        ensures
            r == if self.retry_limit == usize::MAX {
                usize::MAX as int
            } else {
                self.retry_limit + 1
            },
    {
        self.retry_limit.saturating_add(1)
    }
}

/// What `s` becomes under `str::to_lowercase`.
pub uninterp spec fn lower_of(s: Seq<char>) -> Seq<char>;

/// Relies on `str::to_lowercase`, whose result depends on the characters alone.
#[verifier::external_body]
fn lowercase(s: &str) -> (r: String)
    ensures
        r@ == lower_of(s@),
{
    s.to_lowercase()
}

/// `needle` occurs in `hay`.
pub open spec fn has_infix(hay: Seq<char>, needle: Seq<char>) -> bool {
    exists|i: int| 0 <= i <= hay.len() - needle.len() && #[trigger] hay.subrange(i, i + needle.len()) == needle
}

/// Whether `needle` occurs in `hay`.
pub fn contains_text(hay: &str, needle: &str) -> (r: bool)
    ensures
        r == has_infix(hay@, needle@),
{
    let n = hay.unicode_len();
    let m = needle.unicode_len();
    if m > n {
        return false;
    }
    let mut i: usize = 0;
    while i <= n - m
        invariant
            n == hay@.len(),
            m == needle@.len(),
            m <= n,
            forall|k: int| 0 <= k < i ==> #[trigger] hay@.subrange(k, k + m) != needle@,
        decreases n - m + 1 - i,
    {
        let mut j: usize = 0;
        while j < m && hay.get_char(i + j) == needle.get_char(j)
            invariant
                n == hay@.len(),
                m == needle@.len(),
                i + m <= n,
                j <= m,
                forall|k: int| 0 <= k < j ==> hay@[i + k] == needle@[k],
            decreases m - j,
        {
            j = j + 1;
        }
        if j == m {
            assert(hay@.subrange(i as int, i + m) =~= needle@);
            return true;
        }
        assert(hay@.subrange(i as int, i + m)[j as int] != needle@[j as int]);
        i = i + 1;
    }
    assert forall|k: int| 0 <= k <= n - m implies #[trigger] hay@.subrange(k, k + m) != needle@ by {}
    false
}

/// A lower-cased message that tells of a pruned node.
pub open spec fn tells_pruned(m: Seq<char>) -> bool {
    has_infix(m, "pruned"@) || has_infix(m, "pruning"@)
}

/// A lower-cased message that tells of a timeout or a broken connection.
pub open spec fn tells_transient(m: Seq<char>) -> bool {
    ||| has_infix(m, "timeout"@)
    ||| has_infix(m, "timed out"@)
    ||| has_infix(m, "connection"@)
    ||| has_infix(m, "transport"@)
    ||| has_infix(m, "broken pipe"@)
    ||| has_infix(m, "temporarily unavailable"@)
}

/// Class of a failure from its lower-cased message: a pruned node is permanent.
pub open spec fn failure_class_of(m: Seq<char>) -> RpcFailureClass {
    if !tells_pruned(m) && tells_transient(m) {
        RpcFailureClass::Transient
    } else {
        RpcFailureClass::Permanent
    }
}

/// Whether an already lower-cased message tells of a pruned node.
pub fn is_pruned_lowered(message: &str) -> (r: bool)
    ensures
        r == tells_pruned(message@),
{
    contains_text(message, "pruned") || contains_text(message, "pruning")
}

/// Classifies a failure from its already lower-cased message.
pub fn classify_lowered(message: &str) -> (r: RpcFailureClass)
    ensures
        r == failure_class_of(message@),
{
    if is_pruned_lowered(message) {
        return RpcFailureClass::Permanent;
    }
    if contains_text(message, "timeout") || contains_text(message, "timed out") || contains_text(
        message,
        "connection",
    ) || contains_text(message, "transport") || contains_text(message, "broken pipe")
        || contains_text(message, "temporarily unavailable") {
        RpcFailureClass::Transient
    } else {
        RpcFailureClass::Permanent
    }
}

/// Whether a failure message tells of a pruned node, in any letter case.
pub fn is_pruned_error(message: &str) -> (r: bool)
    ensures
        r == tells_pruned(lower_of(message@)),
{
    let lowered = lowercase(message);
    is_pruned_lowered(lowered.as_str())
}

/// Classifies a failure from its message, in any letter case.
pub fn classify_rpc_error(message: &str) -> (r: RpcFailureClass)
    ensures
        r == failure_class_of(lower_of(message@)),
{
    let lowered = lowercase(message);
    classify_lowered(lowered.as_str())
}

/// How one attempt of a node call ended.
#[derive(Debug, Clone, Copy, PartialEq, Eq, Structural)]
pub enum AttemptOutcome {
    Succeeded,
    Failed { pruned: bool, class: RpcFailureClass },
    TimedOut,
}

/// What the caller does after an attempt.
#[derive(Debug, Clone, Copy, PartialEq, Eq, Structural)]
pub enum RetryDecision {
    /// Hand the result back.
    Accept,
    /// Try again.
    Retry,
    /// Give up: the node lacks the data (pruned); an invalid-data error.
    FailPruned,
    /// Give up with the call's own error, as a data-source error.
    FailWithError,
    /// Give up after a timeout, as a data-source error.
    FailTimedOut,
}

/// The decision after attempt number `attempt` (from 0) of `attempts`.
pub open spec fn retry_decision_of(attempt: int, attempts: int, outcome: AttemptOutcome) -> RetryDecision {
    match outcome {
        AttemptOutcome::Succeeded => RetryDecision::Accept,
        AttemptOutcome::Failed { pruned, class } => if pruned {
            RetryDecision::FailPruned
        } else if class == RpcFailureClass::Permanent || attempt + 1 >= attempts {
            RetryDecision::FailWithError
        } else {
            RetryDecision::Retry
        },
        AttemptOutcome::TimedOut => if attempt + 1 >= attempts {
            RetryDecision::FailTimedOut
        } else {
            RetryDecision::Retry
        },
    }
}

/// Decides what follows attempt number `attempt` (from 0) of `attempts`:
/// transient failures and timeouts are retried while attempts remain.
pub fn decide_after_attempt(attempt: usize, attempts: usize, outcome: AttemptOutcome) -> (r:
    RetryDecision)
    requires
        attempt < attempts,
    ensures
        r == retry_decision_of(attempt as int, attempts as int, outcome),
{
    let last = attempt + 1 == attempts;
    match outcome {
        AttemptOutcome::Succeeded => RetryDecision::Accept,
        AttemptOutcome::Failed { pruned, class } => {
            if pruned {
                RetryDecision::FailPruned
            } else if class == RpcFailureClass::Permanent || last {
                RetryDecision::FailWithError
            } else {
                RetryDecision::Retry
            }
        },
        AttemptOutcome::TimedOut => {
            if last {
                RetryDecision::FailTimedOut
            } else {
                RetryDecision::Retry
            }
        },
    }
}

/// Diagnostic counters of the chain-data layer; each only grows.
#[derive(Debug, Clone, Copy, PartialEq, Eq, Structural, Default)]
pub struct Metrics {
    pub rpc_success: u64,
    pub rpc_failure_transient: u64,
    pub rpc_failure_permanent: u64,
    pub rpc_timeout: u64,
    pub cache_hit: u64,
    pub cache_miss: u64,
    pub reorg_detected: u64,
    pub partial_response: u64,
    pub pruned_node: u64,
    pub rpc_latency_ms_total: u64,
    pub rpc_latency_ms_count: u64,
}

/// `x + 1`, held at `u64::MAX`.
pub open spec fn bump(x: u64) -> u64 {
    if x == u64::MAX {
        x
    } else {
        (x + 1) as u64
    }
}

/// `x + d`, held at `u64::MAX`.
pub open spec fn grow(x: u64, d: u64) -> u64 {
    if x + d > u64::MAX {
        u64::MAX
    } else {
        (x + d) as u64
    }
}

impl Metrics {
    pub fn record_rpc_latency(&mut self, elapsed_ms: u64)
        ensures
            *final(self) == (Metrics {
                rpc_latency_ms_total: grow(old(self).rpc_latency_ms_total, elapsed_ms),
                rpc_latency_ms_count: bump(old(self).rpc_latency_ms_count),
                ..*old(self)
            }),
    {
        self.rpc_latency_ms_total = self.rpc_latency_ms_total.saturating_add(elapsed_ms);
        self.rpc_latency_ms_count = self.rpc_latency_ms_count.saturating_add(1);
    }

    pub fn record_rpc_success(&mut self, elapsed_ms: u64)
        ensures
            *final(self) == (Metrics {
                rpc_success: bump(old(self).rpc_success),
                rpc_latency_ms_total: grow(old(self).rpc_latency_ms_total, elapsed_ms),
                rpc_latency_ms_count: bump(old(self).rpc_latency_ms_count),
                ..*old(self)
            }),
    {
        self.rpc_success = self.rpc_success.saturating_add(1);
        self.record_rpc_latency(elapsed_ms);
    }

    pub fn record_rpc_failure(&mut self, class: RpcFailureClass, elapsed_ms: u64)
        ensures
            *final(self) == (Metrics {
                rpc_failure_transient: if class == RpcFailureClass::Transient {
                    bump(old(self).rpc_failure_transient)
                } else {
                    old(self).rpc_failure_transient
                },
                rpc_failure_permanent: if class == RpcFailureClass::Permanent {
                    bump(old(self).rpc_failure_permanent)
                } else {
                    old(self).rpc_failure_permanent
                },
                rpc_latency_ms_total: grow(old(self).rpc_latency_ms_total, elapsed_ms),
                rpc_latency_ms_count: bump(old(self).rpc_latency_ms_count),
                ..*old(self)
            }),
    {
        match class {
            RpcFailureClass::Transient => {
                self.rpc_failure_transient = self.rpc_failure_transient.saturating_add(1);
            },
            RpcFailureClass::Permanent => {
                self.rpc_failure_permanent = self.rpc_failure_permanent.saturating_add(1);
            },
        }
        self.record_rpc_latency(elapsed_ms);
    }

    pub fn record_rpc_timeout(&mut self, elapsed_ms: u64)
        ensures
            *final(self) == (Metrics {
                rpc_timeout: bump(old(self).rpc_timeout),
                rpc_latency_ms_total: grow(old(self).rpc_latency_ms_total, elapsed_ms),
                rpc_latency_ms_count: bump(old(self).rpc_latency_ms_count),
                ..*old(self)
            }),
    {
        self.rpc_timeout = self.rpc_timeout.saturating_add(1);
        self.record_rpc_latency(elapsed_ms);
    }

    pub fn record_cache_hit(&mut self)
        ensures
            *final(self) == (Metrics { cache_hit: bump(old(self).cache_hit), ..*old(self) }),
    {
        self.cache_hit = self.cache_hit.saturating_add(1);
    }

    pub fn record_cache_miss(&mut self)
        ensures
            *final(self) == (Metrics { cache_miss: bump(old(self).cache_miss), ..*old(self) }),
    {
        self.cache_miss = self.cache_miss.saturating_add(1);
    }

    pub fn record_reorg(&mut self)
        ensures
            *final(self) == (Metrics { reorg_detected: bump(old(self).reorg_detected), ..*old(self) }),
    {
        self.reorg_detected = self.reorg_detected.saturating_add(1);
    }

    pub fn record_partial_response(&mut self)
        ensures
            *final(self) == (Metrics {
                partial_response: bump(old(self).partial_response),
                ..*old(self)
            }),
    {
        self.partial_response = self.partial_response.saturating_add(1);
    }

    pub fn record_pruned_node(&mut self)
        ensures
            *final(self) == (Metrics { pruned_node: bump(old(self).pruned_node), ..*old(self) }),
    {
        self.pruned_node = self.pruned_node.saturating_add(1);
    }

    /// Mean latency of the timed calls in milliseconds, 0 before any.
    pub fn average_latency_ms(&self) -> (r: u64)
        ensures
            r == if self.rpc_latency_ms_count == 0 {
                0
            } else {
                self.rpc_latency_ms_total / self.rpc_latency_ms_count
            },
    {
        if self.rpc_latency_ms_count == 0 {
            0
        } else {
            self.rpc_latency_ms_total / self.rpc_latency_ms_count
        }
    }
}

} // verus!
