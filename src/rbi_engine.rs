use vstd::prelude::*;
use crate::alerts::{
    alert_level_for, below, default_thresholds, evaluate_alert, AlertThresholds, RBIAlert,
};
use crate::economic_oracle::EconomicReading;
use crate::units::{clamp_i64, clamp_int, floor_div, SCALE};
use crate::velocity_config::{default_velocity_config, VelocityConfig};

verus! {

/// One participant's stake and trust coefficient (in billionths).
#[derive(Debug, Clone)]
pub struct ParticipantSnapshot {
    pub participant_id: String,
    pub stake_amount_sats: u64,
    pub trust_coefficient: i64,
}

/// The pool as seen for one index computation.
#[derive(Debug, Clone)]
pub struct DistributionPoolState {
    /// Sats distributed in the most recent epoch.
    pub total_distributed_sats: u64,
    /// Stake-weighted average velocity multiplier, in billionths.
    pub average_participant_velocity: i64,
    /// Epoch duration in days.
    pub epoch_duration_days: u32,
    /// Participants whose trust makes up the system trust.
    pub participants: Vec<ParticipantSnapshot>,
}

/// Classification of an index value.
#[derive(Debug, Clone, Copy, PartialEq, Eq, Structural)]
pub enum RbiStatus {
    Healthy,
    Warning,
    Critical,
    Indeterminate,
    Invalid,
}

impl RbiStatus {
    /// Lower-case name of the status.
    pub fn as_str(&self) -> (r: &'static str)
        ensures
            r@ == match self {
                RbiStatus::Healthy => "healthy"@,
                RbiStatus::Warning => "warning"@,
                RbiStatus::Critical => "critical"@,
                RbiStatus::Indeterminate => "indeterminate"@,
                RbiStatus::Invalid => "invalid"@,
            },
    {
        match self {
            RbiStatus::Healthy => "healthy",
            RbiStatus::Warning => "warning",
            RbiStatus::Critical => "critical",
            RbiStatus::Indeterminate => "indeterminate",
            RbiStatus::Invalid => "invalid",
        }
    }
}

/// One computed index with its terms; all scalars in billionths.
#[derive(Debug, Clone)]
pub struct RBISnapshot {
    /// Seconds since the Unix epoch.
    pub timestamp: i64,
    pub block_height: u64,
    pub v_dld: u128,
    pub t_c: u64,
    pub d_s: i64,
    pub productivity_a: i64,
    pub rbi_value: u128,
    pub status: RbiStatus,
    pub is_healthy: bool,
    pub alert: Option<RBIAlert>,
}

impl RBISnapshot {
    /// A copy equal to `self`.
    pub fn duplicate(&self) -> (r: RBISnapshot)
        ensures
            r == *self,
    {
        let alert = match &self.alert {
            Some(a) => Some(a.duplicate()),
            None => None,
        };
        RBISnapshot {
            timestamp: self.timestamp,
            block_height: self.block_height,
            v_dld: self.v_dld,
            t_c: self.t_c,
            d_s: self.d_s,
            productivity_a: self.productivity_a,
            rbi_value: self.rbi_value,
            status: self.status,
            is_healthy: self.is_healthy,
            alert,
        }
    }
}

#[derive(Debug, Clone, PartialEq, Eq)]
pub enum RBIError {
    Economic(crate::economic_oracle::EconomicError),
    InvalidState(String),
    Calculation(String),
}

/// The kind of an `RBIError`, without its message.
#[derive(Debug, Clone, Copy, PartialEq, Eq, Structural)]
pub enum RbiErrorKind {
    Economic,
    InvalidState,
    Calculation,
}

impl RBIError {
    pub open spec fn kind(&self) -> RbiErrorKind {
        match self {
            RBIError::Economic(_) => RbiErrorKind::Economic,
            RBIError::InvalidState(_) => RbiErrorKind::InvalidState,
            RBIError::Calculation(_) => RbiErrorKind::Calculation,
        }
    }
}

/// Sum of the stakes.
pub open spec fn stake_total(ps: Seq<ParticipantSnapshot>) -> int
    decreases ps.len(),
{
    if ps.len() == 0 {
        0
    } else {
        stake_total(ps.drop_last()) + ps.last().stake_amount_sats
    }
}

/// Sum of stake times trust.
pub open spec fn stake_trust_total(ps: Seq<ParticipantSnapshot>) -> int
    decreases ps.len(),
{
    if ps.len() == 0 {
        0
    } else {
        stake_trust_total(ps.drop_last()) + ps.last().stake_amount_sats
            * ps.last().trust_coefficient
    }
}

pub open spec fn trusts_positive(ps: Seq<ParticipantSnapshot>) -> bool {
    forall|i: int| 0 <= i < ps.len() ==> ps[i].trust_coefficient > 0
}

/// Stake-weighted average trust, rounded down.
pub open spec fn system_trust(ps: Seq<ParticipantSnapshot>) -> int {
    stake_trust_total(ps) / stake_total(ps)
}

/// Velocity-weighted distribution: sats times the clamped velocity, per day.
pub open spec fn dld_velocity(pool: DistributionPoolState, cfg: VelocityConfig) -> int {
    pool.total_distributed_sats * clamp_int(
        pool.average_participant_velocity as int,
        cfg.min_velocity_multiplier as int,
        cfg.max_velocity_multiplier as int,
    ) / (pool.epoch_duration_days as int)
}

/// `V_dld * T_c` in billionths, rounded down.
pub open spec fn rbi_numerator(v_dld: int, t_c: int) -> int {
    v_dld * t_c / (SCALE as int)
}

/// RBI = (V_dld * T_c) / (D_s / e^A) in billionths: the numerator is
/// rounded down, then multiplied by e^A and divided by D_s, rounding down.
/// `None` stands for an intermediate product above `u128::MAX`.
pub open spec fn rbi_ratio(v_dld: int, t_c: int, growth: int, d_s: int) -> Option<int> {
    if v_dld * t_c <= u128::MAX && rbi_numerator(v_dld, t_c) * growth <= u128::MAX {
        Some(rbi_numerator(v_dld, t_c) * growth / d_s)
    } else {
        None
    }
}

/// Status of a computed value: critical, then warning (low or overheating).
pub open spec fn status_for(rbi: int, t: AlertThresholds) -> RbiStatus {
    if rbi < t.critical_low {
        RbiStatus::Critical
    } else if rbi < t.warning_low {
        RbiStatus::Warning
    } else if rbi > t.overheating_high {
        RbiStatus::Warning
    } else {
        RbiStatus::Healthy
    }
}

/// Which error, if any, a computation with these inputs ends in.
pub open spec fn rbi_error_for(
    cfg: VelocityConfig,
    pool: DistributionPoolState,
    reading: EconomicReading,
) -> Option<RbiErrorKind> {
    let ps = pool.participants@;
    if pool.epoch_duration_days == 0 {
        Some(RbiErrorKind::InvalidState)
    } else if reading.demand_shock < 0 {
        Some(RbiErrorKind::InvalidState)
    } else if ps.len() == 0 || stake_total(ps) == 0 {
        None
    } else if stake_total(ps) > u64::MAX {
        Some(RbiErrorKind::InvalidState)
    } else if pool.average_participant_velocity <= 0 {
        Some(RbiErrorKind::InvalidState)
    } else if !trusts_positive(ps) {
        Some(RbiErrorKind::InvalidState)
    } else if dld_velocity(pool, cfg) < 0 {
        Some(RbiErrorKind::InvalidState)
    } else if reading.demand_shock == 0 {
        None
    } else if reading.growth_factor <= 0 {
        Some(RbiErrorKind::Calculation)
    } else {
        None
    }
}

/// The snapshot that a computation without error yields, but for the alert's
/// message: its terms, value, status, health and alert level.
pub open spec fn snapshot_matches(
    s: RBISnapshot,
    thresholds: AlertThresholds,
    cfg: VelocityConfig,
    pool: DistributionPoolState,
    height: u64,
    timestamp: i64,
    reading: EconomicReading,
) -> bool {
    let ps = pool.participants@;
    &&& s.timestamp == timestamp
    &&& s.block_height == height
    &&& s.d_s == reading.demand_shock
    &&& s.productivity_a == reading.productivity
    &&& if ps.len() == 0 || stake_total(ps) == 0 {
        &&& s.v_dld == 0
        &&& s.t_c == SCALE
        &&& s.rbi_value == 0
        &&& s.status == RbiStatus::Indeterminate
        &&& !s.is_healthy
        &&& s.alert.is_none()
    } else {
        &&& s.v_dld == dld_velocity(pool, cfg)
        &&& s.t_c == system_trust(ps)
        &&& if reading.demand_shock == 0 {
            &&& s.rbi_value == 0
            &&& s.status == RbiStatus::Indeterminate
            &&& !s.is_healthy
            &&& s.alert.is_none()
        } else {
            match rbi_ratio(
                s.v_dld as int,
                s.t_c as int,
                reading.growth_factor as int,
                reading.demand_shock as int,
            ) {
                None => {
                    &&& s.rbi_value == 0
                    &&& s.status == RbiStatus::Invalid
                    &&& !s.is_healthy
                    &&& s.alert.is_none()
                },
                Some(v) => {
                    &&& s.rbi_value == v
                    &&& s.status == status_for(v, thresholds)
                    &&& s.is_healthy == (v >= thresholds.warning_low)
                    &&& match alert_level_for(v, thresholds) {
                        None => s.alert.is_none(),
                        Some(level) => s.alert.is_some() && s.alert.unwrap().level() == level
                            && s.alert.unwrap().value() == s.rbi_value,
                    }
                },
            }
        }
    }
}

/// An empty pool, or one without stake, gives an indeterminate snapshot that
/// is not healthy and raises no alert, whatever the other inputs.
pub proof fn lemma_empty_pool_indeterminate(
    s: RBISnapshot,
    thresholds: AlertThresholds,
    cfg: VelocityConfig,
    pool: DistributionPoolState,
    height: u64,
    timestamp: i64,
    reading: EconomicReading,
)
    requires
        snapshot_matches(s, thresholds, cfg, pool, height, timestamp, reading),
        pool.participants@.len() == 0 || stake_total(pool.participants@) == 0,
    ensures
        s.status == RbiStatus::Indeterminate,
        !s.is_healthy,
        s.alert.is_none(),
{
}

/// A demand shock below one billionth in magnitude gives an indeterminate
/// snapshot that is not healthy and raises no alert.
pub proof fn lemma_negligible_demand_indeterminate(
    s: RBISnapshot,
    thresholds: AlertThresholds,
    cfg: VelocityConfig,
    pool: DistributionPoolState,
    height: u64,
    timestamp: i64,
    reading: EconomicReading,
)
    requires
        snapshot_matches(s, thresholds, cfg, pool, height, timestamp, reading),
        -1 < reading.demand_shock < 1,
    ensures
        s.status == RbiStatus::Indeterminate,
        !s.is_healthy,
        s.alert.is_none(),
{
}

/// A snapshot never carries a value out of range: such a value is reported
/// as invalid, with value 0, not healthy and without alert.
pub proof fn lemma_invalid_reports_zero(
    s: RBISnapshot,
    thresholds: AlertThresholds,
    cfg: VelocityConfig,
    pool: DistributionPoolState,
    height: u64,
    timestamp: i64,
    reading: EconomicReading,
)
    requires
        snapshot_matches(s, thresholds, cfg, pool, height, timestamp, reading),
    ensures
        s.status == RbiStatus::Invalid ==> s.rbi_value == 0 && !s.is_healthy && s.alert.is_none(),
        s.status != RbiStatus::Invalid && s.status != RbiStatus::Indeterminate ==> rbi_ratio(
            s.v_dld as int,
            s.t_c as int,
            reading.growth_factor as int,
            reading.demand_shock as int,
        ) == Some(s.rbi_value as int),
{
}

/// In every snapshot of a pool with participants and stake, the system trust
/// lies within any bounds that hold every participant's trust coefficient,
/// and so between the least and the greatest of them.
pub proof fn lemma_snapshot_trust_within(
    s: RBISnapshot,
    thresholds: AlertThresholds,
    cfg: VelocityConfig,
    pool: DistributionPoolState,
    height: u64,
    timestamp: i64,
    reading: EconomicReading,
    lo: int,
    hi: int,
)
    requires
        snapshot_matches(s, thresholds, cfg, pool, height, timestamp, reading),
        pool.participants@.len() > 0,
        stake_total(pool.participants@) > 0,
        forall|i: int|
            0 <= i < pool.participants@.len() ==> lo <= #[trigger] pool.participants@[i].trust_coefficient
                <= hi,
    ensures
        lo <= s.t_c <= hi,
{
    lemma_system_trust_within(pool.participants@, lo, hi);
}

proof fn lemma_stake_total_nonneg(ps: Seq<ParticipantSnapshot>)
    ensures
        stake_total(ps) >= 0,
    decreases ps.len(),
{
    if ps.len() > 0 {
        lemma_stake_total_nonneg(ps.drop_last());
    }
}

proof fn lemma_stake_prefix(ps: Seq<ParticipantSnapshot>, i: int)
    requires
        0 <= i <= ps.len(),
    ensures
        stake_total(ps.take(i)) <= stake_total(ps),
    decreases ps.len(),
{
    if i < ps.len() {
        assert(ps.drop_last().take(i) == ps.take(i));
        lemma_stake_prefix(ps.drop_last(), i);
    } else {
        assert(ps.take(i) == ps);
    }
}

proof fn lemma_weighted_bounds(ps: Seq<ParticipantSnapshot>, lo: int, hi: int)
    requires
        forall|i: int| 0 <= i < ps.len() ==> lo <= #[trigger] ps[i].trust_coefficient <= hi,
    ensures
        stake_total(ps) * lo <= stake_trust_total(ps) <= stake_total(ps) * hi,
    decreases ps.len(),
{
    if ps.len() > 0 {
        let q = ps.drop_last();
        assert forall|i: int| 0 <= i < q.len() implies lo <= #[trigger] q[i].trust_coefficient
            <= hi by {
            assert(q[i] == ps[i]);
        }
        lemma_weighted_bounds(q, lo, hi);
        let s = ps.last().stake_amount_sats as int;
        let t = ps.last().trust_coefficient as int;
        assert(lo <= t <= hi) by {
            assert(ps.last() == ps[ps.len() - 1]);
        }
        let st = stake_total(q);
        let w = stake_trust_total(q);
        assert(s * lo <= s * t <= s * hi) by (nonlinear_arith)
            requires
                s >= 0,
                lo <= t <= hi,
        ;
        assert((st + s) * lo == st * lo + s * lo) by (nonlinear_arith);
        assert((st + s) * hi == st * hi + s * hi) by (nonlinear_arith);
    }
}

/// The system trust lies within any bounds that hold every participant's
/// trust coefficient, and so between the least and the greatest of them.
pub proof fn lemma_system_trust_within(ps: Seq<ParticipantSnapshot>, lo: int, hi: int)
    requires
        stake_total(ps) > 0,
        forall|i: int| 0 <= i < ps.len() ==> lo <= #[trigger] ps[i].trust_coefficient <= hi,
    ensures
        lo <= system_trust(ps) <= hi,
{
    lemma_weighted_bounds(ps, lo, hi);
    let st = stake_total(ps);
    let w = stake_trust_total(ps);
    let q = w / st;
    let r = w % st;
    vstd::arithmetic::div_mod::lemma_fundamental_div_mod(w, st);
    vstd::arithmetic::div_mod::lemma_mod_bound(w, st);
    assert(lo <= q) by (nonlinear_arith)
        requires
            st > 0,
            st * lo <= w,
            w == st * q + r,
            0 <= r < st,
    ;
    assert(q <= hi) by (nonlinear_arith)
        requires
            st > 0,
            w <= st * hi,
            w == st * q + r,
            0 <= r,
    ;
}

/// Sum of the stakes, or `None` where it exceeds `u64::MAX`.
fn sum_stakes(ps: &Vec<ParticipantSnapshot>) -> (r: Option<u64>)
    ensures
        match r {
            Some(t) => t == stake_total(ps@),
            None => stake_total(ps@) > u64::MAX,
        },
{
    let mut acc: u64 = 0;
    let mut i: usize = 0;
    while i < ps.len()
        invariant
            i <= ps.len(),
            acc == stake_total(ps@.take(i as int)),
        decreases ps.len() - i,
    {
        assert(ps@.take(i + 1).drop_last() == ps@.take(i as int));
        let s = ps[i].stake_amount_sats;
        if acc > u64::MAX - s {
            proof {
                lemma_stake_prefix(ps@, i + 1);
            }
            return None;
        }
        acc = acc + s;
        i = i + 1;
    }
    assert(ps@.take(ps.len() as int) == ps@);
    Some(acc)
}

/// Sum of stake times trust, or `None` where some trust coefficient is not positive.
fn sum_weighted_trust(ps: &Vec<ParticipantSnapshot>) -> (r: Option<u128>)
    requires
        stake_total(ps@) <= u64::MAX,
    ensures
        match r {
            Some(w) => trusts_positive(ps@) && w == stake_trust_total(ps@),
            None => !trusts_positive(ps@),
        },
{
    let mut acc: u128 = 0;
    let mut i: usize = 0;
    while i < ps.len()
        invariant
            i <= ps.len(),
            stake_total(ps@) <= u64::MAX,
            forall|j: int| 0 <= j < i ==> #[trigger] ps@[j].trust_coefficient > 0,
            acc == stake_trust_total(ps@.take(i as int)),
            acc <= stake_total(ps@.take(i as int)) * (i64::MAX as int),
        decreases ps.len() - i,
    {
        let p = &ps[i];
        if p.trust_coefficient <= 0 {
            return None;
        }
        let ghost pre = ps@.take(i as int);
        let ghost post = ps@.take(i + 1);
        assert(post.drop_last() == pre);
        assert(post.last() == ps@[i as int]);
        proof {
            lemma_stake_prefix(ps@, i + 1);
            lemma_stake_total_nonneg(pre);
        }
        let s = p.stake_amount_sats as u128;
        let t = p.trust_coefficient as u128;
        let ghost st = stake_total(pre);
        assert(s * t <= s * (i64::MAX as int)) by (nonlinear_arith)
            requires
                t <= i64::MAX,
        ;
        assert(acc + s * t <= (st + s) * (i64::MAX as int)) by (nonlinear_arith)
            requires
                acc <= st * (i64::MAX as int),
                s * t <= s * (i64::MAX as int),
        ;
        assert((st + s) * (i64::MAX as int) <= (u64::MAX as int) * (i64::MAX as int))
            by (nonlinear_arith)
            requires
                st + s <= u64::MAX,
                st + s >= 0,
        ;
        acc = acc + s * t;
        i = i + 1;
    }
    assert(ps@.take(ps.len() as int) == ps@);
    Some(acc)
}

/// The index in billionths from its terms, `None` where an intermediate
/// product exceeds `u128::MAX`.
fn rbi_from_terms(v_dld: u128, t_c: u64, growth: i64, d_s: i64) -> (r: Option<u128>)
    requires
        growth > 0,
        d_s > 0,
    ensures
        match rbi_ratio(v_dld as int, t_c as int, growth as int, d_s as int) {
            None => r.is_none(),
            Some(v) => r == Some(v as u128),
        },
{
    let vt = match v_dld.checked_mul(t_c as u128) {
        Some(x) => x,
        None => {
            return None;
        },
    };
    let num = vt / (SCALE as u128);
    let p = match num.checked_mul(growth as u128) {
        Some(x) => x,
        None => {
            return None;
        },
    };
    let den = d_s as u128;
    assert(p / den <= p) by (nonlinear_arith)
        requires
            den >= 1,
            p >= 0,
    ;
    Some(p / den)
}

/// Computes index snapshots and keeps every one of them, oldest first.
pub struct RBIEngine {
    thresholds: AlertThresholds,
    velocity_config: VelocityConfig,
    history: Vec<RBISnapshot>,
}

impl RBIEngine {
    pub closed spec fn spec_thresholds(&self) -> AlertThresholds {
        self.thresholds
    }

    pub closed spec fn spec_velocity_config(&self) -> VelocityConfig {
        self.velocity_config
    }

    pub closed spec fn spec_history(&self) -> Seq<RBISnapshot> {
        self.history@
    }

    /// The velocity bounds can be used to clamp.
    pub open spec fn wf(&self) -> bool {
        self.spec_velocity_config().min_velocity_multiplier
            <= self.spec_velocity_config().max_velocity_multiplier
    }

    /// An engine with the default thresholds and velocity bounds, and no history.
    pub fn new() -> (r: Self)
        ensures
            r.wf(),
            r.spec_thresholds() == default_thresholds(),
            r.spec_velocity_config() == default_velocity_config(),
            r.spec_history().len() == 0,
    {
        RBIEngine {
            thresholds: AlertThresholds::default(),
            velocity_config: VelocityConfig::default(),
            history: Vec::new(),
        }
    }

    pub fn with_thresholds(self, thresholds: AlertThresholds) -> (r: Self)
        ensures
            r.spec_thresholds() == thresholds,
            r.spec_velocity_config() == self.spec_velocity_config(),
            r.spec_history() == self.spec_history(),
    {
        RBIEngine { thresholds, ..self }
    }

    /// Replaces the velocity bounds; a lower bound above the upper one cannot clamp.
    pub fn with_velocity_config(self, cfg: VelocityConfig) -> (r: Self)
        requires
            cfg.min_velocity_multiplier <= cfg.max_velocity_multiplier,
        ensures
            r.wf(),
            r.spec_thresholds() == self.spec_thresholds(),
            r.spec_velocity_config() == cfg,
            r.spec_history() == self.spec_history(),
    {
        RBIEngine { velocity_config: cfg, ..self }
    }

    /// The most recent snapshot.
    pub fn latest(&self) -> (r: Option<&RBISnapshot>)
        ensures
            self.spec_history().len() == 0 ==> r.is_none(),
            self.spec_history().len() > 0 ==> r == Some(&self.spec_history().last()),
    {
        let n = self.history.len();
        if n == 0 {
            None
        } else {
            Some(&self.history[n - 1])
        }
    }

    /// Velocity-weighted distribution: sats times the velocity clamped to the
    /// configured bounds, per day of the epoch. Negative bounds can make it
    /// negative.
    fn calculate_dld_velocity(&self, pool_state: &DistributionPoolState) -> (r: Result<i128, RBIError>)
        requires
            self.wf(),
        ensures
            match r {
                Ok(v) => pool_state.epoch_duration_days > 0 && pool_state.average_participant_velocity
                    > 0 && v == dld_velocity(*pool_state, self.spec_velocity_config()),
                Err(e) => e.kind() == RbiErrorKind::InvalidState && (pool_state.epoch_duration_days
                    == 0 || pool_state.average_participant_velocity <= 0),
            },
    {
        if pool_state.epoch_duration_days == 0 {
            return Err(RBIError::InvalidState("epoch_days must be > 0".to_owned()));
        }
        let vel = pool_state.average_participant_velocity;
        if vel <= 0 {
            return Err(
                RBIError::InvalidState(
                    "average_participant_velocity must be finite and > 0".to_owned(),
                ),
            );
        }
        let clamped = clamp_i64(
            vel,
            self.velocity_config.min_velocity_multiplier,
            self.velocity_config.max_velocity_multiplier,
        );
        let n = pool_state.total_distributed_sats as i128;
        let c = clamped as i128;
        assert(-(u64::MAX as int) * (i64::MAX as int + 1) <= n * c <= (u64::MAX as int) * (
        i64::MAX as int)) by (nonlinear_arith)
            requires
                0 <= n <= u64::MAX,
                i64::MIN <= c <= i64::MAX,
        ;
        Ok(floor_div(n * c, pool_state.epoch_duration_days as u64))
    }

    /// Stake-weighted average trust coefficient; every coefficient must be
    /// positive.
    fn calculate_system_trust(&self, pool_state: &DistributionPoolState, total_stake: u64) -> (r:
        Result<u64, RBIError>)
        requires
            total_stake == stake_total(pool_state.participants@),
            total_stake > 0,
        ensures
            match r {
                Ok(t) => trusts_positive(pool_state.participants@) && t == system_trust(
                    pool_state.participants@,
                ),
                Err(e) => e.kind() == RbiErrorKind::InvalidState && !trusts_positive(
                    pool_state.participants@,
                ),
            },
    {
        let ps = &pool_state.participants;
        match sum_weighted_trust(ps) {
            Some(w) => {
                proof {
                    lemma_system_trust_within(ps@, 1, i64::MAX as int);
                }
                Ok((w / (total_stake as u128)) as u64)
            },
            None => Err(
                RBIError::InvalidState("trust_coefficient must be finite and > 0".to_owned()),
            ),
        }
    }

    /// Computes the index for `pool` at `height`, stamped with `timestamp`
    /// (seconds since the Unix epoch), and appends it to the history.
    ///
    /// An empty pool, or one without stake, and a demand shock under one
    /// billionth give an indeterminate snapshot. A value out of range gives an
    /// invalid one, of value 0. A rejected call leaves the history as it was.
    pub fn calculate_rbi_at(
        &mut self,
        pool_state: &DistributionPoolState,
        current_height: u64,
        timestamp: i64,
        reading: &EconomicReading,
    ) -> (r: Result<RBISnapshot, RBIError>)
        requires
            old(self).wf(),
        ensures
            final(self).wf(),
            final(self).spec_thresholds() == old(self).spec_thresholds(),
            final(self).spec_velocity_config() == old(self).spec_velocity_config(),
            match rbi_error_for(old(self).spec_velocity_config(), *pool_state, *reading) {
                Some(kind) => r.is_err() && r.unwrap_err().kind() == kind
                    && final(self).spec_history() == old(self).spec_history(),
                None => r.is_ok() && final(self).spec_history() == old(self).spec_history().push(r.unwrap()) && snapshot_matches(
                    r.unwrap(),
                    old(self).spec_thresholds(),
                    old(self).spec_velocity_config(),
                    *pool_state,
                    current_height,
                    timestamp,
                    *reading,
                ),
            },
    {
        if pool_state.epoch_duration_days == 0 {
            return Err(RBIError::InvalidState("epoch_duration_days must be > 0".to_owned()));
        }
        let d_s = reading.demand_shock;
        let a = reading.productivity;
        if d_s < 0 {
            return Err(RBIError::InvalidState("d_s must be finite and >= 0".to_owned()));
        }
        let ps = &pool_state.participants;
        let total = sum_stakes(ps);
        if ps.len() == 0 || total == Some(0u64) {
            let snapshot = RBISnapshot {
                timestamp,
                block_height: current_height,
                v_dld: 0,
                t_c: SCALE,
                d_s,
                productivity_a: a,
                rbi_value: 0,
                status: RbiStatus::Indeterminate,
                is_healthy: false,
                alert: None,
            };
            self.history.push(snapshot.duplicate());
            return Ok(snapshot);
        }
        let total = match total {
            Some(t) => t,
            None => {
                return Err(RBIError::InvalidState("total stake exceeds u64::MAX".to_owned()));
            },
        };
        let v = self.calculate_dld_velocity(pool_state)?;
        let t_c = self.calculate_system_trust(pool_state, total)?;
        if v < 0 {
            return Err(RBIError::InvalidState("v_dld must be finite and >= 0".to_owned()));
        }
        let v_dld = v as u128;
        if d_s == 0 {
            let snapshot = RBISnapshot {
                timestamp,
                block_height: current_height,
                v_dld,
                t_c,
                d_s,
                productivity_a: a,
                rbi_value: 0,
                status: RbiStatus::Indeterminate,
                is_healthy: false,
                alert: None,
            };
            self.history.push(snapshot.duplicate());
            return Ok(snapshot);
        }
        if reading.growth_factor <= 0 {
            return Err(RBIError::Calculation("e^A invalid".to_owned()));
        }
        let (rbi_value, status, is_healthy, alert) = match rbi_from_terms(
            v_dld,
            t_c,
            reading.growth_factor,
            d_s,
        ) {
            None => (0u128, RbiStatus::Invalid, false, None),
            Some(v) => {
                let status = if below(v, self.thresholds.critical_low) {
                    RbiStatus::Critical
                } else if below(v, self.thresholds.warning_low) {
                    RbiStatus::Warning
                } else if crate::alerts::above(v, self.thresholds.overheating_high) {
                    RbiStatus::Warning
                } else {
                    RbiStatus::Healthy
                };
                let is_healthy = !below(v, self.thresholds.warning_low);
                (v, status, is_healthy, evaluate_alert(v, &self.thresholds))
            },
        };
        let snapshot = RBISnapshot {
            timestamp,
            block_height: current_height,
            v_dld,
            t_c,
            d_s,
            productivity_a: a,
            rbi_value,
            status,
            is_healthy,
            alert,
        };
        self.history.push(snapshot.duplicate());
        Ok(snapshot)
    }

    /// Every snapshot so far, oldest first.
    pub fn history(&self) -> (r: &[RBISnapshot])
        ensures
            r@ == self.spec_history(),
    {
        self.history.as_slice()
    }
}

} // verus!
