use vstd::prelude::*;
use crate::units::{clamp_int, floor_div, SCALE};
use crate::utxo_scoring::{
    amount_total, freshness_of, utxo_freshness_score, weighted_age_days,
    weighted_utxo_age_days, UtxoEntry,
};
use crate::velocity_config::VelocityConfig;

verus! {

/// Outgoing transactions of an address set over a height window.
#[derive(Debug, Clone, Copy, PartialEq, Eq, Structural)]
pub struct TxActivity {
    pub count_outgoing: u32,
    /// Outgoing value in satoshis.
    pub volume_outgoing: u64,
}

#[derive(Debug, Clone, PartialEq, Eq)]
pub enum VelocityError {
    ParticipantNotFound,
    DataSource(String),
    InvalidData(String),
    Config(String),
}

/// The kind of a `VelocityError`, without its message.
#[derive(Debug, Clone, Copy, PartialEq, Eq, Structural)]
pub enum VelocityErrorKind {
    ParticipantNotFound,
    DataSource,
    InvalidData,
    Config,
}

impl VelocityError {
    pub open spec fn kind(&self) -> VelocityErrorKind {
        match self {
            VelocityError::ParticipantNotFound => VelocityErrorKind::ParticipantNotFound,
            VelocityError::DataSource(_) => VelocityErrorKind::DataSource,
            VelocityError::InvalidData(_) => VelocityErrorKind::InvalidData,
            VelocityError::Config(_) => VelocityErrorKind::Config,
        }
    }

}

/// Resolves a participant to its addresses.
pub trait ParticipantRegistry {
    fn addresses_for(&self, participant_id: &str) -> Result<Vec<String>, VelocityError>;
}

/// Chain data about address sets.
pub trait ChainDataSource {
    fn utxos_for_addresses(&self, addresses: &[String]) -> Result<Vec<UtxoEntry>, VelocityError>;

    /// Outgoing activity in `[start_height, end_height]`.
    fn outgoing_activity_for_addresses(
        &self,
        addresses: &[String],
        start_height: u64,
        end_height: u64,
    ) -> Result<TxActivity, VelocityError>;
}

/// A participant's velocity as computed at one height; scores in billionths.
#[derive(Debug, Clone)]
pub struct VelocityData {
    pub participant_id: String,
    /// Value-weighted UTXO age, in billionths of a day.
    pub utxo_age_weighted_avg_days: u128,
    pub tx_count_window: u32,
    pub tx_volume_window: u64,
    /// Velocity score limited to [0, 1].
    pub velocity_score: i64,
    /// Multiplier within the configured bounds.
    pub velocity_multiplier: i64,
    pub last_updated_height: u64,
}

/// Frequency score in billionths: `min(1, count / threshold)`, 0 for a threshold of 0.
pub open spec fn frequency_of(count: int, threshold: int) -> int {
    if threshold == 0 {
        0
    } else if count >= threshold {
        SCALE as int
    } else {
        count * SCALE / threshold
    }
}

/// Weighted sum of freshness and frequency, in billionths, rounded down.
pub open spec fn score_of(freshness: int, frequency: int, cfg: VelocityConfig) -> int {
    (freshness * cfg.utxo_freshness_weight + frequency * cfg.tx_frequency_weight) / (SCALE as int)
}

/// `1 + score / 2`, limited to the configured bounds.
pub open spec fn multiplier_of(score: int, cfg: VelocityConfig) -> int {
    clamp_int(
        SCALE + score / 2,
        cfg.min_velocity_multiplier as int,
        cfg.max_velocity_multiplier as int,
    )
}

/// `d` is what the outputs and activity give for `participant_id` at `height`.
pub open spec fn velocity_data_matches(
    d: VelocityData,
    cfg: VelocityConfig,
    participant_id: Seq<char>,
    utxos: Seq<UtxoEntry>,
    activity: TxActivity,
    height: u64,
) -> bool {
    let age = weighted_age_days(utxos, height);
    let freq = frequency_of(activity.count_outgoing as int, cfg.max_tx_threshold as int);
    let score = score_of(freshness_of(age), freq, cfg);
    &&& d.participant_id@ == participant_id
    &&& d.utxo_age_weighted_avg_days == age
    &&& d.tx_count_window == activity.count_outgoing
    &&& d.tx_volume_window == activity.volume_outgoing
    &&& d.velocity_score == clamp_int(score, 0, SCALE as int)
    &&& d.velocity_multiplier == multiplier_of(score, cfg)
    &&& d.last_updated_height == height
}

/// Outputs that hold no value, or none at all, give age 0 and full
/// freshness, so the score rests on the activity term alone.
pub proof fn lemma_no_value_full_freshness(
    utxos: Seq<UtxoEntry>,
    height: u64,
    frequency: int,
    cfg: VelocityConfig,
)
    requires
        amount_total(utxos) == 0,
    ensures
        weighted_age_days(utxos, height) == 0,
        freshness_of(weighted_age_days(utxos, height)) == SCALE,
        score_of(freshness_of(weighted_age_days(utxos, height)), frequency, cfg) == (SCALE
            * cfg.utxo_freshness_weight + frequency * cfg.tx_frequency_weight) / (SCALE as int),
{
    assert(weighted_age_days(utxos, height) == 0);
    let h = 30 * (SCALE as int);
    assert(h > 0);
    vstd::arithmetic::div_mod::lemma_div_multiples_vanish(SCALE as int, h);
    assert((SCALE as int) * h == h * (SCALE as int)) by (nonlinear_arith);
}

/// Refuses an empty address list: a participant without addresses cannot be scored.
pub fn require_addresses(addresses: &Vec<String>) -> (r: Result<(), VelocityError>)
    ensures
        r.is_err() <==> addresses@.len() == 0,
        r.is_err() ==> r.unwrap_err().kind() == VelocityErrorKind::InvalidData,
{
    if addresses.len() == 0 {
        Err(VelocityError::InvalidData("participant has no addresses".to_owned()))
    } else {
        Ok(())
    }
}

/// Frequency score for `count` outgoing transactions against `threshold`.
pub fn tx_frequency_score(count: u32, threshold: u32) -> (r: u64)
    ensures
        r == frequency_of(count as int, threshold as int),
        r <= SCALE,
{
    if threshold == 0 {
        0
    } else if count >= threshold {
        SCALE
    } else {
        let v = (count as u64) * SCALE / (threshold as u64);
        assert(v < SCALE) by (nonlinear_arith)
            requires
                v == (count as int) * SCALE / (threshold as int),
                count < threshold,
                threshold > 0,
        ;
        v
    }
}

/// Velocity score from freshness and frequency (both in `[0, SCALE]`).
pub fn velocity_score(freshness: u64, frequency: u64, cfg: &VelocityConfig) -> (r: i128)
    requires
        freshness <= SCALE,
        frequency <= SCALE,
    ensures
        r == score_of(freshness as int, frequency as int, *cfg),
        -(SCALE as int) * 2 * (i64::MAX as int) <= r <= (SCALE as int) * 2 * (i64::MAX as int),
{
    let f = freshness as i128;
    let q = frequency as i128;
    let wf = cfg.utxo_freshness_weight as i128;
    let wq = cfg.tx_frequency_weight as i128;
    assert(-(SCALE as int) * (i64::MAX as int + 1) <= f * wf <= (SCALE as int) * (i64::MAX as int))
        by (nonlinear_arith)
        requires
            0 <= f <= SCALE,
            i64::MIN <= wf <= i64::MAX,
    ;
    assert(-(SCALE as int) * (i64::MAX as int + 1) <= q * wq <= (SCALE as int) * (i64::MAX as int))
        by (nonlinear_arith)
        requires
            0 <= q <= SCALE,
            i64::MIN <= wq <= i64::MAX,
    ;
    let raw = f * wf + q * wq;
    let r = floor_div(raw, SCALE);
    assert(-(SCALE as int) * 2 * (i64::MAX as int) <= r <= (SCALE as int) * 2 * (i64::MAX as int))
        by (nonlinear_arith)
        requires
            r == (raw as int) / (SCALE as int),
            -(SCALE as int) * 2 * (i64::MAX as int + 1) <= raw <= (SCALE as int) * 2 * (
            i64::MAX as int),
    ;
    r
}

/// Multiplier `1 + score / 2`, limited to the configured bounds.
pub fn velocity_multiplier(score: i128, cfg: &VelocityConfig) -> (r: i64)
    requires
        cfg.min_velocity_multiplier <= cfg.max_velocity_multiplier,
        -(SCALE as int) * 2 * (i64::MAX as int) <= score <= (SCALE as int) * 2 * (i64::MAX as int),
    ensures
        r == multiplier_of(score as int, *cfg),
        cfg.min_velocity_multiplier <= r <= cfg.max_velocity_multiplier,
{
    let m = SCALE as i128 + floor_div(score, 2);
    if m < cfg.min_velocity_multiplier as i128 {
        cfg.min_velocity_multiplier
    } else if m > cfg.max_velocity_multiplier as i128 {
        cfg.max_velocity_multiplier
    } else {
        m as i64
    }
}

/// Velocity of `participant_id` at `current_height` from its outputs and
/// outgoing activity.
pub fn score_velocity(
    cfg: &VelocityConfig,
    participant_id: &str,
    utxos: &Vec<UtxoEntry>,
    activity: TxActivity,
    current_height: u64,
) -> (r: VelocityData)
    requires
        cfg.min_velocity_multiplier <= cfg.max_velocity_multiplier,
    ensures
        velocity_data_matches(r, *cfg, participant_id@, utxos@, activity, current_height),
{
    let age = weighted_utxo_age_days(utxos, current_height);
    let freshness = utxo_freshness_score(age);
    let frequency = tx_frequency_score(activity.count_outgoing, cfg.max_tx_threshold);
    let score = velocity_score(freshness, frequency, cfg);
    let multiplier = velocity_multiplier(score, cfg);
    let clamped_score: i64 = if score < 0 {
        0
    } else if score > SCALE as i128 {
        SCALE as i64
    } else {
        score as i64
    };
    VelocityData {
        participant_id: participant_id.to_owned(),
        utxo_age_weighted_avg_days: age,
        tx_count_window: activity.count_outgoing,
        tx_volume_window: activity.volume_outgoing,
        velocity_score: clamped_score,
        velocity_multiplier: multiplier,
        last_updated_height: current_height,
    }
}

} // verus!

verus! {

/// Participant ids appear once each, and every cached multiplier lies within
/// the configured bounds.
pub open spec fn cache_ok(cache: Seq<VelocityData>, cfg: VelocityConfig) -> bool {
    &&& forall|i: int, j: int|
        0 <= i < cache.len() && 0 <= j < cache.len() && i != j ==> (#[trigger] cache[i]).participant_id@
            != (#[trigger] cache[j]).participant_id@
    &&& forall|i: int|
        0 <= i < cache.len() ==> cfg.min_velocity_multiplier <= (#[trigger] cache[i]).velocity_multiplier
            <= cfg.max_velocity_multiplier
}

/// Index of the cache entry computed for `participant_id` at `height`.
pub open spec fn cached_at(cache: Seq<VelocityData>, participant_id: Seq<char>, height: u64) -> bool {
    exists|i: int|
        0 <= i < cache.len() && (#[trigger] cache[i]).participant_id@ == participant_id
            && cache[i].last_updated_height == height
}

/// Velocity multipliers per participant, each valid at the height where it
/// was computed.
pub struct VelocityAnalyzer<R: ParticipantRegistry, C: ChainDataSource> {
    cfg: VelocityConfig,
    registry: R,
    chain: C,
    cache: Vec<VelocityData>,
}

impl<R: ParticipantRegistry, C: ChainDataSource> VelocityAnalyzer<R, C> {
    pub closed spec fn spec_config(&self) -> VelocityConfig {
        self.cfg
    }

    pub closed spec fn spec_cache(&self) -> Seq<VelocityData> {
        self.cache@
    }

    pub open spec fn wf(&self) -> bool {
        self.spec_config().is_valid() && cache_ok(self.spec_cache(), self.spec_config())
    }

    /// An analyzer with an empty cache; an unusable configuration is refused.
    pub fn new(cfg: VelocityConfig, registry: R, chain: C) -> (r: Result<Self, VelocityError>)
        ensures
            r.is_ok() <==> cfg.is_valid(),
            match r {
                Ok(a) => a.wf() && a.spec_config() == cfg && a.spec_cache().len() == 0,
                Err(e) => e.kind() == VelocityErrorKind::Config,
            },
    {
        match cfg.validate() {
            Err(msg) => Err(VelocityError::Config(msg)),
            Ok(()) => Ok(VelocityAnalyzer { cfg, registry, chain, cache: Vec::new() }),
        }
    }

    pub fn config(&self) -> (r: &VelocityConfig)
        ensures
            *r == self.spec_config(),
    {
        &self.cfg
    }

    fn position(&self, key: &String) -> (r: Option<usize>)
        ensures
            match r {
                Some(i) => i < self.spec_cache().len() && self.spec_cache()[i as int].participant_id@
                    == key@,
                None => forall|i: int|
                    0 <= i < self.spec_cache().len() ==> (#[trigger] self.spec_cache()[i]).participant_id@
                        != key@,
            },
    {
        let mut i: usize = 0;
        while i < self.cache.len()
            invariant
                i <= self.cache@.len(),
                forall|j: int| 0 <= j < i ==> (#[trigger] self.cache@[j]).participant_id@ != key@,
            decreases self.cache@.len() - i,
        {
            if self.cache[i].participant_id == *key {
                return Some(i);
            }
            i = i + 1;
        }
        None
    }

    /// The entry for `participant_id` if it was computed at `height`.
    pub fn get_cached(&self, participant_id: &str, height: u64) -> (r: Option<&VelocityData>)
        requires
            self.wf(),
        ensures
            match r {
                Some(d) => exists|i: int|
                    0 <= i < self.spec_cache().len() && *d == #[trigger] self.spec_cache()[i]
                        && d.participant_id@ == participant_id@ && d.last_updated_height == height,
                None => !cached_at(self.spec_cache(), participant_id@, height),
            },
    {
        let key = participant_id.to_owned();
        match self.position(&key) {
            Some(i) => {
                if self.cache[i].last_updated_height == height {
                    Some(&self.cache[i])
                } else {
                    assert(!cached_at(self.spec_cache(), participant_id@, height)) by {
                        if cached_at(self.spec_cache(), participant_id@, height) {
                            let j = choose|j: int|
                                0 <= j < self.spec_cache().len()
                                    && (#[trigger] self.spec_cache()[j]).participant_id@
                                    == participant_id@ && self.spec_cache()[j].last_updated_height
                                    == height;
                            assert(j != i);
                        }
                    }
                    None
                }
            },
            None => None,
        }
    }

    /// Computes the velocity of `participant_id` at `current_height` from the
    /// registry and the chain, without touching the cache.
    pub fn analyze(&self, participant_id: &str, current_height: u64) -> (r: Result<
        VelocityData,
        VelocityError,
    >)
        requires
            self.wf(),
        ensures
            match r {
                Ok(d) => (exists|utxos: Seq<UtxoEntry>, activity: TxActivity|
                    velocity_data_matches(
                        d,
                        self.spec_config(),
                        participant_id@,
                        utxos,
                        activity,
                        current_height,
                    )) && self.spec_config().min_velocity_multiplier <= d.velocity_multiplier
                    <= self.spec_config().max_velocity_multiplier,
                Err(_) => true,
            },
    {
        let addresses = self.registry.addresses_for(participant_id)?;
        require_addresses(&addresses)?;
        let utxos = self.chain.utxos_for_addresses(addresses.as_slice())?;
        let window_blocks = self.cfg.window_blocks();
        let start_height = current_height.saturating_sub(window_blocks);
        let activity = self.chain.outgoing_activity_for_addresses(
            addresses.as_slice(),
            start_height,
            current_height,
        )?;
        let d = score_velocity(&self.cfg, participant_id, &utxos, activity, current_height);
        assert(velocity_data_matches(
            d,
            self.spec_config(),
            participant_id@,
            utxos@,
            activity,
            current_height,
        ));
        Ok(d)
    }

    /// The multiplier of `participant_id` at `current_height`: the cached one
    /// if it was computed at that height, else a new one, which replaces the
    /// participant's cache entry.
    pub fn calculate_velocity_multiplier(&mut self, participant_id: &str, current_height: u64) -> (r:
        Result<i64, VelocityError>)
        requires
            old(self).wf(),
        ensures
            final(self).wf(),
            final(self).spec_config() == old(self).spec_config(),
            match r {
                Ok(m) => old(self).spec_config().min_velocity_multiplier <= m
                    <= old(self).spec_config().max_velocity_multiplier && exists|i: int|
                    0 <= i < final(self).spec_cache().len()
                        && (#[trigger] final(self).spec_cache()[i]).participant_id@
                        == participant_id@ && final(self).spec_cache()[i].last_updated_height
                        == current_height && final(self).spec_cache()[i].velocity_multiplier == m,
                Err(_) => final(self).spec_cache() == old(self).spec_cache(),
            },
            cached_at(old(self).spec_cache(), participant_id@, current_height) ==> final(self).spec_cache() == old(self).spec_cache() && r.is_ok(),
            !cached_at(old(self).spec_cache(), participant_id@, current_height) && r.is_ok() ==> exists|i: int|
                0 <= i < final(self).spec_cache().len()
                    && (#[trigger] final(self).spec_cache()[i]).participant_id@ == participant_id@
                    && exists|utxos: Seq<UtxoEntry>, activity: TxActivity|
                    velocity_data_matches(
                        final(self).spec_cache()[i],
                        old(self).spec_config(),
                        participant_id@,
                        utxos,
                        activity,
                        current_height,
                    ),
            forall|j: int|
                0 <= j < final(self).spec_cache().len() && (#[trigger] final(self).spec_cache()[j]).participant_id@
                    != participant_id@ ==> exists|i: int|
                    0 <= i < old(self).spec_cache().len() && old(self).spec_cache()[i] == final(self).spec_cache()[j],
            forall|i: int|
                0 <= i < old(self).spec_cache().len() && (#[trigger] old(self).spec_cache()[i]).participant_id@ != participant_id@ ==> exists|j: int|
                    0 <= j < final(self).spec_cache().len() && final(self).spec_cache()[j] == old(self).spec_cache()[i],
    {
        match self.get_cached(participant_id, current_height) {
            Some(cached) => {
                let ghost c = self.cache@;
                assert forall|j: int|
                    0 <= j < c.len() && (#[trigger] c[j]).participant_id@ != participant_id@ implies exists|i: int|
                    0 <= i < c.len() && c[i] == c[j] by {
                    assert(c[j] == c[j]);
                }
                assert forall|i: int|
                    0 <= i < c.len() && (#[trigger] c[i]).participant_id@
                        != participant_id@ implies exists|j: int|
                    0 <= j < c.len() && c[j] == c[i] by {
                    assert(c[i] == c[i]);
                }
                return Ok(cached.velocity_multiplier);
            },
            None => {},
        }
        let data = self.analyze(participant_id, current_height)?;
        let multiplier = data.velocity_multiplier;
        let ghost old_cache = self.cache@;
        match self.position(&data.participant_id) {
            Some(p) => {
                self.cache.set(p, data);
                assert forall|j: int|
                    0 <= j < self.spec_cache().len() && (#[trigger] self.spec_cache()[j]).participant_id@
                        != participant_id@ implies exists|i: int|
                    0 <= i < old_cache.len() && old_cache[i] == self.spec_cache()[j] by {
                    assert(j != p);
                    assert(old_cache[j] == self.spec_cache()[j]);
                }
                assert(self.spec_cache()[p as int].participant_id@ == participant_id@);
                assert(self.spec_cache()[p as int].velocity_multiplier == multiplier);
                assert forall|i: int|
                    0 <= i < old_cache.len() && (#[trigger] old_cache[i]).participant_id@
                        != participant_id@ implies exists|j: int|
                    0 <= j < self.spec_cache().len() && self.spec_cache()[j] == old_cache[i] by {
                    assert(i != p);
                    assert(self.spec_cache()[i] == old_cache[i]);
                }
            },
            None => {
                self.cache.push(data);
                assert forall|j: int|
                    0 <= j < self.spec_cache().len() && (#[trigger] self.spec_cache()[j]).participant_id@
                        != participant_id@ implies exists|i: int|
                    0 <= i < old_cache.len() && old_cache[i] == self.spec_cache()[j] by {
                    assert(j < old_cache.len());
                    assert(old_cache[j] == self.spec_cache()[j]);
                }
                assert(self.spec_cache()[old_cache.len() as int].participant_id@ == participant_id@);
                assert(self.spec_cache()[old_cache.len() as int].velocity_multiplier == multiplier);
                assert forall|i: int|
                    0 <= i < old_cache.len() && (#[trigger] old_cache[i]).participant_id@
                        != participant_id@ implies exists|j: int|
                    0 <= j < self.spec_cache().len() && self.spec_cache()[j] == old_cache[i] by {
                    assert(self.spec_cache()[i] == old_cache[i]);
                }
            },
        }
        Ok(multiplier)
    }

    /// Forgets every cached entry.
    pub fn clear_cache(&mut self)
        requires
            old(self).wf(),
        ensures
            final(self).wf(),
            final(self).spec_config() == old(self).spec_config(),
            final(self).spec_cache().len() == 0,
    {
        self.cache.clear();
    }
}

} // verus!
