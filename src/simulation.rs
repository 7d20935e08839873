use vstd::prelude::*;
use vstd::string::StringSliceAdditionalSpecFns;
use crate::activity::contains_address;
use crate::addresses::{
    lemma_text_lt_irreflexive, lemma_text_lt_total, lemma_text_lt_transitive, normalized_addresses,
    text_less, text_lt, texts,
};
use crate::alerts::{AlertThresholds, RBIAlert};
use crate::economic_oracle::{EconomicError, EconomicReading};
use crate::rbi_engine::{
    snapshot_matches, stake_total, DistributionPoolState, ParticipantSnapshot, RBIEngine, RBIError,
    RBISnapshot, RbiStatus,
};
use crate::utxo_scoring::UtxoEntry;
use crate::velocity_analyzer::{
    ChainDataSource, ParticipantRegistry, TxActivity, VelocityAnalyzer, VelocityError,
};
use crate::velocity_config::VelocityConfig;
use crate::units::floor_div;

verus! {

/// Outgoing activity of one address in a synthetic run.
#[derive(Debug, Clone)]
pub struct SimulationActivity {
    pub address: String,
    pub count_outgoing: u32,
    pub volume_outgoing_sats: u64,
}

/// A participant of a synthetic run; trust in billionths.
#[derive(Debug, Clone)]
pub struct SimulationParticipant {
    pub participant_id: String,
    pub stake_sats: u64,
    pub trust_coefficient: i64,
    pub addresses: Vec<String>,
}

/// Participants in order of id.
pub open spec fn sorted_by_id(ps: Seq<SimulationParticipant>) -> bool {
    forall|i: int, j: int| 0 <= i < j < ps.len() ==> !text_lt((#[trigger] ps[j]).participant_id@, (#[trigger] ps[i]).participant_id@)
}

/// The participants in order of id; equal ids keep no particular order.
pub fn sort_participants(ps: Vec<SimulationParticipant>) -> (r: Vec<SimulationParticipant>)
    ensures
        sorted_by_id(r@),
        r@.to_multiset() == ps@.to_multiset(),
{
    broadcast use vstd::seq_lib::to_multiset_insert, vstd::seq_lib::to_multiset_remove;

    let ghost orig = ps@;
    let mut rest = ps;
    let mut out: Vec<SimulationParticipant> = Vec::new();
    assert(out@.to_multiset() =~= vstd::multiset::Multiset::empty()) by {
        broadcast use vstd::seq_lib::to_multiset_len;
        assert(out@.to_multiset().len() == 0);
    }
    while rest.len() > 0
        invariant
            sorted_by_id(out@),
            out@.to_multiset().add(rest@.to_multiset()) == orig.to_multiset(),
        decreases rest@.len(),
    {
        let ghost before_rest = rest@;
        let p = rest.pop().unwrap();
        assert(before_rest.remove(before_rest.len() - 1) == rest@);
        let mut j: usize = 0;
        while j < out.len() && !text_less(p.participant_id.as_str(), out[j].participant_id.as_str())
            invariant
                j <= out@.len(),
                forall|k: int| 0 <= k < j ==> !text_lt(p.participant_id@, (#[trigger] out@[k]).participant_id@),
            decreases out@.len() - j,
        {
            j = j + 1;
        }
        let ghost before = out@;
        out.insert(j, p);
        let ghost after = out@;
        assert(after == before.insert(j as int, p));
        assert forall|a: int, b: int| 0 <= a < b < after.len() implies !text_lt(
            (#[trigger] after[b]).participant_id@,
            (#[trigger] after[a]).participant_id@,
        ) by {
            if b < j {
                assert(after[a] == before[a] && after[b] == before[b]);
            } else if b == j {
                assert(after[a] == before[a]);
                let x = before[a].participant_id@;
                let y = p.participant_id@;
                if text_lt(y, x) {
                    assert(!text_lt(y, x));
                }
            } else if a == j {
                assert(after[b] == before[b - 1]);
                let y = p.participant_id@;
                let z = before[j as int].participant_id@;
                let w = before[b - 1].participant_id@;
                assert(text_lt(y, z));
                if b - 1 > j {
                    assert(!text_lt(w, z));
                    if z != w {
                        lemma_text_lt_total(z, w);
                        lemma_text_lt_transitive(y, z, w);
                    }
                }
                if text_lt(w, y) {
                    lemma_text_lt_transitive(w, y, w);
                    lemma_text_lt_irreflexive(w);
                }
            } else if a < j {
                assert(after[a] == before[a] && after[b] == before[b - 1]);
            } else {
                assert(after[a] == before[a - 1] && after[b] == before[b - 1]);
            }
        }
        proof {
            vstd::seq_lib::to_multiset_insert(before, j as int, p);
            vstd::seq_lib::to_multiset_remove(before_rest, before_rest.len() - 1);
        }
        assert(after.to_multiset() == before.to_multiset().insert(p));
        assert(before_rest.to_multiset().remove(p) == rest@.to_multiset());
        assert(before_rest.to_multiset().contains(p)) by {
            broadcast use vstd::seq_lib::to_multiset_contains;
            assert(before_rest.contains(p)) by {
                assert(before_rest[before_rest.len() - 1] == p);
            }
        }
        assert(after.to_multiset().add(rest@.to_multiset()) =~= before.to_multiset().add(before_rest.to_multiset()));
    }
    assert(rest@.to_multiset() =~= vstd::multiset::Multiset::empty()) by {
        broadcast use vstd::seq_lib::to_multiset_len;
        assert(rest@.to_multiset().len() == 0);
    }
    assert(out@.to_multiset() =~= out@.to_multiset().add(rest@.to_multiset()));
    out
}

/// A broken expectation found in a synthetic run.
#[derive(Debug, Clone, PartialEq, Eq)]
pub struct InvariantViolation {
    pub step_index: u64,
    pub kind: String,
    pub message: String,
}

/// Multiplicative hash of the bytes, base 131, modulo 2^64.
pub open spec fn seed_hash(bytes: Seq<u8>) -> u64
    decreases bytes.len(),
{
    if bytes.len() == 0 {
        0
    } else {
        seed_hash(bytes.drop_last()).wrapping_mul(131).wrapping_add(bytes.last() as u64)
    }
}

/// A start height in `[100_000, 110_000)` drawn from a seed text, the same
/// on every run.
pub fn deterministic_height(seed: &str) -> (r: u64)
    ensures
        r == 100_000 + seed_hash(seed.spec_bytes()) % 10_000,
        100_000 <= r < 110_000,
{
    let bytes = seed.as_bytes();
    let mut acc: u64 = 0;
    let mut i: usize = 0;
    while i < bytes.len()
        invariant
            i <= bytes@.len(),
            bytes@ == seed.spec_bytes(),
            acc == seed_hash(bytes@.take(i as int)),
        decreases bytes@.len() - i,
    {
        assert(bytes@.take(i + 1).drop_last() == bytes@.take(i as int));
        acc = acc.wrapping_mul(131).wrapping_add(bytes[i] as u64);
        i = i + 1;
    }
    assert(bytes@.take(bytes@.len() as int) == bytes@);
    100_000 + (acc % 10_000)
}


/// An unspent output of a synthetic run, with the address holding it.
#[derive(Debug, Clone)]
pub struct SimulationUtxo {
    pub address: String,
    pub txid: [u8; 32],
    pub vout: u32,
    pub amount_sats: u64,
    pub height: u64,
}

/// The inputs of one step of a synthetic run.
#[derive(Debug, Clone)]
pub struct SimulationStepInput {
    pub step_index: u64,
    pub block_height: u64,
    pub total_distributed_sats: u64,
    pub epoch_duration_days: u32,
    pub participants: Vec<SimulationParticipant>,
    pub utxos: Vec<SimulationUtxo>,
    pub activities: Vec<SimulationActivity>,
    pub economic: EconomicReading,
}

/// A copy of the strings.
pub fn copy_strings(v: &Vec<String>) -> (r: Vec<String>)
    ensures
        r@ == v@,
{
    let mut out: Vec<String> = Vec::new();
    let mut i: usize = 0;
    while i < v.len()
        invariant
            i <= v@.len(),
            out@ == v@.take(i as int),
        decreases v@.len() - i,
    {
        out.push(v[i].clone());
        i = i + 1;
        assert(out@ =~= v@.take(i as int));
    }
    assert(v@.take(v@.len() as int) == v@);
    out
}

/// Participant addresses from the step's participant list, each list sorted
/// and without repeats.
pub struct SimRegistry {
    entries: Vec<SimulationParticipant>,
}

impl SimRegistry {
    pub fn new(participants: &Vec<SimulationParticipant>) -> (r: Self) {
        let mut entries: Vec<SimulationParticipant> = Vec::new();
        let mut i: usize = 0;
        while i < participants.len()
            invariant
                i <= participants@.len(),
            decreases participants@.len() - i,
        {
            let p = &participants[i];
            entries.push(
                SimulationParticipant {
                    participant_id: p.participant_id.clone(),
                    stake_sats: p.stake_sats,
                    trust_coefficient: p.trust_coefficient,
                    addresses: normalized_addresses(p.addresses.as_slice()),
                },
            );
            i = i + 1;
        }
        SimRegistry { entries }
    }
}

impl ParticipantRegistry for SimRegistry {
    /// The addresses of the last participant listed under the id.
    fn addresses_for(&self, participant_id: &str) -> Result<Vec<String>, VelocityError> {
        let key = participant_id.to_owned();
        let mut found: Option<usize> = None;
        let mut i: usize = 0;
        while i < self.entries.len()
            invariant
                i <= self.entries@.len(),
                match found {
                    Some(k) => k < self.entries@.len(),
                    None => true,
                },
            decreases self.entries@.len() - i,
        {
            if self.entries[i].participant_id == key {
                found = Some(i);
            }
            i = i + 1;
        }
        match found {
            Some(k) => Ok(copy_strings(&self.entries[k].addresses)),
            None => Err(VelocityError::ParticipantNotFound),
        }
    }
}

/// Chain data from the step's outputs and activity lists.
pub struct SimChain {
    utxos: Vec<SimulationUtxo>,
    activities: Vec<SimulationActivity>,
}

impl SimChain {
    pub fn new(utxos: &Vec<SimulationUtxo>, activities: &Vec<SimulationActivity>) -> (r: Self) {
        let mut us: Vec<SimulationUtxo> = Vec::new();
        let mut i: usize = 0;
        while i < utxos.len()
            invariant
                i <= utxos@.len(),
            decreases utxos@.len() - i,
        {
            let u = &utxos[i];
            us.push(
                SimulationUtxo {
                    address: u.address.clone(),
                    txid: u.txid,
                    vout: u.vout,
                    amount_sats: u.amount_sats,
                    height: u.height,
                },
            );
            i = i + 1;
        }
        let mut acts: Vec<SimulationActivity> = Vec::new();
        let mut j: usize = 0;
        while j < activities.len()
            invariant
                j <= activities@.len(),
            decreases activities@.len() - j,
        {
            let a = &activities[j];
            acts.push(
                SimulationActivity {
                    address: a.address.clone(),
                    count_outgoing: a.count_outgoing,
                    volume_outgoing_sats: a.volume_outgoing_sats,
                },
            );
            j = j + 1;
        }
        SimChain { utxos: us, activities: acts }
    }

    /// Activity summed over the addresses, saturating; for each address the
    /// last entry listed counts.
    pub fn aggregate_activity(&self, addresses: &[String]) -> (r: TxActivity) {
        let mut count: u32 = 0;
        let mut volume: u64 = 0;
        let mut i: usize = 0;
        while i < addresses.len()
            invariant
                i <= addresses@.len(),
            decreases addresses@.len() - i,
        {
            let mut found: Option<usize> = None;
            let mut j: usize = 0;
            while j < self.activities.len()
                invariant
                    i < addresses@.len(),
                    j <= self.activities@.len(),
                    match found {
                        Some(k) => k < self.activities@.len(),
                        None => true,
                    },
                decreases self.activities@.len() - j,
            {
                if self.activities[j].address == addresses[i] {
                    found = Some(j);
                }
                j = j + 1;
            }
            match found {
                Some(k) => {
                    count = count.saturating_add(self.activities[k].count_outgoing);
                    volume = volume.saturating_add(self.activities[k].volume_outgoing_sats);
                },
                None => {},
            }
            i = i + 1;
        }
        TxActivity { count_outgoing: count, volume_outgoing: volume }
    }
}

impl ChainDataSource for SimChain {
    /// The outputs of each address, addresses in sorted order.
    fn utxos_for_addresses(&self, addresses: &[String]) -> Result<Vec<UtxoEntry>, VelocityError> {
        let sorted = normalized_addresses(addresses);
        let mut entries: Vec<UtxoEntry> = Vec::new();
        let mut i: usize = 0;
        while i < sorted.len()
            invariant
                i <= sorted@.len(),
            decreases sorted@.len() - i,
        {
            let mut j: usize = 0;
            while j < self.utxos.len()
                invariant
                    i < sorted@.len(),
                    j <= self.utxos@.len(),
                decreases self.utxos@.len() - j,
            {
                let u = &self.utxos[j];
                if u.address == sorted[i] {
                    entries.push(
                        UtxoEntry { txid: u.txid, vout: u.vout, amount: u.amount_sats, height: u.height },
                    );
                }
                j = j + 1;
            }
            i = i + 1;
        }
        Ok(entries)
    }

    fn outgoing_activity_for_addresses(
        &self,
        addresses: &[String],
        start_height: u64,
        end_height: u64,
    ) -> Result<TxActivity, VelocityError> {
        Ok(self.aggregate_activity(addresses))
    }
}

/// `a` and `b` have an address in common.
pub open spec fn shares_address(a: SimulationParticipant, b: SimulationParticipant) -> bool {
    exists|k: int| 0 <= k < a.addresses@.len() && texts(b.addresses@).contains(#[trigger] a.addresses@[k]@)
}

/// Two participants of different ids hold a common address.
pub open spec fn address_reused(ps: Seq<SimulationParticipant>) -> bool {
    exists|i: int, j: int|
        0 <= i < j < ps.len() && (#[trigger] ps[i]).participant_id@ != (#[trigger] ps[j]).participant_id@
            && shares_address(ps[i], ps[j])
}

/// Whether `a` and `b` have an address in common.
pub fn have_common_address(a: &SimulationParticipant, b: &SimulationParticipant) -> (r: bool)
    ensures
        r == shares_address(*a, *b),
{
    let mut k: usize = 0;
    while k < a.addresses.len()
        invariant
            k <= a.addresses@.len(),
            forall|q: int| 0 <= q < k ==> !texts(b.addresses@).contains(#[trigger] a.addresses@[q]@),
        decreases a.addresses@.len() - k,
    {
        if contains_address(&b.addresses, &a.addresses[k]) {
            return true;
        }
        k = k + 1;
    }
    false
}

/// Refuses participant lists in which two different ids share an address.
pub fn ensure_unique_addresses(participants: &Vec<SimulationParticipant>) -> (r: Result<(), String>)
    ensures
        r.is_err() <==> address_reused(participants@),
{
    let n = participants.len();
    let mut i: usize = 0;
    while i < n
        invariant
            n == participants@.len(),
            i <= n,
            forall|a: int, b: int|
                0 <= a < i && a < b < n ==> !((#[trigger] participants@[a]).participant_id@
                    != (#[trigger] participants@[b]).participant_id@ && shares_address(
                    participants@[a],
                    participants@[b],
                )),
        decreases n - i,
    {
        let mut j: usize = i + 1;
        while j < n
            invariant
                n == participants@.len(),
                i < n,
                i + 1 <= j <= n,
                forall|a: int, b: int|
                    0 <= a < i && a < b < n ==> !((#[trigger] participants@[a]).participant_id@
                        != (#[trigger] participants@[b]).participant_id@ && shares_address(
                        participants@[a],
                        participants@[b],
                    )),
                forall|b: int|
                    i < b < j ==> !(participants@[i as int].participant_id@
                        != (#[trigger] participants@[b]).participant_id@ && shares_address(
                        participants@[i as int],
                        participants@[b],
                    )),
            decreases n - j,
        {
            let p = &participants[i];
            let q = &participants[j];
            if p.participant_id != q.participant_id && have_common_address(p, q) {
                assert(participants@[i as int].participant_id@ != participants@[j as int].participant_id@);
                return Err("address reused across participants".to_owned());
            }
            j = j + 1;
        }
        i = i + 1;
    }
    Ok(())
}

/// Text of a velocity error.
pub fn velocity_error_text(e: &VelocityError) -> (r: String)
    ensures
        r@ == match e {
            VelocityError::ParticipantNotFound => "participant not found"@,
            VelocityError::DataSource(m) => m@,
            VelocityError::InvalidData(m) => m@,
            VelocityError::Config(m) => m@,
        },
{
    match e {
        VelocityError::ParticipantNotFound => "participant not found".to_owned(),
        VelocityError::DataSource(m) => m.clone(),
        VelocityError::InvalidData(m) => m.clone(),
        VelocityError::Config(m) => m.clone(),
    }
}

/// Text of an index error.
pub fn rbi_error_text(e: &RBIError) -> (r: String)
    ensures
        r@ == match e {
            RBIError::Economic(EconomicError::Provider(m)) => m@,
            RBIError::Economic(EconomicError::InvalidData(m)) => m@,
            RBIError::InvalidState(m) => m@,
            RBIError::Calculation(m) => m@,
        },
{
    match e {
        RBIError::Economic(EconomicError::Provider(m)) => m.clone(),
        RBIError::Economic(EconomicError::InvalidData(m)) => m.clone(),
        RBIError::InvalidState(m) => m.clone(),
        RBIError::Calculation(m) => m.clone(),
    }
}

/// What one step of a synthetic run produced: a snapshot, or the error
/// that stopped it.
#[derive(Debug, Clone)]
pub struct StepExecution {
    pub step_index: u64,
    pub block_height: u64,
    pub participant_count: usize,
    pub total_stake_sats: u64,
    /// Stake-weighted average multiplier, in billionths.
    pub average_velocity: Option<i64>,
    pub rbi_snapshot: Option<RBISnapshot>,
    pub error: Option<String>,
}

/// Sum of the participants' stakes.
pub open spec fn sim_stake_total(ps: Seq<SimulationParticipant>) -> int
    decreases ps.len(),
{
    if ps.len() == 0 {
        0
    } else {
        sim_stake_total(ps.drop_last()) + ps.last().stake_sats
    }
}

proof fn lemma_sim_total_remove(t: Seq<SimulationParticipant>, j: int)
    requires
        0 <= j < t.len(),
    ensures
        sim_stake_total(t) == sim_stake_total(t.remove(j)) + t[j].stake_sats,
    decreases t.len(),
{
    if j == t.len() - 1 {
        assert(t.remove(j) =~= t.drop_last());
    } else {
        assert(t.remove(j).drop_last() =~= t.drop_last().remove(j));
        assert(t.remove(j).last() == t.last());
        lemma_sim_total_remove(t.drop_last(), j);
    }
}

/// The total stake does not depend on the order of the participants.
pub proof fn lemma_sim_total_permutation(s: Seq<SimulationParticipant>, t: Seq<SimulationParticipant>)
    requires
        s.to_multiset() == t.to_multiset(),
    ensures
        sim_stake_total(s) == sim_stake_total(t),
    decreases s.len(),
{
    vstd::seq_lib::to_multiset_len(s);
    vstd::seq_lib::to_multiset_len(t);
    if s.len() > 0 {
        let x = s.last();
        vstd::seq_lib::to_multiset_contains(s, x);
        assert(s.contains(x)) by {
            assert(s[s.len() - 1] == x);
        }
        vstd::seq_lib::to_multiset_contains(t, x);
        let j = choose|j: int| 0 <= j < t.len() && t[j] == x;
        vstd::seq_lib::to_multiset_remove(t, j);
        vstd::seq_lib::to_multiset_remove(s, s.len() - 1);
        assert(s.remove(s.len() - 1) =~= s.drop_last());
        lemma_sim_total_permutation(s.drop_last(), t.remove(j));
        lemma_sim_total_remove(t, j);
    }
}

/// A copy of a participant, field for field.
pub fn copy_participant(p: &SimulationParticipant) -> (r: SimulationParticipant)
    ensures
        r.participant_id == p.participant_id,
        r.stake_sats == p.stake_sats,
        r.trust_coefficient == p.trust_coefficient,
        r.addresses@ == p.addresses@,
{
    SimulationParticipant {
        participant_id: p.participant_id.clone(),
        stake_sats: p.stake_sats,
        trust_coefficient: p.trust_coefficient,
        addresses: copy_strings(&p.addresses),
    }
}

/// A copy of the participant list, with the same stakes in the same order.
pub fn copy_participants(ps: &Vec<SimulationParticipant>) -> (r: Vec<SimulationParticipant>)
    ensures
        r@.len() == ps@.len(),
        sim_stake_total(r@) == sim_stake_total(ps@),
{
    let mut out: Vec<SimulationParticipant> = Vec::new();
    let mut i: usize = 0;
    while i < ps.len()
        invariant
            i <= ps@.len(),
            out@.len() == i,
            sim_stake_total(out@) == sim_stake_total(ps@.take(i as int)),
        decreases ps@.len() - i,
    {
        let ghost before = out@;
        out.push(copy_participant(&ps[i]));
        assert(out@.drop_last() == before);
        assert(ps@.take(i + 1).drop_last() == ps@.take(i as int));
        i = i + 1;
    }
    assert(ps@.take(ps@.len() as int) == ps@);
    out
}

/// A step's timestamp: its index, in seconds since the Unix epoch; 0 where
/// that does not fit.
pub open spec fn step_timestamp(step_index: u64) -> i64 {
    if step_index <= i64::MAX {
        step_index as i64
    } else {
        0
    }
}

/// A demand shock of 0 with a status other than indeterminate or invalid.
pub open spec fn demand_violation(step: StepExecution) -> bool {
    &&& step.rbi_snapshot.is_some()
    &&& step.rbi_snapshot.unwrap().d_s == 0
    &&& step.rbi_snapshot.unwrap().status != RbiStatus::Indeterminate
    &&& step.rbi_snapshot.unwrap().status != RbiStatus::Invalid
}

/// A healthy snapshot for a pool without participants or without stake.
pub open spec fn zero_participation_violation(step: StepExecution) -> bool {
    &&& step.rbi_snapshot.is_some()
    &&& (step.participant_count == 0 || step.total_stake_sats == 0)
    &&& step.rbi_snapshot.unwrap().is_healthy
}

fn saturating_stake_sum(ps: &Vec<SimulationParticipant>) -> u64 {
    let mut total: u64 = 0;
    let mut i: usize = 0;
    while i < ps.len()
        invariant
            i <= ps@.len(),
        decreases ps@.len() - i,
    {
        total = total.saturating_add(ps[i].stake_sats);
        i = i + 1;
    }
    total
}

fn failed_step(input: &SimulationStepInput, count: usize, total: u64, message: String) -> (r:
    StepExecution)
    ensures
        r.step_index == input.step_index,
        r.block_height == input.block_height,
        r.participant_count == count,
        r.error.is_some(),
        r.rbi_snapshot.is_none(),
        r.average_velocity.is_none(),
{
    StepExecution {
        step_index: input.step_index,
        block_height: input.block_height,
        participant_count: count,
        total_stake_sats: total,
        average_velocity: None,
        rbi_snapshot: None,
        error: Some(message),
    }
}

/// Runs one step: addresses checked for reuse across ids, participants in
/// order of id, a velocity multiplier per participant at the step's height,
/// their stake-weighted average, then the index on a fresh engine.
///
/// A step that yields a snapshot never reports a pool without participants
/// or stake as healthy, nor a zero demand shock as anything but
/// indeterminate.
pub fn execute_step(
    input: &SimulationStepInput,
    cfg: &VelocityConfig,
    thresholds: &AlertThresholds,
) -> (r: StepExecution)
    ensures
        r.step_index == input.step_index,
        r.block_height == input.block_height,
        r.participant_count == input.participants@.len(),
        r.error.is_some() != r.rbi_snapshot.is_some(),
        address_reused(input.participants@) ==> r.error.is_some() && r.rbi_snapshot.is_none()
            && r.average_velocity.is_none(),
        r.average_velocity.is_some() ==> r.total_stake_sats == sim_stake_total(input.participants@)
            && (r.total_stake_sats == 0 ==> r.average_velocity == Some(0i64))
            && (r.total_stake_sats > 0 ==> cfg.min_velocity_multiplier <= r.average_velocity.unwrap()
            <= cfg.max_velocity_multiplier),
        !demand_violation(r),
        !zero_participation_violation(r),
        r.rbi_snapshot.is_some() ==> {
            let s = r.rbi_snapshot.unwrap();
            &&& s.block_height == input.block_height
            &&& s.timestamp == step_timestamp(input.step_index)
            &&& s.d_s == input.economic.demand_shock
            &&& s.productivity_a == input.economic.productivity
        },
{
    match ensure_unique_addresses(&input.participants) {
        Err(m) => {
            return failed_step(input, input.participants.len(), saturating_stake_sum(&input.participants), m);
        },
        Ok(()) => {},
    }
    let cloned = copy_participants(&input.participants);
    let ghost cloned_view = cloned@;
    let sorted = sort_participants(cloned);
    proof {
        vstd::seq_lib::to_multiset_len(sorted@);
        vstd::seq_lib::to_multiset_len(cloned_view);
        lemma_sim_total_permutation(sorted@, cloned_view);
    }
    let count = sorted.len();
    let registry = SimRegistry::new(&sorted);
    let chain = SimChain::new(&input.utxos, &input.activities);
    let mut analyzer = match VelocityAnalyzer::new(*cfg, registry, chain) {
        Ok(a) => a,
        Err(e) => {
            return failed_step(input, count, saturating_stake_sum(&sorted), velocity_error_text(&e));
        },
    };
    let mut weighted: i128 = 0;
    let mut total: u64 = 0;
    let mut pool_ps: Vec<ParticipantSnapshot> = Vec::new();
    let mut i: usize = 0;
    while i < sorted.len()
        invariant
            i <= sorted@.len(),
            count == sorted@.len(),
            count == input.participants@.len(),
            analyzer.wf(),
            analyzer.spec_config() == *cfg,
            pool_ps@.len() == i,
            total == stake_total(pool_ps@),
            total == sim_stake_total(sorted@.take(i as int)),
            sim_stake_total(sorted@) == sim_stake_total(input.participants@),
            (total as int) * (cfg.min_velocity_multiplier as int) <= weighted as int,
            weighted as int <= (total as int) * (cfg.max_velocity_multiplier as int),
        decreases sorted@.len() - i,
    {
        let p = &sorted[i];
        let m = match analyzer.calculate_velocity_multiplier(p.participant_id.as_str(), input.block_height) {
            Ok(m) => m,
            Err(e) => {
                return failed_step(input, count, saturating_stake_sum(&sorted), velocity_error_text(&e));
            },
        };
        let s = p.stake_sats;
        assert(-(i64::MAX as int + 1) * (u64::MAX as int) <= (m as int) * (s as int) <= (
        i64::MAX as int) * (u64::MAX as int)) by (nonlinear_arith)
            requires
                i64::MIN <= m <= i64::MAX,
                0 <= s <= u64::MAX,
        ;
        let term = (m as i128) * (s as i128);
        assert((s as int) * (cfg.min_velocity_multiplier as int) <= term as int <= (s as int) * (
        cfg.max_velocity_multiplier as int)) by (nonlinear_arith)
            requires
                term == (m as int) * (s as int),
                cfg.min_velocity_multiplier <= m <= cfg.max_velocity_multiplier,
                s >= 0,
        ;
        assert(((total as int) + (s as int)) * (cfg.min_velocity_multiplier as int) == (total as int)
            * (cfg.min_velocity_multiplier as int) + (s as int) * (cfg.min_velocity_multiplier as int))
            by (nonlinear_arith);
        assert(((total as int) + (s as int)) * (cfg.max_velocity_multiplier as int) == (total as int)
            * (cfg.max_velocity_multiplier as int) + (s as int) * (cfg.max_velocity_multiplier as int))
            by (nonlinear_arith);
        weighted = match weighted.checked_add(term) {
            Some(w) => w,
            None => {
                return failed_step(
                    input,
                    count,
                    saturating_stake_sum(&sorted),
                    "weighted velocity out of range".to_owned(),
                );
            },
        };
        total = match total.checked_add(s) {
            Some(t) => t,
            None => {
                return failed_step(
                    input,
                    count,
                    saturating_stake_sum(&sorted),
                    "total stake exceeds u64::MAX".to_owned(),
                );
            },
        };
        let ghost before = pool_ps@;
        pool_ps.push(
            ParticipantSnapshot {
                participant_id: p.participant_id.clone(),
                stake_amount_sats: s,
                trust_coefficient: p.trust_coefficient,
            },
        );
        assert(pool_ps@.drop_last() == before);
        assert(sorted@.take(i + 1).drop_last() == sorted@.take(i as int));
        i = i + 1;
    }
    assert(sorted@.take(sorted@.len() as int) == sorted@);
    let average: i64 = if total == 0 {
        0
    } else {
        let ghost lo = cfg.min_velocity_multiplier as int;
        let ghost hi = cfg.max_velocity_multiplier as int;
        assert(weighted > i128::MIN) by (nonlinear_arith)
            requires
                (total as int) * lo <= weighted,
                total <= u64::MAX,
                total >= 1,
                lo >= i64::MIN,
        ;
        let avg = floor_div(weighted, total);
        proof {
            vstd::arithmetic::div_mod::lemma_fundamental_div_mod(weighted as int, total as int);
            vstd::arithmetic::div_mod::lemma_mod_bound(weighted as int, total as int);
            let rr = (weighted as int) % (total as int);
            assert(lo <= avg <= hi) by (nonlinear_arith)
                requires
                    weighted as int == (total as int) * (avg as int) + rr,
                    0 <= rr < total,
                    (total as int) * lo <= weighted as int,
                    weighted as int <= (total as int) * hi,
                    total >= 1,
            ;
        }
        avg as i64
    };
    let pool_state = DistributionPoolState {
        total_distributed_sats: input.total_distributed_sats,
        average_participant_velocity: average,
        epoch_duration_days: input.epoch_duration_days,
        participants: pool_ps,
    };
    let mut engine = RBIEngine::new().with_thresholds(*thresholds).with_velocity_config(*cfg);
    let timestamp: i64 = if input.step_index <= i64::MAX as u64 {
        input.step_index as i64
    } else {
        0
    };
    match engine.calculate_rbi_at(&pool_state, input.block_height, timestamp, &input.economic) {
        Ok(snapshot) => {
            assert(snapshot_matches(
                snapshot,
                *thresholds,
                *cfg,
                pool_state,
                input.block_height,
                timestamp,
                input.economic,
            ));
            StepExecution {
                step_index: input.step_index,
                block_height: input.block_height,
                participant_count: count,
                total_stake_sats: total,
                average_velocity: Some(average),
                rbi_snapshot: Some(snapshot),
                error: None,
            }
        },
        Err(e) => StepExecution {
            step_index: input.step_index,
            block_height: input.block_height,
            participant_count: count,
            total_stake_sats: total,
            average_velocity: Some(average),
            rbi_snapshot: None,
            error: Some(rbi_error_text(&e)),
        },
    }
}

/// The expectations a step must meet: it ran without error, a zero demand
/// shock is indeterminate or invalid, and a pool without participants or
/// stake is not healthy.
pub fn evaluate_invariants(step: &StepExecution) -> (r: Vec<InvariantViolation>)
    ensures
        step.error.is_some() ==> r@.len() == 1 && r@[0].kind@ == "step_error"@,
        step.error.is_none() ==> (r@.len() == 0 <==> !demand_violation(*step)
            && !zero_participation_violation(*step)),
{
    let mut violations: Vec<InvariantViolation> = Vec::new();
    match &step.error {
        Some(e) => {
            violations.push(
                InvariantViolation {
                    step_index: step.step_index,
                    kind: "step_error".to_owned(),
                    message: e.clone(),
                },
            );
            return violations;
        },
        None => {},
    }
    match &step.rbi_snapshot {
        Some(s) => {
            if s.d_s == 0 && s.status != RbiStatus::Indeterminate && s.status != RbiStatus::Invalid {
                violations.push(
                    InvariantViolation {
                        step_index: step.step_index,
                        kind: "demand_shock_near_zero".to_owned(),
                        message: "near-zero demand shock must be indeterminate".to_owned(),
                    },
                );
            }
            if (step.participant_count == 0 || step.total_stake_sats == 0) && s.is_healthy {
                violations.push(
                    InvariantViolation {
                        step_index: step.step_index,
                        kind: "zero_participation".to_owned(),
                        message: "zero participation/stake must not be healthy".to_owned(),
                    },
                );
            }
        },
        None => {},
    }
    violations
}

/// One step of a scenario report; scalars in billionths.
#[derive(Debug, Clone, PartialEq, Eq)]
pub struct StepReport {
    pub step_index: u64,
    pub block_height: u64,
    pub participant_count: usize,
    pub total_stake_sats: u64,
    pub average_velocity: Option<i64>,
    pub rbi_value: Option<u128>,
    pub rbi_status: Option<RbiStatus>,
    pub is_healthy: Option<bool>,
    pub demand_shock: Option<i64>,
    pub productivity_a: Option<i64>,
    pub alert: Option<String>,
    pub error: Option<String>,
}

/// A named sequence of steps.
#[derive(Debug, Clone)]
pub struct SimulationScenario {
    pub name: String,
    pub steps: Vec<SimulationStepInput>,
}

/// The steps of a scenario and the expectations they broke.
#[derive(Debug, Clone, PartialEq, Eq)]
pub struct ScenarioReport {
    pub name: String,
    pub steps: Vec<StepReport>,
    pub invariants: Vec<InvariantViolation>,
}

/// Reports of several scenarios, in the order they ran.
#[derive(Debug, Clone, PartialEq, Eq)]
pub struct SimulationReport {
    pub scenarios: Vec<ScenarioReport>,
}

fn alert_text(a: &RBIAlert) -> String {
    match a {
        RBIAlert::CriticalDeflationary { message, .. } => message.clone(),
        RBIAlert::ModerateDeflationary { message, .. } => message.clone(),
        RBIAlert::Overheating { message, .. } => message.clone(),
    }
}

fn step_report(e: &StepExecution) -> (r: StepReport)
    ensures
        r.step_index == e.step_index,
        r.is_healthy == match e.rbi_snapshot {
            Some(s) => Some(s.is_healthy),
            None => None::<bool>,
        },
{
    let (rbi_value, rbi_status, is_healthy, demand_shock, productivity_a, alert) = match &e.rbi_snapshot {
        Some(s) => (
            Some(s.rbi_value),
            Some(s.status),
            Some(s.is_healthy),
            Some(s.d_s),
            Some(s.productivity_a),
            match &s.alert {
                Some(a) => Some(alert_text(a)),
                None => None,
            },
        ),
        None => (None, None, None, None, None, None),
    };
    StepReport {
        step_index: e.step_index,
        block_height: e.block_height,
        participant_count: e.participant_count,
        total_stake_sats: e.total_stake_sats,
        average_velocity: e.average_velocity,
        rbi_value,
        rbi_status,
        is_healthy,
        demand_shock,
        productivity_a,
        alert,
        error: match &e.error {
            Some(m) => Some(m.clone()),
            None => None,
        },
    }
}

/// Runs every step of a scenario with the default configuration and
/// thresholds, in order, collecting the broken expectations.
pub fn run_scenario(scenario: &SimulationScenario) -> (r: ScenarioReport)
    ensures
        r.steps@.len() == scenario.steps@.len(),
        forall|i: int| 0 <= i < r.steps@.len() ==> (#[trigger] r.steps@[i]).step_index == scenario.steps@[i].step_index,
{
    let cfg = VelocityConfig::default();
    let thresholds = AlertThresholds::default();
    let mut steps: Vec<StepReport> = Vec::new();
    let mut invariants: Vec<InvariantViolation> = Vec::new();
    let mut i: usize = 0;
    while i < scenario.steps.len()
        invariant
            i <= scenario.steps@.len(),
            steps@.len() == i,
            forall|k: int| 0 <= k < i ==> (#[trigger] steps@[k]).step_index == scenario.steps@[k].step_index,
        decreases scenario.steps@.len() - i,
    {
        let execution = execute_step(&scenario.steps[i], &cfg, &thresholds);
        let mut found = evaluate_invariants(&execution);
        invariants.append(&mut found);
        steps.push(step_report(&execution));
        i = i + 1;
    }
    ScenarioReport { name: scenario.name.clone(), steps, invariants }
}

} // verus!
