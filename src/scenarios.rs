use vstd::prelude::*;
use crate::economic_oracle::EconomicReading;
use crate::simulation::{
    deterministic_height, run_scenario, SimulationActivity, SimulationParticipant,
    SimulationReport, SimulationScenario, SimulationStepInput, SimulationUtxo,
};

verus! {

/// The scenarios, each built the same on every run.
#[derive(Debug, Clone, Copy, PartialEq, Eq, Structural)]
enum ScenarioKind {
    ZeroParticipation,
    DemandShockNearZero,
    FutureHeightUtxo,
    AddressReuse,
    WashActivity,
    SingleDominantActor,
    LongInactivity,
}

/// A transaction id of 32 equal bytes.
pub fn make_txid(seed: u8) -> (r: [u8; 32])
    ensures
        forall|i: int| 0 <= i < 32 ==> r[i] == seed,
{
    [seed; 32]
}

fn participant(id: &str, stake_sats: u64, trust_coefficient: i64, addresses: Vec<String>) -> SimulationParticipant {
    SimulationParticipant { participant_id: id.to_owned(), stake_sats, trust_coefficient, addresses }
}

fn utxo(address: &str, seed: u8, vout: u32, amount_sats: u64, height: u64) -> SimulationUtxo {
    SimulationUtxo { address: address.to_owned(), txid: make_txid(seed), vout, amount_sats, height }
}

fn activity(address: &str, count_outgoing: u32, volume_outgoing_sats: u64) -> SimulationActivity {
    SimulationActivity { address: address.to_owned(), count_outgoing, volume_outgoing_sats }
}

/// Demand shock and productivity in billionths, with e^productivity.
fn economy(demand_shock: i64, productivity: i64, growth_factor: i64) -> EconomicReading {
    EconomicReading { demand_shock, productivity, growth_factor }
}

fn scenario_step(kind: ScenarioKind, index: u64, height: u64) -> (r: SimulationStepInput)
    requires
        100_000 <= height < 200_000,
    ensures
        r.step_index == index,
        r.block_height == height,
{
    match kind {
        ScenarioKind::ZeroParticipation => SimulationStepInput {
            step_index: index,
            block_height: height,
            total_distributed_sats: 0,
            epoch_duration_days: 1,
            participants: Vec::new(),
            utxos: Vec::new(),
            activities: Vec::new(),
            economic: economy(20_000_000, 50_000_000, 1_051_271_096),
        },
        ScenarioKind::DemandShockNearZero => SimulationStepInput {
            step_index: index,
            block_height: height,
            total_distributed_sats: 500_000_000,
            epoch_duration_days: 1,
            participants: vec![participant("alice", 100_000_000, 1_100_000_000, vec!["addr-alice".to_owned()])],
            utxos: vec![utxo("addr-alice", 1, 0, 50_000_000, height - 5)],
            activities: vec![activity("addr-alice", 3, 10_000_000)],
            // a rate of 1e-12 is 0 in billionths
            economic: economy(0, 50_000_000, 1_051_271_096),
        },
        ScenarioKind::FutureHeightUtxo => SimulationStepInput {
            step_index: index,
            block_height: height,
            total_distributed_sats: 250_000_000,
            epoch_duration_days: 1,
            participants: vec![participant("bob", 75_000_000, 1_000_000_000, vec!["addr-bob".to_owned()])],
            utxos: vec![utxo("addr-bob", 2, 0, 25_000_000, height + 10)],
            activities: Vec::new(),
            economic: economy(20_000_000, 30_000_000, 1_030_454_534),
        },
        ScenarioKind::AddressReuse => SimulationStepInput {
            step_index: index,
            block_height: height,
            total_distributed_sats: 100_000_000,
            epoch_duration_days: 1,
            participants: vec![
                participant("mallory", 50_000_000, 1_000_000_000, vec!["addr-dup".to_owned()]),
                participant("mallory-clone", 50_000_000, 1_000_000_000, vec!["addr-dup".to_owned()]),
            ],
            utxos: Vec::new(),
            activities: Vec::new(),
            economic: economy(20_000_000, 40_000_000, 1_040_810_774),
        },
        ScenarioKind::WashActivity => SimulationStepInput {
            step_index: index,
            block_height: height,
            total_distributed_sats: 400_000_000,
            epoch_duration_days: 1,
            participants: vec![participant("churner", 120_000_000, 900_000_000, vec!["addr-churn".to_owned()])],
            utxos: vec![utxo("addr-churn", 3, 1, 80_000_000, height - 1)],
            activities: vec![activity("addr-churn", 40, 200_000_000)],
            economic: economy(15_000_000, 60_000_000, 1_061_836_547),
        },
        ScenarioKind::SingleDominantActor => SimulationStepInput {
            step_index: index,
            block_height: height,
            total_distributed_sats: 900_000_000,
            epoch_duration_days: 1,
            participants: vec![
                participant(
                    "whale",
                    900_000_000,
                    1_400_000_000,
                    vec!["addr-whale-1".to_owned(), "addr-whale-2".to_owned()],
                ),
                participant("minnow", 10_000_000, 900_000_000, vec!["addr-minnow".to_owned()]),
            ],
            utxos: vec![
                utxo("addr-whale-1", 4, 0, 400_000_000, height - 2),
                utxo("addr-whale-2", 5, 1, 300_000_000, height - 3),
                utxo("addr-minnow", 6, 0, 5_000_000, height - 10),
            ],
            activities: vec![
                activity("addr-whale-1", 6, 100_000_000),
                activity("addr-minnow", 1, 2_000_000),
            ],
            economic: economy(18_000_000, 40_000_000, 1_040_810_774),
        },
        ScenarioKind::LongInactivity => SimulationStepInput {
            step_index: index,
            block_height: height,
            total_distributed_sats: 200_000_000,
            epoch_duration_days: 1,
            participants: vec![participant("sleeper", 60_000_000, 1_000_000_000, vec!["addr-sleeper".to_owned()])],
            utxos: vec![utxo("addr-sleeper", 7, 0, 30_000_000, height - 50_000)],
            activities: vec![activity("addr-sleeper", 0, 0)],
            economic: economy(20_000_000, 10_000_000, 1_010_050_167),
        },
    }
}

/// `count` steps from the height the name gives, one block apart.
fn build_steps(prefix: &str, count: u64, kind: ScenarioKind) -> (r: Vec<SimulationStepInput>)
    requires
        count <= 10,
    ensures
        r@.len() == count,
        forall|i: int| 0 <= i < count ==> (#[trigger] r@[i]).step_index == i,
{
    let base_height = deterministic_height(prefix);
    let mut steps: Vec<SimulationStepInput> = Vec::new();
    let mut index: u64 = 0;
    while index < count
        invariant
            index <= count <= 10,
            100_000 <= base_height < 110_000,
            steps@.len() == index,
            forall|i: int| 0 <= i < index ==> (#[trigger] steps@[i]).step_index == i,
        decreases count - index,
    {
        let step = scenario_step(kind, index, base_height + index);
        steps.push(step);
        index = index + 1;
    }
    steps
}


fn scenario(name: &str, count: u64, kind: ScenarioKind) -> (r: SimulationScenario)
    requires
        count <= 10,
    ensures
        r.name@ == name@,
        r.steps@.len() == count,
{
    SimulationScenario { name: name.to_owned(), steps: build_steps(name, count, kind) }
}

/// No participants and nothing distributed, over three steps.
pub fn zero_participation_zero_stake() -> (r: SimulationScenario)
    ensures
        r.steps@.len() == 3,
{
    scenario("zero_participation_zero_stake", 3, ScenarioKind::ZeroParticipation)
}

/// A demand shock too small to register, over two steps.
pub fn demand_shock_near_zero() -> (r: SimulationScenario)
    ensures
        r.steps@.len() == 2,
{
    scenario("demand_shock_near_zero", 2, ScenarioKind::DemandShockNearZero)
}

/// An output created above the step's height.
pub fn future_height_utxo_corruption() -> (r: SimulationScenario)
    ensures
        r.steps@.len() == 1,
{
    scenario("future_height_utxo_corruption", 1, ScenarioKind::FutureHeightUtxo)
}

/// Two participants claiming one address.
pub fn address_reuse_sybil_attempt() -> (r: SimulationScenario)
    ensures
        r.steps@.len() == 1,
{
    scenario("address_reuse_sybil_attempt", 1, ScenarioKind::AddressReuse)
}

/// Heavy outgoing activity on a fresh output.
pub fn wash_activity_self_churn() -> (r: SimulationScenario)
    ensures
        r.steps@.len() == 2,
{
    scenario("wash_activity_self_churn", 2, ScenarioKind::WashActivity)
}

/// One participant holding nearly all the stake.
pub fn single_dominant_actor() -> (r: SimulationScenario)
    ensures
        r.steps@.len() == 2,
{
    scenario("single_dominant_actor", 2, ScenarioKind::SingleDominantActor)
}

/// An old output and no activity.
pub fn long_inactivity_stale_utxos() -> (r: SimulationScenario)
    ensures
        r.steps@.len() == 2,
{
    scenario("long_inactivity_stale_utxos", 2, ScenarioKind::LongInactivity)
}

/// Every scenario, in a fixed order.
pub fn all_scenarios() -> (r: Vec<SimulationScenario>)
    ensures
        r@.len() == 7,
{
    vec![
        zero_participation_zero_stake(),
        demand_shock_near_zero(),
        future_height_utxo_corruption(),
        address_reuse_sybil_attempt(),
        wash_activity_self_churn(),
        single_dominant_actor(),
        long_inactivity_stale_utxos(),
    ]
}

/// Runs every scenario, in order.
pub fn run_all_scenarios() -> (r: SimulationReport)
    ensures
        r.scenarios@.len() == 7,
{
    let scenarios = all_scenarios();
    let mut reports = Vec::new();
    let mut i: usize = 0;
    while i < scenarios.len()
        invariant
            i <= scenarios@.len(),
            scenarios@.len() == 7,
            reports@.len() == i,
        decreases scenarios@.len() - i,
    {
        reports.push(run_scenario(&scenarios[i]));
        i = i + 1;
    }
    SimulationReport { scenarios: reports }
}

} // verus!
