use vstd::prelude::*;
use crate::units::SCALE;

verus! {

/// Tuning of velocity analysis. Weights and multipliers are in billionths.
#[derive(Debug, Clone, Copy, PartialEq, Eq, Structural)]
pub struct VelocityConfig {
    /// Observation window for activity scoring, in days.
    pub window_days: u32,
    /// Blocks per day used to turn days into blocks (about 144).
    pub blocks_per_day: u32,
    /// Outgoing transactions in the window that give the full frequency score.
    pub max_tx_threshold: u32,
    /// Weight of the frequency score.
    pub tx_frequency_weight: i64,
    /// Weight of the freshness score.
    pub utxo_freshness_weight: i64,
    /// Upper bound of the multiplier.
    pub max_velocity_multiplier: i64,
    /// Lower bound of the multiplier.
    pub min_velocity_multiplier: i64,
}

/// 30 days of 144 blocks, 30 transactions for the full score, weights 0.4 and
/// 0.6, multiplier within [1.0, 1.5].
pub open spec fn default_velocity_config() -> VelocityConfig {
    VelocityConfig {
        window_days: 30,
        blocks_per_day: 144,
        max_tx_threshold: 30,
        tx_frequency_weight: 400_000_000,
        utxo_freshness_weight: 600_000_000,
        max_velocity_multiplier: 1_500_000_000,
        min_velocity_multiplier: 1_000_000_000,
    }
}

/// The two weights add up to one whole, within one billionth.
pub open spec fn weights_sum_to_one(tx_weight: int, freshness_weight: int) -> bool {
    let d = tx_weight + freshness_weight - SCALE;
    -1 <= d <= 1
}

impl Default for VelocityConfig {
    fn default() -> (r: Self)
        ensures
            r == default_velocity_config(),
    {
        VelocityConfig {
            window_days: 30,
            blocks_per_day: 144,
            max_tx_threshold: 30,
            tx_frequency_weight: 400_000_000,
            utxo_freshness_weight: 600_000_000,
            max_velocity_multiplier: 1_500_000_000,
            min_velocity_multiplier: 1_000_000_000,
        }
    }
}

impl VelocityConfig {
    /// Every setting usable: positive window and threshold, weights adding up
    /// to one, `min <= max`.
    pub open spec fn is_valid(&self) -> bool {
        &&& self.window_days > 0
        &&& self.blocks_per_day > 0
        &&& self.max_tx_threshold > 0
        &&& weights_sum_to_one(self.tx_frequency_weight as int, self.utxo_freshness_weight as int)
        &&& self.min_velocity_multiplier <= self.max_velocity_multiplier
    }

    /// Accepts a usable configuration; names the first unusable setting otherwise.
    pub fn validate(&self) -> (r: Result<(), String>)
        ensures
            r.is_ok() <==> self.is_valid(),
    {
        if self.window_days == 0 {
            return Err("window_days must be > 0".to_owned());
        }
        if self.blocks_per_day == 0 {
            return Err("blocks_per_day must be > 0".to_owned());
        }
        if self.max_tx_threshold == 0 {
            return Err("max_tx_threshold must be > 0".to_owned());
        }
        let w_sum = self.tx_frequency_weight as i128 + self.utxo_freshness_weight as i128;
        let d = w_sum - SCALE as i128;
        if d > 1 || d < -1 {
            return Err("weights must sum to 1.0".to_owned());
        }
        if self.min_velocity_multiplier > self.max_velocity_multiplier {
            return Err("min_velocity_multiplier must be <= max_velocity_multiplier".to_owned());
        }
        Ok(())
    }

    /// Length of the activity window in blocks.
    pub fn window_blocks(&self) -> (r: u64)
        ensures
            r == self.window_days * self.blocks_per_day,
    {
        assert(self.window_days * self.blocks_per_day <= u32::MAX * u32::MAX) by (nonlinear_arith);
        (self.window_days as u64) * (self.blocks_per_day as u64)
    }
}

} // verus!
