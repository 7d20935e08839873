use vstd::prelude::*;

verus! {

/// The level of an alert, without its payload.
#[derive(Debug, Clone, Copy, PartialEq, Eq, Structural)]
pub enum AlertLevel {
    CriticalDeflationary,
    ModerateDeflationary,
    Overheating,
}

/// An alert raised for an index value (in billionths) outside the healthy band.
#[derive(Debug, Clone)]
pub enum RBIAlert {
    CriticalDeflationary { rbi: u128, message: String },
    ModerateDeflationary { rbi: u128, message: String },
    Overheating { rbi: u128, message: String },
}

impl RBIAlert {
    pub open spec fn level(&self) -> AlertLevel {
        match self {
            RBIAlert::CriticalDeflationary { .. } => AlertLevel::CriticalDeflationary,
            RBIAlert::ModerateDeflationary { .. } => AlertLevel::ModerateDeflationary,
            RBIAlert::Overheating { .. } => AlertLevel::Overheating,
        }
    }

    pub open spec fn value(&self) -> u128 {
        match self {
            RBIAlert::CriticalDeflationary { rbi, .. } => *rbi,
            RBIAlert::ModerateDeflationary { rbi, .. } => *rbi,
            RBIAlert::Overheating { rbi, .. } => *rbi,
        }
    }

    /// The index value that raised the alert.
    pub fn rbi(&self) -> (r: u128)
        ensures
            r == self.value(),
    {
        match self {
            RBIAlert::CriticalDeflationary { rbi, .. } => *rbi,
            RBIAlert::ModerateDeflationary { rbi, .. } => *rbi,
            RBIAlert::Overheating { rbi, .. } => *rbi,
        }
    }

    /// A copy equal to `self`, message included.
    pub fn duplicate(&self) -> (r: RBIAlert)
        ensures
            r == *self,
    {
        match self {
            RBIAlert::CriticalDeflationary { rbi, message } => RBIAlert::CriticalDeflationary {
                rbi: *rbi,
                message: message.clone(),
            },
            RBIAlert::ModerateDeflationary { rbi, message } => RBIAlert::ModerateDeflationary {
                rbi: *rbi,
                message: message.clone(),
            },
            RBIAlert::Overheating { rbi, message } => RBIAlert::Overheating {
                rbi: *rbi,
                message: message.clone(),
            },
        }
    }
}

/// Band limits for the index, in billionths.
#[derive(Debug, Clone, Copy, PartialEq, Eq, Structural)]
pub struct AlertThresholds {
    pub critical_low: i64,
    pub warning_low: i64,
    pub overheating_high: i64,
}

/// 0.8, 1.0 and 2.0.
pub open spec fn default_thresholds() -> AlertThresholds {
    AlertThresholds {
        critical_low: 800_000_000,
        warning_low: 1_000_000_000,
        overheating_high: 2_000_000_000,
    }
}

impl Default for AlertThresholds {
    fn default() -> (r: Self)
        ensures
            r == default_thresholds(),
    {
        AlertThresholds {
            critical_low: 800_000_000,
            warning_low: 1_000_000_000,
            overheating_high: 2_000_000_000,
        }
    }
}

/// Which alert, if any, an index value raises against the thresholds.
pub open spec fn alert_level_for(rbi: int, t: AlertThresholds) -> Option<AlertLevel> {
    if rbi < t.critical_low {
        Some(AlertLevel::CriticalDeflationary)
    } else if rbi < t.warning_low {
        Some(AlertLevel::ModerateDeflationary)
    } else if rbi > t.overheating_high {
        Some(AlertLevel::Overheating)
    } else {
        None
    }
}

/// Whether an unsigned value lies below a signed bound.
pub fn below(v: u128, bound: i64) -> (r: bool)
    ensures
        r == (v < bound),
{
    bound > 0 && v < bound as u128
}

/// Whether an unsigned value lies above a signed bound.
pub fn above(v: u128, bound: i64) -> (r: bool)
    ensures
        r == (v > bound),
{
    bound < 0 || v > bound as u128
}

/// Classifies an index value (in billionths) against the thresholds.
pub fn evaluate_alert(rbi: u128, thresholds: &AlertThresholds) -> (r: Option<RBIAlert>)
    ensures
        match alert_level_for(rbi as int, *thresholds) {
            None => r.is_none(),
            Some(level) => r.is_some() && r.unwrap().level() == level && r.unwrap().value() == rbi,
        },
{
    if below(rbi, thresholds.critical_low) {
        Some(
            RBIAlert::CriticalDeflationary {
                rbi,
                message: "CRITICAL: RBI indicates severe deflationary risk. Consider increasing miner contributions or adjusting velocity incentives.".to_owned(),
            },
        )
    } else if below(rbi, thresholds.warning_low) {
        Some(
            RBIAlert::ModerateDeflationary {
                rbi,
                message: "WARNING: RBI below 1.0 indicates deflationary pressure. Monitor closely and consider parameter adjustments.".to_owned(),
            },
        )
    } else if above(rbi, thresholds.overheating_high) {
        Some(
            RBIAlert::Overheating {
                rbi,
                message: "NOTICE: RBI above 2.0 may indicate excessive distribution. Consider reducing contribution rate to avoid inflationary pressure.".to_owned(),
            },
        )
    } else {
        None
    }
}

} // verus!
