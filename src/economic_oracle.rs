use vstd::prelude::*;

verus! {

/// Failure of the macro-economic data provider.
#[derive(Debug, Clone, PartialEq, Eq)]
pub enum EconomicError {
    Provider(String),
    InvalidData(String),
}

/// Macro-economic inputs of one index computation, in billionths.
///
/// `growth_factor` is `e^productivity`, worked out by whoever reads the
/// provider, since the exponential is taken in floating point.
#[derive(Debug, Clone, Copy, PartialEq, Eq, Structural)]
pub struct EconomicReading {
    /// Demand-shock rate D_s.
    pub demand_shock: i64,
    /// Productivity expansion A.
    pub productivity: i64,
    /// e^A.
    pub growth_factor: i64,
}

} // verus!

verus! {

/// Macro-economic scalars in billionths.
pub trait EconomicDataProvider {
    /// Demand-shock rate (annualized); 20_000_000 stands for 2 %.
    fn demand_shock_rate(&self) -> Result<i64, EconomicError>;

    /// Productivity expansion factor A (unitless).
    fn productivity_expansion(&self) -> Result<i64, EconomicError>;
}

/// Fixed values, for tests and development.
#[derive(Debug, Clone, Copy, PartialEq, Eq, Structural)]
pub struct MockEconomicDataProvider {
    pub demand_shock: i64,
    pub productivity: i64,
}

impl EconomicDataProvider for MockEconomicDataProvider {
    fn demand_shock_rate(&self) -> Result<i64, EconomicError> {
        Ok(self.demand_shock)
    }

    fn productivity_expansion(&self) -> Result<i64, EconomicError> {
        Ok(self.productivity)
    }
}

/// A recorded pair of values, for reproducible offline runs.
#[derive(Debug, Clone, Copy, PartialEq, Eq, Structural)]
pub struct RecordedEconomicSnapshot {
    pub demand_shock: i64,
    pub productivity: i64,
}

/// Replays a recorded snapshot, which the owner may replace.
#[derive(Debug)]
pub struct RecordedEconomicProvider {
    snapshot: RecordedEconomicSnapshot,
}

impl RecordedEconomicProvider {
    pub closed spec fn spec_snapshot(&self) -> RecordedEconomicSnapshot {
        self.snapshot
    }

    pub fn new(snapshot: RecordedEconomicSnapshot) -> (r: Self)
        ensures
            r.spec_snapshot() == snapshot,
    {
        RecordedEconomicProvider { snapshot }
    }

    pub fn set_snapshot(&mut self, snapshot: RecordedEconomicSnapshot)
        ensures
            final(self).spec_snapshot() == snapshot,
    {
        self.snapshot = snapshot;
    }

    pub fn get_snapshot(&self) -> (r: RecordedEconomicSnapshot)
        ensures
            r == self.spec_snapshot(),
    {
        self.snapshot
    }
}

impl EconomicDataProvider for RecordedEconomicProvider {
    fn demand_shock_rate(&self) -> Result<i64, EconomicError> {
        Ok(self.snapshot.demand_shock)
    }

    fn productivity_expansion(&self) -> Result<i64, EconomicError> {
        Ok(self.snapshot.productivity)
    }
}

/// Whether values cached at `cached_at` are due for a refresh at `now`
/// (times in milliseconds); a clock that went back counts as no time passed.
pub open spec fn is_stale(cached_at: Option<u64>, now_ms: u64, ttl_ms: u64) -> bool {
    match cached_at {
        None => true,
        Some(t) => (if now_ms >= t {
            now_ms - t
        } else {
            0
        }) >= ttl_ms,
    }
}

/// Caches a provider's two values, refreshed together once they are older
/// than the time to live; out-of-range values from the provider are refused.
pub struct CachedProvider<P: EconomicDataProvider> {
    inner: P,
    ttl_ms: u64,
    cached_at_ms: Option<u64>,
    cached_demand_shock: Option<i64>,
    cached_productivity: Option<i64>,
}

impl<P: EconomicDataProvider> CachedProvider<P> {
    pub closed spec fn spec_ttl_ms(&self) -> u64 {
        self.ttl_ms
    }

    pub closed spec fn spec_cached_at(&self) -> Option<u64> {
        self.cached_at_ms
    }

    pub closed spec fn spec_demand_shock(&self) -> Option<i64> {
        self.cached_demand_shock
    }

    pub closed spec fn spec_productivity(&self) -> Option<i64> {
        self.cached_productivity
    }

    /// Cached values, when present, hold together and in range.
    pub open spec fn wf(&self) -> bool {
        &&& self.spec_cached_at().is_some() == self.spec_demand_shock().is_some()
        &&& self.spec_cached_at().is_some() == self.spec_productivity().is_some()
        &&& self.spec_demand_shock().is_some() ==> self.spec_demand_shock().unwrap() >= 0
    }

    pub fn new(inner: P, ttl_ms: u64) -> (r: Self)
        ensures
            r.wf(),
            r.spec_ttl_ms() == ttl_ms,
            r.spec_cached_at().is_none(),
    {
        CachedProvider {
            inner,
            ttl_ms,
            cached_at_ms: None,
            cached_demand_shock: None,
            cached_productivity: None,
        }
    }

    /// Takes the two values read from the wrapped provider at `now_ms`: a
    /// negative demand shock is refused and leaves the cache as it was;
    /// otherwise both values are cached together, stamped `now_ms`.
    pub fn store_reading(&mut self, demand_shock: i64, productivity: i64, now_ms: u64) -> (r: Result<(), EconomicError>)
        requires
            old(self).wf(),
        ensures
            final(self).wf(),
            final(self).spec_ttl_ms() == old(self).spec_ttl_ms(),
            r.is_err() <==> demand_shock < 0,
            r.is_err() ==> r.unwrap_err() is InvalidData
                && final(self).spec_cached_at() == old(self).spec_cached_at()
                && final(self).spec_demand_shock() == old(self).spec_demand_shock()
                && final(self).spec_productivity() == old(self).spec_productivity(),
            r.is_ok() ==> final(self).spec_demand_shock() == Some(demand_shock)
                && final(self).spec_productivity() == Some(productivity)
                && final(self).spec_cached_at() == Some(now_ms),
    {
        if demand_shock < 0 {
            return Err(
                EconomicError::InvalidData("demand_shock_rate must be finite and >= 0".to_owned()),
            );
        }
        self.cached_demand_shock = Some(demand_shock);
        self.cached_productivity = Some(productivity);
        self.cached_at_ms = Some(now_ms);
        Ok(())
    }

    /// Reads both values from the wrapped provider when the cache is stale at
    /// `now_ms`. A failure, or a negative demand shock, leaves the cache as it
    /// was. What is stored is what `store_reading` makes of the two values read.
    pub fn refresh_if_needed(&mut self, now_ms: u64) -> (r: Result<(), EconomicError>)
        requires
            old(self).wf(),
        ensures
            final(self).wf(),
            final(self).spec_ttl_ms() == old(self).spec_ttl_ms(),
            !is_stale(old(self).spec_cached_at(), now_ms, old(self).spec_ttl_ms()) ==> r.is_ok()
                && final(self).spec_cached_at() == old(self).spec_cached_at()
                && final(self).spec_demand_shock() == old(self).spec_demand_shock()
                && final(self).spec_productivity() == old(self).spec_productivity(),
            is_stale(old(self).spec_cached_at(), now_ms, old(self).spec_ttl_ms()) && r.is_ok()
                ==> final(self).spec_cached_at() == Some(now_ms),
            r.is_err() ==> final(self).spec_cached_at() == old(self).spec_cached_at()
                && final(self).spec_demand_shock() == old(self).spec_demand_shock()
                && final(self).spec_productivity() == old(self).spec_productivity(),
    {
        let stale = match self.cached_at_ms {
            None => true,
            Some(t) => now_ms.saturating_sub(t) >= self.ttl_ms,
        };
        if stale {
            let ds = self.inner.demand_shock_rate()?;
            let a = self.inner.productivity_expansion()?;
            return self.store_reading(ds, a, now_ms);
        }
        Ok(())
    }
}

impl<P: EconomicDataProvider> EconomicDataProvider for CachedProvider<P> {
    fn demand_shock_rate(&self) -> Result<i64, EconomicError> {
        match self.cached_demand_shock {
            Some(v) => Ok(v),
            None => Err(
                EconomicError::Provider("cache not initialized; call via &mut and refresh".to_owned()),
            ),
        }
    }

    fn productivity_expansion(&self) -> Result<i64, EconomicError> {
        match self.cached_productivity {
            Some(v) => Ok(v),
            None => Err(
                EconomicError::Provider("cache not initialized; call via &mut and refresh".to_owned()),
            ),
        }
    }
}

} // verus!
