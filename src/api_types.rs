use vstd::prelude::*;

verus! {

/// Answer of the health check.
#[derive(Debug, Clone)]
pub struct HealthResponse {
    pub status: String,
    pub version: String,
}

/// Flags of a running node.
#[derive(Debug, Clone, Copy, PartialEq, Eq, Structural)]
pub struct NodeConfig {
    pub rate_limit_per_minute: u32,
    pub jwt_auth_enabled: bool,
    pub cors_enabled: bool,
}

/// Version, uptime and configuration of a running node.
#[derive(Debug, Clone)]
pub struct StatusResponse {
    pub version: String,
    pub uptime_seconds: u64,
    pub node_id: String,
    pub environment: String,
    pub config: NodeConfig,
}

/// Settings of a node.
#[derive(Debug, Clone)]
pub struct NodeConfiguration {
    pub node_id: String,
    pub environment: String,
    pub rate_limit_per_minute: u32,
    pub jwt_auth_enabled: bool,
    pub cors_enabled: bool,
}

impl NodeConfiguration {
    /// The default settings (100 requests a minute, no token check, CORS on)
    /// for a node of the given identity and environment.
    pub fn with_identity(node_id: String, environment: String) -> (r: Self)
        ensures
            r.node_id == node_id,
            r.environment == environment,
            r.rate_limit_per_minute == 100,
            !r.jwt_auth_enabled,
            r.cors_enabled,
    {
        NodeConfiguration {
            node_id,
            environment,
            rate_limit_per_minute: 100,
            jwt_auth_enabled: false,
            cors_enabled: true,
        }
    }

    /// The flags reported in a status answer.
    pub fn summary(&self) -> (r: NodeConfig)
        ensures
            r.rate_limit_per_minute == self.rate_limit_per_minute,
            r.jwt_auth_enabled == self.jwt_auth_enabled,
            r.cors_enabled == self.cors_enabled,
    {
        NodeConfig {
            rate_limit_per_minute: self.rate_limit_per_minute,
            jwt_auth_enabled: self.jwt_auth_enabled,
            cors_enabled: self.cors_enabled,
        }
    }
}

/// An error as reported to a client.
#[derive(Debug, Clone)]
pub struct ErrorResponse {
    pub error: String,
    pub message: String,
}

impl ErrorResponse {
    pub fn new(error: &str, message: &str) -> (r: Self)
        ensures
            r.error@ == error@,
            r.message@ == message@,
    {
        ErrorResponse { error: error.to_owned(), message: message.to_owned() }
    }
}

/// A page of a listing.
#[derive(Debug, Clone, Copy, PartialEq, Eq, Structural)]
pub struct PaginationQuery {
    pub page: u32,
    pub page_size: u32,
}

/// Largest page handed out.
pub const MAX_PAGE_SIZE: u32 = 100;

/// Page size when none is asked for.
pub fn default_page_size() -> (r: u32)
    ensures
        r == 20,
{
    20
}

impl PaginationQuery {
    /// The page size used: the one asked for, at most `MAX_PAGE_SIZE`.
    pub fn effective_page_size(&self) -> (r: u32)
        ensures
            r == if self.page_size > MAX_PAGE_SIZE {
                MAX_PAGE_SIZE
            } else {
                self.page_size
            },
    {
        if self.page_size > MAX_PAGE_SIZE {
            MAX_PAGE_SIZE
        } else {
            self.page_size
        }
    }
}

/// Failure of a request.
#[derive(Debug, Clone, PartialEq, Eq)]
pub enum AppError {
    NotFound(String),
    Internal(String),
    InvalidInput(String),
}

impl AppError {
    /// The HTTP status code of the failure.
    pub fn status_code(&self) -> (r: u16)
        ensures
            r == match self {
                AppError::NotFound(_) => 404u16,
                AppError::Internal(_) => 500u16,
                AppError::InvalidInput(_) => 400u16,
            },
    {
        match self {
            AppError::NotFound(_) => 404,
            AppError::Internal(_) => 500,
            AppError::InvalidInput(_) => 400,
        }
    }
}

/// A participant's labor contribution.
#[derive(Debug, Clone)]
pub struct ApplyLaborRequest {
    pub participant_id: String,
    pub labor_value_sats: u64,
    pub duration_days: u32,
}

/// Largest labor value accepted at once: one bitcoin.
pub const MAX_LABOR_VALUE_SATS: u64 = 100_000_000;

/// Longest duration accepted: two years.
pub const MAX_DURATION_DAYS: u32 = 730;

/// Trust coefficient, in billionths, earned by a contribution of the given
/// duration: 0.5 under 30 days, 1.0 under 90, 1.3 under 180, 1.6 under 365,
/// 2.0 from there on.
pub open spec fn trust_for_duration(duration_days: u32) -> i64 {
    if duration_days < 30 {
        500_000_000
    } else if duration_days < 90 {
        1_000_000_000
    } else if duration_days < 180 {
        1_300_000_000
    } else if duration_days < 365 {
        1_600_000_000
    } else {
        2_000_000_000
    }
}

pub fn calculate_trust_coefficient(duration_days: u32) -> (r: i64)
    ensures
        r == trust_for_duration(duration_days),
{
    if duration_days < 30 {
        500_000_000
    } else if duration_days < 90 {
        1_000_000_000
    } else if duration_days < 180 {
        1_300_000_000
    } else if duration_days < 365 {
        1_600_000_000
    } else {
        2_000_000_000
    }
}

impl ApplyLaborRequest {
    /// The trust coefficient the contribution earns, or `InvalidInput` for a
    /// value over one bitcoin, a duration over two years, or a value of 0.
    pub fn validate(&self) -> (r: Result<i64, AppError>)
        ensures
            match r {
                Ok(t) => 0 < self.labor_value_sats <= MAX_LABOR_VALUE_SATS && self.duration_days
                    <= MAX_DURATION_DAYS && t == trust_for_duration(self.duration_days),
                Err(e) => e is InvalidInput && !(0 < self.labor_value_sats <= MAX_LABOR_VALUE_SATS
                    && self.duration_days <= MAX_DURATION_DAYS),
            },
    {
        if self.labor_value_sats > MAX_LABOR_VALUE_SATS {
            return Err(AppError::InvalidInput("Labor value exceeds maximum of 100000000 sats".to_owned()));
        }
        if self.duration_days > MAX_DURATION_DAYS {
            return Err(AppError::InvalidInput("Duration exceeds maximum of 730 days".to_owned()));
        }
        if self.labor_value_sats == 0 {
            return Err(AppError::InvalidInput("Labor value must be greater than 0".to_owned()));
        }
        Ok(calculate_trust_coefficient(self.duration_days))
    }
}

} // verus!
