//! Financial health index for a Bitcoin-denominated participation pool.
//!
//! Every scalar that is fractional in the model (trust coefficients, velocity
//! multipliers, macro-economic rates, the index itself) is carried as an
//! integer count of billionths: `1_300_000_000` stands for `1.3`.
pub mod units;
pub mod alerts;
pub mod velocity_config;
pub mod economic_oracle;
pub mod rbi_engine;
pub mod utxo_scoring;
pub mod velocity_analyzer;
pub mod addresses;
pub mod rpc_policy;
pub mod chain_cache;
pub mod activity;
pub mod api_types;
pub mod simulation;
pub mod scenarios;
pub mod registry;
pub mod address_parsing;
