//! Threshold authorization for governance proposals, a multisig treasury
//! and a token's distribution pools, behind a shared pause switch and
//! rolling rate limits.

pub mod circuit_breaker;
pub mod governance;
pub mod identity;
pub mod rate_limit;
pub mod token;
pub mod treasury;
