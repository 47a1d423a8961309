//! Probing HTTP responses for caching behaviour: CDN detection, cache
//! verdicts, revalidation consistency checks and aggregation of per-URL
//! outcomes.

pub mod text;
pub mod headers;
pub mod verdict;
pub mod cdn;
pub mod cache_checker;
pub mod error;
pub mod validate_cache;
pub mod scanner;
pub mod metrics;
