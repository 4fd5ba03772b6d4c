//! A caching proxy core for managed-Kubernetes version lookups: the
//! background-refreshed credential slot, the refresher's decisions, the
//! classification of upstream failures, the retry policy, the single-flight
//! response cache, request validation and the health report.

pub mod token;
pub mod refresher;
pub mod text;
pub mod errors;
pub mod retry;
pub mod handler;
pub mod upstream;
pub mod versions;
pub mod cache;
pub mod state;
pub mod config;
