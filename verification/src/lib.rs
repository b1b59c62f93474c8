//! A host-monitoring agent core: a time-bounded metrics cache, a pure
//! request-authentication gate, and an HMAC-signed webhook dispatcher,
//! with machine-checked contracts on every function.

pub mod auth;
pub mod collector;
pub mod config;
pub mod encode;
pub mod json;
pub mod metrics;
pub mod rfc3339;
pub mod scheduler;
pub mod webhooks;
