//! Telemetry core of a small health-check service: what to record for each
//! handled request, how the background collectors advance, how the push and
//! pull export paths are configured, and what a scrape answers.

pub mod collector;
pub mod pipeline;
pub mod probe;
pub mod publish;
pub mod request;
pub mod scrape;
