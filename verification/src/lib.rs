//! Capture-session metrics: a frame/byte aggregator fed by a capture loop,
//! with consistent snapshots and a stable on-disk snapshot encoding.

pub mod capture;
pub mod export;
pub mod metrics;
