//! Registry of background jobs: task records, per-kind metrics and the
//! bookkeeping of VPN restarts.
pub mod task;
pub mod metrics;
pub mod manager;
