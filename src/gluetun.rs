//! Supervision of the VPN container: the restart policy, the restart
//! protocol against its control API, and its configuration.
pub mod config;
pub mod controller;
pub mod supervisor;
