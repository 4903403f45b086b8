//! Job-orchestration core of a self-hosted media-ingestion service.
//!
//! Every module holds logic that is stated with contracts and proved:
//! the task registry and its metrics, the VPN restart policy, the refresh
//! decisions, the byte-range parser of the media streamer, and the small
//! text helpers around the extractor.
pub mod controllers;
pub mod gluetun;
pub mod job_tracking;
pub mod models;
pub mod tasks;
pub mod text;
pub mod workers;
pub mod ytdlp;
pub mod ytdlp_debug;
