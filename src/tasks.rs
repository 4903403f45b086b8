//! Periodic sweeps over the catalog.
pub mod refresh_indexes;
