//! The catalog's records as the library sees them: sources, their derived
//! metadata, and medias.
pub mod medias;
pub mod sources;
