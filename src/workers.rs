//! Decisions of the background workers that refresh sources and download
//! medias.
pub mod fetch_media;
pub mod fetch_source_info;
