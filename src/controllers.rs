//! Request handling that is decided by the library: the byte-range
//! semantics of the media streamer.
pub mod media;
