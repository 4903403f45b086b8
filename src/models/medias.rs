use vstd::prelude::*;

use crate::controllers::media::extension_of;
use crate::ytdlp::VideoMetadata;

verus! {

/// Metadata of one video item as the catalog stores it.
#[derive(Debug, Clone)]
pub struct MediaMetadata {
    pub title: String,
    pub description: Option<String>,
    pub duration: u64,
    pub extractor_key: String,
    pub original_url: String,
    pub timestamp: i64,
}

/// One downloadable video item of a source.
#[derive(Debug, Clone)]
pub struct Media {
    pub id: i32,
    pub url: String,
    pub source_id: i32,
    pub metadata: Option<MediaMetadata>,
    pub media_path: Option<String>,
}

impl MediaMetadata {
    /// The catalog's part of an extractor record.
    pub fn from_video(v: VideoMetadata) -> (r: MediaMetadata)
        ensures
            r.title == v.title,
            r.description == v.description,
            r.duration == v.duration,
            r.extractor_key == v.extractor_key,
            r.original_url == v.original_url,
            r.timestamp == v.timestamp,
    {
        MediaMetadata {
            title: v.title,
            description: v.description,
            duration: v.duration,
            extractor_key: v.extractor_key,
            original_url: v.original_url,
            timestamp: v.timestamp,
        }
    }
}

/// `p` with the extension of its file name, if any, replaced by `ext`.
pub open spec fn with_extension_of(p: Seq<char>, ext: Seq<char>) -> Seq<char> {
    match extension_of(p) {
        Some(e) => p.take(p.len() - e.len() - 1) + "."@ + ext,
        None => p + "."@ + ext,
    }
}

/// Path of the info-JSON file written beside a media file.
pub open spec fn sidecar_path_of(p: Seq<char>) -> Seq<char> {
    with_extension_of(p, "info.json"@)
}

/// A path with the extension of its file name replaced by `ext`, or given
/// `ext` when it has none.
pub fn with_extension(path: &str, ext: &str) -> (r: String)
    ensures
        r@ == with_extension_of(path@, ext@),
{
    let v = crate::text::chars_of(path);
    let mut keep: usize = v.len();
    if let Some(n) = crate::controllers::media::extension_len(path) {
        keep = v.len() - n - 1;
    }
    let mut out: Vec<char> = v;
    out.truncate(keep);
    let mut s = crate::text::text_of(&out);
    s.append(".");
    s.append(ext);
    s
}

/// Path of the info-JSON file written beside a media file.
pub fn sidecar_path(media_path: &str) -> (r: String)
    ensures
        r@ == sidecar_path_of(media_path@),
{
    with_extension(media_path, "info.json")
}

/// Path of the file that remuxing a download into Matroska leaves.
pub fn remuxed_path(filename: &str) -> (r: String)
    ensures
        r@ == with_extension_of(filename@, "mkv"@),
{
    with_extension(filename, "mkv")
}

} // verus!
