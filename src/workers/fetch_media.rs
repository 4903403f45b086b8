use vstd::prelude::*;

use crate::models::medias::Media;
use crate::models::sources::Source;
use crate::text::{first_line, first_line_of};

verus! {

/// Seconds after a failed download before it is tried again.
pub const RETRY_DELAY_SECS: u64 = 5 * 60;

/// What a download needs once its preconditions hold.
#[derive(Debug, Clone)]
pub struct DownloadJob {
    pub media_id: i32,
    pub title: String,
    pub original_url: String,
}

/// A download is owed for a media that exists, has no file yet, carries
/// its metadata, and whose source exists with its metadata.
pub open spec fn download_owed(media: Option<Media>, source: Option<Source>) -> bool {
    &&& media is Some
    &&& media->0.media_path is None
    &&& media->0.metadata is Some
    &&& source is Some
    &&& source->0.metadata is Some
}

/// The download to run for a media and its source; none when any
/// precondition fails, which ends the job without error.
pub fn download_job(media: Option<&Media>, source: Option<&Source>) -> (r: Option<DownloadJob>)
    ensures
        r is Some <==> download_owed(
            match media {
                Some(m) => Some(*m),
                None => None,
            },
            match source {
                Some(s) => Some(*s),
                None => None,
            },
        ),
        r matches Some(j) ==> {
            let m = media->0;
            &&& j.media_id == m.id
            &&& j.title == m.metadata->0.title
            &&& j.original_url == m.metadata->0.original_url
        },
{
    let m = match media {
        Some(m) => m,
        None => return None,
    };
    if m.media_path.is_some() {
        return None;
    }
    let meta = match &m.metadata {
        Some(meta) => meta,
        None => return None,
    };
    let s = match source {
        Some(s) => s,
        None => return None,
    };
    if s.metadata.is_none() {
        return None;
    }
    Some(
        DownloadJob {
            media_id: m.id,
            title: meta.title.clone(),
            original_url: meta.original_url.clone(),
        },
    )
}

/// A scheduled retry still runs when the media exists and still has no
/// file.
pub fn retry_still_needed(media: Option<&Media>) -> (r: bool)
    ensures
        r == (media matches Some(m) && m.media_path is None),
{
    match media {
        Some(m) => m.media_path.is_none(),
        None => false,
    }
}

pub open spec fn failure_text(error: Seq<char>) -> Seq<char> {
    if first_line_of(error).len() == 0 {
        "Unknown error"@
    } else {
        first_line_of(error)
    }
}

/// Message recorded on a failed task: the first line of the error, or
/// `Unknown error` when that line is empty, so that it is never empty.
pub fn task_failure_message(error: &str) -> (r: String)
    ensures
        r@ == failure_text(error@),
        r@.len() > 0,
{
    let line = first_line(error);
    if line.as_str().unicode_len() == 0 {
        proof {
            reveal_strlit("Unknown error");
        }
        String::from_str("Unknown error")
    } else {
        line
    }
}

} // verus!
