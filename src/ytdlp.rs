//! The extractor facade: what the library decides around the external
//! command-line tool, namely the arguments it is run with, how its output
//! is judged, and how probed entries are read.
use vstd::prelude::*;

use crate::models::sources::{ListKind, ListOrder};
use crate::text::{chars_of, number, parse_number, push_char};
use crate::workers::fetch_source_info::{ProbeMode, ProbeResult};

verus! {

/// One record printed by the extractor.
#[derive(Debug, Clone)]
pub struct VideoMetadata {
    pub title: String,
    pub description: Option<String>,
    pub duration: u64,
    pub uploader: String,
    pub n_entries: Option<u64>,
    pub extractor_key: String,
    pub original_url: String,
    pub timestamp: i64,
    pub filename: String,
}

/// Path of the extractor executable.
pub fn yt_dlp_path() -> (r: String)
    ensures
        r@ == "libs/yt-dlp"@,
{
    String::from_str("libs/yt-dlp")
}

/// Path of the ffmpeg executable.
pub fn ffmpeg_path() -> (r: String)
    ensures
        r@ == "libs/ffmpeg"@,
{
    String::from_str("libs/ffmpeg")
}

/// A listing fails when the extractor exits unsuccessfully, and also when it
/// exits successfully without printing a single item.
pub fn stream_should_fail(exit_success: bool, items_emitted: usize) -> (r: bool)
    ensures
        r == (!exit_success || items_emitted == 0),
{
    !exit_success || items_emitted == 0
}

pub const DEFAULT_CONCURRENCY: usize = 4;

pub const MAX_CONCURRENCY: usize = 8;

/// The concurrency that a setting asks for: its value clamped to 1..=8, or
/// 4 when it is absent or not a number.
pub open spec fn concurrency_of(setting: Option<Seq<char>>) -> usize {
    match setting {
        Some(s) => {
            let digits = if s.len() > 0 && s[0] == '+' { s.skip(1) } else { s };
            match number(digits) {
                Some(n) => if n < 1 {
                    1
                } else if n > 8 {
                    8
                } else {
                    n as usize
                },
                None => 4,
            }
        },
        None => 4,
    }
}

/// Reads the extractor concurrency from its setting.
pub fn concurrency_limit(setting: Option<&str>) -> (r: usize)
    ensures
        r == concurrency_of(crate::text::str_opt_view(setting)),
        1 <= r <= 8,
{
    match setting {
        None => DEFAULT_CONCURRENCY,
        Some(s) => {
            let v = chars_of(s);
            let from: usize = if v.len() > 0 && v[0] == '+' { 1 } else { 0 };
            assert(v@.subrange(from as int, v@.len() as int) =~= (if v@.len() > 0 && v@[0] == '+' {
                v@.skip(1)
            } else {
                v@
            }));
            match parse_number(&v, from, v.len()) {
                Some(n) => if n < 1 {
                    1
                } else if n > 8 {
                    MAX_CONCURRENCY
                } else {
                    n as usize
                },
                None => DEFAULT_CONCURRENCY,
            }
        },
    }
}

/// The order of a list from the timestamps of its first two entries.
pub open spec fn order_from(first: i64, second: i64) -> ListOrder {
    if first > second {
        ListOrder::NewestFirst
    } else if first < second {
        ListOrder::OldestFirst
    } else {
        ListOrder::Unknown
    }
}

/// What a metadata probe learns from the entries it read: the first entry
/// tells whether the URL is a list (it then carries the list's size) and
/// who publishes it; in order-aware mode the first two entries tell the
/// list order.
pub open spec fn probe_of(mode: ProbeMode, entries: Seq<VideoMetadata>, r: ProbeResult) -> bool {
    let first = entries[0];
    &&& r.list_kind == (if first.n_entries is Some {
        ListKind::List
    } else {
        ListKind::Video
    })
    &&& r.list_count == first.n_entries
    &&& r.list_order == (if mode == ProbeMode::OrderAware && entries.len() >= 2 {
        order_from(first.timestamp, entries[1].timestamp)
    } else {
        ListOrder::Unknown
    })
    &&& r.uploader == Some(first.uploader)
    &&& r.source_provider == Some(first.extractor_key)
}

/// Reads a probe's entries; none when the probe printed no entry.
pub fn probe_result(mode: ProbeMode, entries: &Vec<VideoMetadata>) -> (r: Option<ProbeResult>)
    ensures
        entries@.len() == 0 <==> r is None,
        r matches Some(p) ==> probe_of(mode, entries@, p),
{
    if entries.len() == 0 {
        return None;
    }
    let first = &entries[0];
    let list_order = match mode {
        ProbeMode::OrderAware => if entries.len() >= 2 {
            let a = first.timestamp;
            let b = entries[1].timestamp;
            if a > b {
                ListOrder::NewestFirst
            } else if a < b {
                ListOrder::OldestFirst
            } else {
                ListOrder::Unknown
            }
        } else {
            ListOrder::Unknown
        },
        ProbeMode::Minimal => ListOrder::Unknown,
    };
    Some(
        ProbeResult {
            list_kind: if first.n_entries.is_some() {
                ListKind::List
            } else {
                ListKind::Video
            },
            list_count: first.n_entries,
            list_order,
            uploader: Some(first.uploader.clone()),
            source_provider: Some(first.extractor_key.clone()),
        },
    )
}

pub open spec fn text_seq(v: Seq<String>) -> Seq<Seq<char>> {
    v.map_values(|s: String| s@)
}

fn owned(s: &str) -> (r: String)
    ensures
        r@ == s@,
{
    String::from_str(s)
}

fn joined(a: &str, b: &str) -> (r: String)
    ensures
        r@ == a@ + b@,
{
    let mut s = String::from_str(a);
    s.append(b);
    s
}

/// Arguments of a metadata probe, or of the dump of one video.
pub fn probe_args(url: &str) -> (r: Vec<String>)
    ensures
        text_seq(r@) == seq![
            "--dump-json"@,
            "-t"@,
            "sleep"@,
            "--max-downloads=1"@,
            "--simulate"@,
            url@,
        ],
{
    let r = vec![
        owned("--dump-json"),
        owned("-t"),
        owned("sleep"),
        owned("--max-downloads=1"),
        owned("--simulate"),
        owned(url),
    ];
    assert(text_seq(r@) =~= seq![
        "--dump-json"@,
        "-t"@,
        "sleep"@,
        "--max-downloads=1"@,
        "--simulate"@,
        url@,
    ]);
    r
}

/// Arguments of a streamed listing; a reversed listing asks the extractor
/// for the opposite of its natural order.
pub fn stream_args(url: &str, reversed: bool) -> (r: Vec<String>)
    ensures
        text_seq(r@) == if reversed {
            seq!["--dump-json"@, "--simulate"@, "-t"@, "sleep"@, "--playlist-reverse"@, url@]
        } else {
            seq!["--dump-json"@, "--simulate"@, "-t"@, "sleep"@, url@]
        },
{
    let mut r = vec![owned("--dump-json"), owned("--simulate"), owned("-t"), owned("sleep")];
    if reversed {
        r.push(owned("--playlist-reverse"));
    }
    r.push(owned(url));
    if reversed {
        assert(text_seq(r@) =~= seq![
            "--dump-json"@,
            "--simulate"@,
            "-t"@,
            "sleep"@,
            "--playlist-reverse"@,
            url@,
        ]);
    } else {
        assert(text_seq(r@) =~= seq!["--dump-json"@, "--simulate"@, "-t"@, "sleep"@, url@]);
    }
    r
}

pub open spec fn sponsorblock_value(list: Seq<char>) -> Seq<char> {
    if list.len() == 0 {
        "-all"@
    } else {
        list
    }
}

/// Arguments of a download into `dir`, removing the given sponsor segment
/// categories (a comma-separated list; empty removes every category).
pub fn download_args(url: &str, sponsorblock: &str, dir: &str) -> (r: Vec<String>)
    ensures
        text_seq(r@) == seq![
            "--dump-json"@,
            "-t"@,
            "sleep"@,
            "--restrict-filenames"@,
            "--write-info-json"@,
            "--sponsorblock-remove="@ + sponsorblock_value(sponsorblock@),
            "--paths="@ + dir@,
            "--max-downloads=1"@,
            "--no-simulate"@,
            "--remux-video=mkv"@,
            "--embed-metadata"@,
            "--embed-subs"@,
            "--embed-thumbnail"@,
            url@,
        ],
{
    let remove = if sponsorblock.unicode_len() == 0 {
        joined("--sponsorblock-remove=", "-all")
    } else {
        joined("--sponsorblock-remove=", sponsorblock)
    };
    let r = vec![
        owned("--dump-json"),
        owned("-t"),
        owned("sleep"),
        owned("--restrict-filenames"),
        owned("--write-info-json"),
        remove,
        joined("--paths=", dir),
        owned("--max-downloads=1"),
        owned("--no-simulate"),
        owned("--remux-video=mkv"),
        owned("--embed-metadata"),
        owned("--embed-subs"),
        owned("--embed-thumbnail"),
        owned(url),
    ];
    assert(text_seq(r@) =~= seq![
        "--dump-json"@,
        "-t"@,
        "sleep"@,
        "--restrict-filenames"@,
        "--write-info-json"@,
        "--sponsorblock-remove="@ + sponsorblock_value(sponsorblock@),
        "--paths="@ + dir@,
        "--max-downloads=1"@,
        "--no-simulate"@,
        "--remux-video=mkv"@,
        "--embed-metadata"@,
        "--embed-subs"@,
        "--embed-thumbnail"@,
        url@,
    ]);
    r
}

/// Whether Rust's `char::is_alphanumeric` holds of a character.
pub uninterp spec fn alphanumeric(c: char) -> bool;

/// Relies on `char::is_alphanumeric` of std: Unicode letters and numbers,
/// which include the ASCII letters and digits.
#[verifier::external_body]
fn is_alphanumeric(c: char) -> (r: bool)
    ensures
        r == alphanumeric(c),
        ('a' <= c <= 'z' || 'A' <= c <= 'Z' || '0' <= c <= '9') ==> r,
{
    c.is_alphanumeric()
}

/// Characters kept in a directory name besides letters and numbers.
pub open spec fn name_punctuation(c: char) -> bool {
    c == '-' || c == '_' || c == '.' || c == '(' || c == ')' || c == '[' || c == ']'
}

pub open spec fn kept_in_dir_name(c: char) -> bool {
    alphanumeric(c) || name_punctuation(c)
}

/// Directory name of an uploader: its letters, numbers and the characters
/// `- _ . ( ) [ ]`, in order.
pub fn uploader_dir_name(uploader: &str) -> (r: String)
    ensures
        r@ == uploader@.filter(|c: char| kept_in_dir_name(c)),
{
    let v = chars_of(uploader);
    let mut s = String::new();
    let mut i: usize = 0;
    while i < v.len()
        invariant
            i <= v@.len(),
            v@ == uploader@,
            s@ == v@.take(i as int).filter(|c: char| kept_in_dir_name(c)),
        decreases v@.len() - i,
    {
        proof {
            reveal(Seq::filter);
            assert(v@.take(i + 1).drop_last() =~= v@.take(i as int));
        }
        let c = v[i];
        if is_alphanumeric(c) || c == '-' || c == '_' || c == '.' || c == '(' || c == ')' || c
            == '[' || c == ']' {
            push_char(&mut s, c);
        }
        i = i + 1;
    }
    assert(v@.take(i as int) =~= v@);
    s
}

} // verus!
