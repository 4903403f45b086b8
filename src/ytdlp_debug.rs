//! Capture of the extractor's JSON output for debugging: the setting that
//! turns it on, and the log line written for each capture.
use vstd::prelude::*;
use vstd::string::StringSliceAdditionalSpecFns;

use crate::text::{
    chars_of, decimal, eq_ascii_case, eq_ignore_ascii_case, push_char, push_decimal, text_of,
    trim_chars, trimmed,
};

verus! {

/// Where captured output goes.
#[derive(Debug, Clone, PartialEq, Eq)]
pub enum DebugMode {
    Off,
    Log,
    File(String),
}

pub open spec fn default_capture_file() -> Seq<char> {
    "logs/ytdlp-json.log"@
}

/// Meaning of the capture setting once trimmed: `off` or empty disables,
/// `log` logs, `file:<path>` appends to the path (the default file when
/// the path is empty), `file` appends to the default file; case does not
/// matter but for the `file:` prefix. Anything else disables.
pub open spec fn debug_mode_is(setting: Option<Seq<char>>, r: DebugMode) -> bool {
    let v = match setting {
        Some(s) => trimmed(s),
        None => "off"@,
    };
    if eq_ascii_case(v, "off"@) || v.len() == 0 {
        r == DebugMode::Off
    } else if eq_ascii_case(v, "log"@) {
        r == DebugMode::Log
    } else if v.len() >= 5 && v.take(5) == "file:"@ {
        r matches DebugMode::File(p) && p@ == (if v.len() == 5 {
            default_capture_file()
        } else {
            v.skip(5)
        })
    } else if eq_ascii_case(v, "file"@) {
        r matches DebugMode::File(p) && p@ == default_capture_file()
    } else {
        r == DebugMode::Off
    }
}

/// Reads the capture setting.
pub fn parse_debug_mode(setting: Option<&str>) -> (r: DebugMode)
    ensures
        debug_mode_is(crate::text::str_opt_view(setting), r),
{
    let v = match setting {
        Some(s) => trim_chars(s),
        None => chars_of("off"),
    };
    proof {
        reveal_strlit("file:");
    }
    if eq_ignore_ascii_case(&v, "off") || v.len() == 0 {
        DebugMode::Off
    } else if eq_ignore_ascii_case(&v, "log") {
        DebugMode::Log
    } else if v.len() >= 5 && v[0] == 'f' && v[1] == 'i' && v[2] == 'l' && v[3] == 'e' && v[4]
        == ':' {
        assert(v@.take(5) =~= "file:"@);
        if v.len() == 5 {
            DebugMode::File(String::from_str("logs/ytdlp-json.log"))
        } else {
            let mut rest: Vec<char> = Vec::new();
            let mut i: usize = 5;
            while i < v.len()
                invariant
                    5 <= i <= v@.len(),
                    rest@ == v@.subrange(5, i as int),
                decreases v@.len() - i,
            {
                rest.push(v[i]);
                i = i + 1;
                assert(rest@ =~= v@.subrange(5, i as int));
            }
            assert(rest@ =~= v@.skip(5));
            DebugMode::File(text_of(&rest))
        }
    } else {
        proof {
            if v@.len() >= 5 && v@.take(5) == "file:"@ {
                assert(v@.take(5)[0] == 'f');
                assert(v@.take(5)[1] == 'i');
                assert(v@.take(5)[2] == 'l');
                assert(v@.take(5)[3] == 'e');
                assert(v@.take(5)[4] == ':');
            }
        }
        if eq_ignore_ascii_case(&v, "file") {
            DebugMode::File(String::from_str("logs/ytdlp-json.log"))
        } else {
            DebugMode::Off
        }
    }
}

pub open spec fn line_break_to_space(c: char) -> char {
    if c == '\n' || c == '\r' {
        ' '
    } else {
        c
    }
}

/// `s` with every line feed and carriage return replaced by a space.
pub fn sanitize_line(s: &str) -> (r: String)
    ensures
        r@ == s@.map_values(|c: char| line_break_to_space(c)),
{
    let v = chars_of(s);
    let mut out = String::new();
    let mut i: usize = 0;
    while i < v.len()
        invariant
            i <= v@.len(),
            v@ == s@,
            out@ == v@.take(i as int).map_values(|c: char| line_break_to_space(c)),
        decreases v@.len() - i,
    {
        let c = v[i];
        let d = if c == '\n' || c == '\r' {
            ' '
        } else {
            c
        };
        push_char(&mut out, d);
        i = i + 1;
        assert(out@ =~= v@.take(i as int).map_values(|c: char| line_break_to_space(c)));
    }
    assert(v@.take(i as int) =~= v@);
    out
}

pub open spec fn prefix_text(
    ctx: Seq<char>,
    url: Option<Seq<char>>,
    len: nat,
    extra: Option<Seq<char>>,
) -> Seq<char> {
    "[ytdlp ctx="@ + ctx + match url {
        Some(u) => " url="@ + u,
        None => Seq::empty(),
    } + " len="@ + decimal(len) + match extra {
        Some(e) => " "@ + e,
        None => Seq::empty(),
    } + "] "@
}

/// Header of a capture line: context, URL, byte length and extra details.
pub fn prefix(ctx: &str, url: Option<&str>, len: usize, extra: Option<&str>) -> (r: String)
    ensures
        r@ == prefix_text(
            ctx@,
            crate::text::str_opt_view(url),
            len as nat,
            crate::text::str_opt_view(extra),
        ),
{
    let mut p = String::from_str("[ytdlp");
    p.append(" ctx=");
    p.append(ctx);
    if let Some(u) = url {
        p.append(" url=");
        p.append(u);
    }
    p.append(" len=");
    push_decimal(&mut p, len as u64);
    if let Some(e) = extra {
        push_char(&mut p, ' ');
        p.append(e);
    }
    p.append("] ");
    proof {
        reveal_strlit("[ytdlp");
        reveal_strlit(" ctx=");
        reveal_strlit("[ytdlp ctx=");
        reveal_strlit(" ");
    }
    assert(p@ =~= prefix_text(
        ctx@,
        crate::text::str_opt_view(url),
        len as nat,
        crate::text::str_opt_view(extra),
    ));
    p
}

/// Compact JSON text that serde_json gives bytes holding one JSON value;
/// none when the bytes are not JSON.
pub uninterp spec fn compact_json_of(b: Seq<u8>) -> Option<Seq<char>>;

/// Relies on `serde_json::from_slice` into a `serde_json::Value` and on
/// `serde_json::to_string` of that value: the result depends on the bytes
/// alone.
#[verifier::external_body]
fn compact_json(bytes: &[u8]) -> (r: Option<String>)
    ensures
        crate::text::opt_view(r) == compact_json_of(bytes@),
{
    serde_json::from_slice::<serde_json::Value>(bytes)
        .ok()
        .map(|v| serde_json::to_string(&v).unwrap_or_default())
}

/// The characters that `String::from_utf8_lossy` reads from bytes.
pub uninterp spec fn utf8_lossy_of(b: Seq<u8>) -> Seq<char>;

/// Relies on `String::from_utf8_lossy` of std: invalid sequences become
/// replacement characters; the result depends on the bytes alone.
#[verifier::external_body]
fn utf8_lossy(bytes: &[u8]) -> (r: String)
    ensures
        r@ == utf8_lossy_of(bytes@),
{
    String::from_utf8_lossy(bytes).into_owned()
}

/// What is logged of captured bytes: their JSON in compact form, else their
/// text on one line.
pub fn json_payload(bytes: &[u8]) -> (r: String)
    ensures
        r@ == match compact_json_of(bytes@) {
            Some(j) => j,
            None => utf8_lossy_of(bytes@).map_values(|c: char| line_break_to_space(c)),
        },
{
    match compact_json(bytes) {
        Some(j) => j,
        None => sanitize_line(utf8_lossy(bytes).as_str()),
    }
}

/// What is logged of one captured output line.
pub fn line_payload(line: &str) -> (r: String)
    ensures
        r@ == match compact_json_of(line.spec_bytes()) {
            Some(j) => j,
            None => line@.map_values(|c: char| line_break_to_space(c)),
        },
{
    match compact_json(line.as_bytes()) {
        Some(j) => j,
        None => sanitize_line(line),
    }
}

/// The capture line for bytes printed by the extractor.
pub fn json_capture_line(ctx: &str, bytes: &[u8], url: Option<&str>, extra: Option<&str>) -> (r:
    String)
    ensures
        r@ == prefix_text(
            ctx@,
            crate::text::str_opt_view(url),
            bytes@.len(),
            crate::text::str_opt_view(extra),
        ) + match compact_json_of(bytes@) {
            Some(j) => j,
            None => utf8_lossy_of(bytes@).map_values(|c: char| line_break_to_space(c)),
        },
{
    let mut p = prefix(ctx, url, bytes.len(), extra);
    p.append(json_payload(bytes).as_str());
    p
}

/// The capture line for one line printed by the extractor; its length is
/// counted in bytes.
pub fn line_capture_line(ctx: &str, line: &str, url: Option<&str>, extra: Option<&str>) -> (r:
    String)
    ensures
        r@ == prefix_text(
            ctx@,
            crate::text::str_opt_view(url),
            line.spec_bytes().len(),
            crate::text::str_opt_view(extra),
        ) + match compact_json_of(line.spec_bytes()) {
            Some(j) => j,
            None => line@.map_values(|c: char| line_break_to_space(c)),
        },
{
    let mut p = prefix(ctx, url, line.as_bytes().len(), extra);
    p.append(line_payload(line).as_str());
    p
}

} // verus!
