use vstd::prelude::*;

use crate::text::{
    chars_of, decimal, decimal_text, find_last, is_digit, last_pos, lemma_decimal_value,
    lemma_last_pos_bounds, number, opt_view, parse_number, str_opt_view, tail_is,
};

verus! {

/// How a request for a stored file is answered.
#[derive(Debug, Clone, Copy, PartialEq, Eq, Structural)]
pub enum RangeOutcome {
    /// The whole file, with status 200.
    Full,
    /// Bytes `start..=end` of the file, with status 206.
    Partial { start: u64, end: u64 },
    /// No byte of the file matches the range, with status 416.
    Unsatisfiable,
}

/// `d` is the position of the first `-` in `r`.
pub open spec fn first_dash(r: Seq<char>, d: int) -> bool {
    &&& 0 <= d < r.len()
    &&& r[d] == '-'
    &&& forall|k: int| 0 <= k < d ==> r[k] != '-'
}

pub open spec fn bytes_unit(h: Seq<char>) -> bool {
    h.len() >= 6 && h.take(6) == "bytes="@
}

/// The range after `bytes=` once split at its first dash into `a-b`.
pub open spec fn range_of_parts(a: Seq<char>, b: Seq<char>, size: u64) -> RangeOutcome {
    if a.len() == 0 {
        match number(b) {
            None => RangeOutcome::Full,
            Some(n) => if size == 0 || n == 0 {
                RangeOutcome::Unsatisfiable
            } else {
                RangeOutcome::Partial {
                    start: if n >= size { 0 } else { (size - n) as u64 },
                    end: (size - 1) as u64,
                }
            },
        }
    } else {
        match number(a) {
            None => RangeOutcome::Full,
            Some(s) => if b.len() == 0 {
                if s >= size {
                    RangeOutcome::Unsatisfiable
                } else {
                    RangeOutcome::Partial { start: s, end: (size - 1) as u64 }
                }
            } else {
                match number(b) {
                    None => RangeOutcome::Full,
                    Some(e) => if s >= size || e < s {
                        RangeOutcome::Unsatisfiable
                    } else {
                        RangeOutcome::Partial {
                            start: s,
                            end: if e >= size { (size - 1) as u64 } else { e },
                        }
                    },
                }
            },
        }
    }
}

/// Meaning of a `Range` header against a file of `size` bytes. Only the
/// `bytes` unit and a single range are honoured; anything else, and a
/// header that does not parse, asks for the whole file.
pub open spec fn range_outcome(h: Seq<char>, size: u64) -> RangeOutcome {
    if !bytes_unit(h) {
        RangeOutcome::Full
    } else {
        let r = h.skip(6);
        if r.contains(',') {
            RangeOutcome::Full
        } else if exists|d: int| first_dash(r, d) {
            let d = choose|d: int| first_dash(r, d);
            range_of_parts(r.take(d), r.skip(d + 1), size)
        } else {
            RangeOutcome::Full
        }
    }
}

pub open spec fn header_outcome(header: Option<Seq<char>>, size: u64) -> RangeOutcome {
    match header {
        Some(h) => range_outcome(h, size),
        None => RangeOutcome::Full,
    }
}

proof fn lemma_first_dash_unique(r: Seq<char>, d: int)
    requires
        first_dash(r, d),
    ensures
        (choose|e: int| first_dash(r, e)) == d,
{
    let e = choose|e: int| first_dash(r, e);
    assert(first_dash(r, e));
    if e < d {
        assert(r[e] != '-');
    } else if d < e {
        assert(r[d] != '-');
    }
}

/// Parses the value of a `Range` header against a file of `size` bytes.
pub fn parse_range(header: &str, size: u64) -> (r: RangeOutcome)
    ensures
        r == range_outcome(header@, size),
        r matches RangeOutcome::Partial { start, end } ==> start <= end < size,
{
    let v = chars_of(header);
    let n = v.len();
    proof {
        reveal_strlit("bytes=");
    }
    if n < 6 || v[0] != 'b' || v[1] != 'y' || v[2] != 't' || v[3] != 'e' || v[4] != 's' || v[5]
        != '=' {
        proof {
            if n >= 6 && v@.take(6) == "bytes="@ {
                assert(v@.take(6)[0] == 'b');
                assert(v@.take(6)[1] == 'y');
                assert(v@.take(6)[2] == 't');
                assert(v@.take(6)[3] == 'e');
                assert(v@.take(6)[4] == 's');
                assert(v@.take(6)[5] == '=');
            }
        }
        return RangeOutcome::Full;
    }
    assert(v@.take(6) =~= "bytes="@);
    let ghost r = v@.skip(6);
    let mut dash: usize = n;
    let mut i: usize = 6;
    while i < n
        invariant
            6 <= i <= n,
            n == v@.len(),
            v@ == header@,
            bytes_unit(v@),
            r == v@.skip(6),
            dash == n || (6 <= dash < i && first_dash(r, dash - 6)),
            forall|k: int| 6 <= k < i ==> v@[k] != ',',
            dash == n ==> forall|k: int| 6 <= k < i ==> v@[k] != '-',
        decreases n - i,
    {
        if v[i] == ',' {
            assert(r[i - 6] == ',');
            assert(r.contains(','));
            return RangeOutcome::Full;
        }
        if v[i] == '-' && dash == n {
            dash = i;
            assert(first_dash(r, dash - 6));
        }
        i = i + 1;
    }
    assert(!r.contains(','));
    if dash == n {
        assert(!exists|d: int| first_dash(r, d));
        return RangeOutcome::Full;
    }
    proof {
        lemma_first_dash_unique(r, dash - 6);
        assert(r.take(dash - 6) =~= v@.subrange(6, dash as int));
        assert(r.skip(dash - 6 + 1) =~= v@.subrange(dash + 1, n as int));
    }
    let a = parse_number(&v, 6, dash);
    let b = parse_number(&v, dash + 1, n);
    if dash == 6 {
        match b {
            None => RangeOutcome::Full,
            Some(k) => if size == 0 || k == 0 {
                RangeOutcome::Unsatisfiable
            } else {
                RangeOutcome::Partial {
                    start: if k >= size { 0 } else { size - k },
                    end: size - 1,
                }
            },
        }
    } else {
        match a {
            None => RangeOutcome::Full,
            Some(s) => if dash + 1 == n {
                if s >= size {
                    RangeOutcome::Unsatisfiable
                } else {
                    RangeOutcome::Partial { start: s, end: size - 1 }
                }
            } else {
                match b {
                    None => RangeOutcome::Full,
                    Some(e) => if s >= size || e < s {
                        RangeOutcome::Unsatisfiable
                    } else {
                        RangeOutcome::Partial {
                            start: s,
                            end: if e >= size { size - 1 } else { e },
                        }
                    },
                }
            },
        }
    }
}

/// Status, first byte, byte count and `Content-Range` value of the answer
/// to a request for a stored file.
#[derive(Debug, Clone)]
pub struct StreamPlan {
    pub status: u16,
    pub start: u64,
    pub length: u64,
    pub content_range: Option<String>,
}

pub open spec fn partial_range_text(start: u64, end: u64, size: u64) -> Seq<char> {
    "bytes "@ + decimal(start as nat) + "-"@ + decimal(end as nat) + "/"@ + decimal(size as nat)
}

pub open spec fn unsatisfied_range_text(size: u64) -> Seq<char> {
    "bytes */"@ + decimal(size as nat)
}

/// The answer to a request with the given `Range` header, if any, for a
/// file of `size` bytes.
pub open spec fn plan_matches(p: StreamPlan, o: RangeOutcome, size: u64) -> bool {
    match o {
        RangeOutcome::Full => {
            &&& p.status == 200
            &&& p.start == 0
            &&& p.length == size
            &&& p.content_range is None
        },
        RangeOutcome::Partial { start, end } => {
            &&& p.status == 206
            &&& p.start == start
            &&& p.length == end - start + 1
            &&& opt_view(p.content_range) == Some(partial_range_text(start, end, size))
        },
        RangeOutcome::Unsatisfiable => {
            &&& p.status == 416
            &&& p.start == 0
            &&& p.length == 0
            &&& opt_view(p.content_range) == Some(unsatisfied_range_text(size))
        },
    }
}

/// Decides status, span and `Content-Range` of the answer for a file of
/// `size` bytes.
pub fn plan_stream(range_header: Option<&str>, size: u64) -> (r: StreamPlan)
    ensures
        plan_matches(r, header_outcome(str_opt_view(range_header), size), size),
{
    let outcome = match range_header {
        Some(h) => parse_range(h, size),
        None => RangeOutcome::Full,
    };
    match outcome {
        RangeOutcome::Full => StreamPlan { status: 200, start: 0, length: size, content_range: None },
        RangeOutcome::Partial { start, end } => {
            let mut t = String::from_str("bytes ");
            t.append(decimal_text(start).as_str());
            t.append("-");
            t.append(decimal_text(end).as_str());
            t.append("/");
            t.append(decimal_text(size).as_str());
            StreamPlan { status: 206, start, length: end - start + 1, content_range: Some(t) }
        },
        RangeOutcome::Unsatisfiable => {
            let mut t = String::from_str("bytes */");
            t.append(decimal_text(size).as_str());
            StreamPlan { status: 416, start: 0, length: 0, content_range: Some(t) }
        },
    }
}

/// A single satisfiable range `a-b` is served as exactly those bytes, with
/// `b` clamped to the last byte; a range that starts at or past the end of
/// the file is refused.
pub proof fn lemma_single_range(a: u64, b: u64, size: u64)
    requires
        a <= b,
    ensures
        range_outcome("bytes="@ + decimal(a as nat) + "-"@ + decimal(b as nat), size) == (if a
            >= size {
            RangeOutcome::Unsatisfiable
        } else {
            RangeOutcome::Partial { start: a, end: if b >= size { (size - 1) as u64 } else { b } }
        }),
{
    reveal_strlit("bytes=");
    reveal_strlit("-");
    let da = decimal(a as nat);
    let db = decimal(b as nat);
    lemma_decimal_value(a as nat);
    lemma_decimal_value(b as nat);
    let h = "bytes="@ + da + "-"@ + db;
    assert(h.take(6) =~= "bytes="@);
    let r = h.skip(6);
    assert(r =~= da + "-"@ + db);
    let d = da.len() as int;
    assert(r[d] == '-');
    assert forall|k: int| 0 <= k < d implies r[k] != '-' by {
        assert(r[k] == da[k]);
        assert(is_digit(da[k]));
    }
    assert(first_dash(r, d));
    lemma_first_dash_unique(r, d);
    assert(!r.contains(',')) by {
        assert forall|k: int| 0 <= k < r.len() implies r[k] != ',' by {
            if k < d {
                assert(r[k] == da[k]);
                assert(is_digit(da[k]));
            } else if k > d {
                assert(r[k] == db[k - d - 1]);
                assert(is_digit(db[k - d - 1]));
            }
        }
    }
    assert(r.take(d) =~= da);
    assert(r.skip(d + 1) =~= db);
    assert(number(da) == Some(a));
    assert(number(db) == Some(b));
}

/// A header in another unit than bytes asks for the whole file.
pub proof fn lemma_other_unit(h: Seq<char>, size: u64)
    requires
        !bytes_unit(h),
    ensures
        range_outcome(h, size) == RangeOutcome::Full,
{
}

/// A header with several ranges asks for the whole file.
pub proof fn lemma_multi_range(h: Seq<char>, size: u64)
    requires
        bytes_unit(h),
        h.skip(6).contains(','),
    ensures
        range_outcome(h, size) == RangeOutcome::Full,
{
}

/// The file-name part of a path: what follows its last `/`.
pub open spec fn file_name_of(p: Seq<char>) -> Seq<char> {
    match last_pos(p, '/') {
        Some(k) => p.skip(k + 1),
        None => p,
    }
}

/// Extension of a path: what follows the last `.` of its file name, when
/// that dot is not the name's first character.
pub open spec fn extension_of(p: Seq<char>) -> Option<Seq<char>> {
    let name = file_name_of(p);
    match last_pos(name, '.') {
        Some(d) => if d > 0 { Some(name.skip(d + 1)) } else { None },
        None => None,
    }
}

pub open spec fn content_type_of(p: Seq<char>) -> Seq<char> {
    match extension_of(p) {
        Some(e) => if e == "mp4"@ {
            "video/mp4"@
        } else if e == "webm"@ {
            "video/webm"@
        } else if e == "mkv"@ {
            "video/x-matroska"@
        } else if e == "mov"@ {
            "video/quicktime"@
        } else if e == "avi"@ {
            "video/x-msvideo"@
        } else {
            "application/octet-stream"@
        },
        None => "application/octet-stream"@,
    }
}

/// Length of the extension of a path, if it has one.
pub fn extension_len(path: &str) -> (r: Option<usize>)
    ensures
        match extension_of(path@) {
            Some(e) => r == Some(e.len() as usize) && e.len() + 1 <= path@.len(),
            None => r is None,
        },
{
    let v = chars_of(path);
    proof {
        lemma_last_pos_bounds(v@, '/');
        lemma_last_pos_bounds(file_name_of(v@), '.');
    }
    let n = v.len();
    let start = match find_last(&v, '/') {
        Some(k) => {
            assert(k < n);
            k + 1
        },
        None => 0,
    };
    assert(file_name_of(v@) =~= v@.skip(start as int));
    let mut d: usize = v.len();
    while d > start
        invariant
            start <= d <= v@.len(),
            v@ == path@,
            file_name_of(v@) == v@.skip(start as int),
            last_pos(file_name_of(v@), '.') == last_pos(v@.subrange(start as int, d as int), '.'),
        decreases d,
    {
        assert(v@.subrange(start as int, d as int).drop_last() =~= v@.subrange(start as int, d - 1));
        if v[d - 1] == '.' {
            let k = d - 1 - start;
            if k > 0 {
                assert(file_name_of(v@).skip(k + 1) =~= v@.skip(d as int));
                return Some(v.len() - d);
            } else {
                return None;
            }
        }
        d = d - 1;
    }
    None
}

/// `Content-Type` of a stored file, from its extension.
pub fn content_type_for(path: &str) -> (r: &'static str)
    ensures
        r@ == content_type_of(path@),
{
    let v = chars_of(path);
    let n = v.len();
    let start = match find_last(&v, '/') {
        Some(k) => {
            assert(k < n);
            k + 1
        },
        None => 0,
    };
    proof {
        lemma_last_pos_bounds(v@, '/');
    }
    let mut name: Vec<char> = Vec::new();
    let mut i: usize = start;
    while i < v.len()
        invariant
            start <= i <= v@.len(),
            name@ == v@.subrange(start as int, i as int),
        decreases v@.len() - i,
    {
        name.push(v[i]);
        i = i + 1;
        assert(name@ =~= v@.subrange(start as int, i as int));
    }
    assert(name@ =~= file_name_of(path@));
    proof {
        lemma_last_pos_bounds(name@, '.');
    }
    match find_last(&name, '.') {
        Some(d) => if d > 0 {
            if tail_is(&name, d + 1, "mp4") {
                "video/mp4"
            } else if tail_is(&name, d + 1, "webm") {
                "video/webm"
            } else if tail_is(&name, d + 1, "mkv") {
                "video/x-matroska"
            } else if tail_is(&name, d + 1, "mov") {
                "video/quicktime"
            } else if tail_is(&name, d + 1, "avi") {
                "video/x-msvideo"
            } else {
                "application/octet-stream"
            }
        } else {
            "application/octet-stream"
        },
        None => "application/octet-stream",
    }
}

/// `p` has a `..` segment starting at `k`.
pub open spec fn parent_segment_at(p: Seq<char>, k: int) -> bool {
    &&& 0 <= k && k + 2 <= p.len()
    &&& p[k] == '.' && p[k + 1] == '.'
    &&& (k == 0 || p[k - 1] == '/')
    &&& (k + 2 == p.len() || p[k + 2] == '/')
}

/// A stored path may be served only when it is a non-empty relative path
/// without any `..` segment, so that it stays under the media root.
pub open spec fn safe_media_path(p: Seq<char>) -> bool {
    &&& p.len() > 0
    &&& p[0] != '/'
    &&& !exists|k: int| parent_segment_at(p, k)
}

pub fn is_safe_media_path(path: &str) -> (r: bool)
    ensures
        r == safe_media_path(path@),
{
    let v = chars_of(path);
    let n = v.len();
    if n == 0 || v[0] == '/' {
        return false;
    }
    let mut k: usize = 0;
    while k < n && n - k >= 2
        invariant
            k <= n,
            n == v@.len(),
            v@ == path@,
            forall|j: int| 0 <= j < k ==> !parent_segment_at(v@, j),
        decreases n - k,
    {
        if v[k] == '.' && v[k + 1] == '.' && (k == 0 || v[k - 1] == '/') && (k + 2 == n || v[k + 2]
            == '/') {
            assert(parent_segment_at(v@, k as int));
            return false;
        }
        k = k + 1;
    }
    true
}

} // verus!
