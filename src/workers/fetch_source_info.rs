use vstd::prelude::*;

use crate::models::sources::{ListKind, ListOrder, ListTab, SourceMetadata};
use crate::text::{chars_of, decimal, ends_with, ends_with_text, opt_view, push_decimal, same_chars};

verus! {

pub open spec fn is_query_stop(c: char) -> bool {
    c == '?' || c == '#'
}

/// `k` is where the query or fragment of `s` starts, or its length.
pub open spec fn query_start(s: Seq<char>, k: int) -> bool {
    &&& 0 <= k <= s.len()
    &&& (k == s.len() || is_query_stop(s[k]))
    &&& forall|j: int| 0 <= j < k ==> !is_query_stop(s[j])
}

/// `s` without its query and fragment.
pub open spec fn without_query(s: Seq<char>) -> Seq<char> {
    s.take(choose|k: int| query_start(s, k))
}

/// `s` without its trailing slashes.
pub open spec fn trim_slashes(s: Seq<char>) -> Seq<char>
    decreases s.len(),
{
    if s.len() > 0 && s.last() == '/' {
        trim_slashes(s.drop_last())
    } else {
        s
    }
}

/// The form in which two URLs are compared: query, fragment and trailing
/// slashes do not count.
pub open spec fn normalized(s: Seq<char>) -> Seq<char> {
    trim_slashes(without_query(s))
}

/// A URL without the suffix of a known tab: the family that it and its
/// tabs belong to.
pub open spec fn family(s: Seq<char>) -> Seq<char> {
    let n = normalized(s);
    if ends_with(n, "/videos"@) {
        n.take(n.len() - "/videos"@.len())
    } else if ends_with(n, "/streams"@) {
        n.take(n.len() - "/streams"@.len())
    } else if ends_with(n, "/shorts"@) {
        n.take(n.len() - "/shorts"@.len())
    } else if ends_with(n, "/playlists"@) {
        n.take(n.len() - "/playlists"@.len())
    } else {
        n
    }
}

proof fn lemma_query_start_unique(s: Seq<char>, k: int)
    requires
        query_start(s, k),
    ensures
        (choose|j: int| query_start(s, j)) == k,
{
    let j = choose|j: int| query_start(s, j);
    assert(query_start(s, j));
    if j < k {
        assert(!is_query_stop(s[j]));
    } else if k < j {
        assert(!is_query_stop(s[k]));
    }
}

/// Characters of a URL in normalized form.
pub fn normalize_url(url: &str) -> (r: Vec<char>)
    ensures
        r@ == normalized(url@),
{
    let mut v = chars_of(url);
    let mut k: usize = 0;
    while k < v.len() && v[k] != '?' && v[k] != '#'
        invariant
            k <= v@.len(),
            v@ == url@,
            forall|j: int| 0 <= j < k ==> !is_query_stop(v@[j]),
        decreases v@.len() - k,
    {
        k = k + 1;
    }
    proof {
        lemma_query_start_unique(url@, k as int);
    }
    v.truncate(k);
    assert(v@ =~= without_query(url@));
    let ghost cut = v@;
    let mut n: usize = v.len();
    assert(cut.take(n as int) =~= cut);
    while n > 0 && v[n - 1] == '/'
        invariant
            n <= v@.len(),
            v@ == cut,
            trim_slashes(cut.take(n as int)) == trim_slashes(cut),
        decreases n,
    {
        assert(cut.take(n as int).drop_last() =~= cut.take(n - 1));
        n = n - 1;
    }
    v.truncate(n);
    assert(v@ =~= cut.take(n as int));
    v
}

/// Characters of the family of a URL.
pub fn url_family(url: &str) -> (r: Vec<char>)
    ensures
        r@ == family(url@),
{
    let mut n = normalize_url(url);
    let len = n.len();
    proof {
        reveal_strlit("/videos");
        reveal_strlit("/streams");
        reveal_strlit("/shorts");
        reveal_strlit("/playlists");
    }
    if ends_with_text(&n, "/videos") {
        n.truncate(len - 7);
    } else if ends_with_text(&n, "/streams") {
        n.truncate(len - 8);
    } else if ends_with_text(&n, "/shorts") {
        n.truncate(len - 7);
    } else if ends_with_text(&n, "/playlists") {
        n.truncate(len - 10);
    }
    n
}

/// Whether two URLs are equal once normalized.
pub fn same_url(a: &str, b: &str) -> (r: bool)
    ensures
        r == (normalized(a@) == normalized(b@)),
{
    same_chars(&normalize_url(a), &normalize_url(b))
}

/// Some probed tab is the given URL once both are normalized.
pub open spec fn tab_matches(tabs: Seq<ListTab>, u: Seq<char>) -> bool {
    exists|i: int| 0 <= i < tabs.len() && normalized(#[trigger] tabs[i].url@) == normalized(u)
}

/// A stored tab is reused when it belongs to the source's family and is
/// still among the probed tabs.
pub open spec fn cached_tab_usable(src: Seq<char>, tabs: Seq<ListTab>, c: Seq<char>) -> bool {
    family(c) == family(src) && tab_matches(tabs, c)
}

/// The tab that a refresh works on: the source URL itself when it is one of
/// the tabs, else the stored tab when it is still usable, else none.
pub open spec fn selected_tab(src: Seq<char>, tabs: Seq<ListTab>, cached: Option<Seq<char>>) -> Option<
    Seq<char>,
> {
    if tab_matches(tabs, src) {
        Some(src)
    } else {
        match cached {
            Some(c) => if cached_tab_usable(src, tabs, c) {
                Some(c)
            } else {
                None
            },
            None => None,
        }
    }
}

/// The URL that a refresh lists: the selected tab, else the source URL.
pub open spec fn effective_url(src: Seq<char>, tabs: Seq<ListTab>, cached: Option<Seq<char>>) -> Seq<
    char,
> {
    match selected_tab(src, tabs, cached) {
        Some(t) => t,
        None => src,
    }
}

/// URL that a refresh lists, and the tab persisted with the metadata.
#[derive(Debug, Clone)]
pub struct TabSelection {
    pub effective_url: String,
    pub list_tab: Option<String>,
}

pub fn any_tab_matches(tabs: &Vec<ListTab>, url: &str) -> (r: bool)
    ensures
        r == tab_matches(tabs@, url@),
{
    let mut i: usize = 0;
    while i < tabs.len()
        invariant
            i <= tabs@.len(),
            forall|j: int| 0 <= j < i ==> normalized(#[trigger] tabs@[j].url@) != normalized(url@),
        decreases tabs@.len() - i,
    {
        if same_url(tabs[i].url.as_str(), url) {
            return true;
        }
        i = i + 1;
    }
    false
}

/// Resolves the URL and tab of a refresh from the source URL, the probed
/// tabs and the tab stored by the previous refresh.
pub fn resolve_effective_url(source_url: &str, tabs: &Vec<ListTab>, cached_tab: Option<&str>) -> (r:
    TabSelection)
    ensures
        opt_view(r.list_tab) == selected_tab(
            source_url@,
            tabs@,
            crate::text::str_opt_view(cached_tab),
        ),
        r.effective_url@ == effective_url(
            source_url@,
            tabs@,
            crate::text::str_opt_view(cached_tab),
        ),
{
    if any_tab_matches(tabs, source_url) {
        return TabSelection {
            effective_url: String::from_str(source_url),
            list_tab: Some(String::from_str(source_url)),
        };
    }
    if let Some(c) = cached_tab {
        if same_chars(&url_family(c), &url_family(source_url)) && any_tab_matches(tabs, c) {
            return TabSelection {
                effective_url: String::from_str(c),
                list_tab: Some(String::from_str(c)),
            };
        }
    }
    TabSelection { effective_url: String::from_str(source_url), list_tab: None }
}

/// Selecting again with the tab that a selection persisted selects the same
/// tab: with the source URL and the probed tabs unchanged, a refresh keeps
/// its tab.
pub proof fn lemma_tab_selection_stable(
    src: Seq<char>,
    tabs: Seq<ListTab>,
    cached: Option<Seq<char>>,
)
    ensures
        selected_tab(src, tabs, selected_tab(src, tabs, cached)) == selected_tab(src, tabs, cached),
        effective_url(src, tabs, selected_tab(src, tabs, cached)) == effective_url(
            src,
            tabs,
            cached,
        ),
{
}

/// How much the metadata probe reads.
#[derive(Debug, Clone, Copy, PartialEq, Eq, Structural)]
pub enum ProbeMode {
    /// Two entries, so that the list order can be inferred.
    OrderAware,
    /// One entry.
    Minimal,
}

/// The probe reads enough to learn the list order only where it is not
/// already known.
pub open spec fn probe_mode_for(cached: Option<SourceMetadata>) -> ProbeMode {
    match cached {
        None => ProbeMode::OrderAware,
        Some(m) => match m.list_kind {
            ListKind::Video => ProbeMode::Minimal,
            ListKind::List => if m.list_order == ListOrder::Unknown {
                ProbeMode::OrderAware
            } else {
                ProbeMode::Minimal
            },
            ListKind::Unknown => ProbeMode::OrderAware,
        },
    }
}

pub fn choose_probe_mode(cached: Option<&SourceMetadata>) -> (r: ProbeMode)
    ensures
        r == probe_mode_for(
            match cached {
                Some(m) => Some(*m),
                None => None,
            },
        ),
{
    match cached {
        None => ProbeMode::OrderAware,
        Some(m) => match m.list_kind {
            ListKind::Video => ProbeMode::Minimal,
            ListKind::List => match m.list_order {
                ListOrder::Unknown => ProbeMode::OrderAware,
                _ => ProbeMode::Minimal,
            },
            ListKind::Unknown => ProbeMode::OrderAware,
        },
    }
}

/// What the metadata probe learned about a source.
#[derive(Debug, Clone)]
pub struct ProbeResult {
    pub list_kind: ListKind,
    pub list_count: Option<u64>,
    pub list_order: ListOrder,
    pub uploader: Option<String>,
    pub source_provider: Option<String>,
}

/// Text taken from the probe, else from the stored metadata, else the
/// source URL, else `unknown`.
pub open spec fn fallback_text(probed: Option<String>, cached: Option<String>, url: Seq<char>) -> Seq<
    char,
> {
    match probed {
        Some(p) => p@,
        None => match cached {
            Some(c) => c@,
            None => if url.len() > 0 {
                url
            } else {
                "unknown"@
            },
        },
    }
}

fn pick_text(probed: &Option<String>, cached: Option<&String>, url: &str) -> (r: String)
    ensures
        r@ == fallback_text(
            *probed,
            match cached {
                Some(c) => Some(*c),
                None => None,
            },
            url@,
        ),
{
    match probed {
        Some(p) => p.clone(),
        None => match cached {
            Some(c) => c.clone(),
            None => if url.unicode_len() > 0 {
                String::from_str(url)
            } else {
                String::from_str("unknown")
            },
        },
    }
}

pub open spec fn cached_tab_of(cached: Option<SourceMetadata>) -> Option<Seq<char>> {
    match cached {
        Some(m) => opt_view(m.list_tab),
        None => None,
    }
}

/// The metadata that a refresh persists, from the probe, the stored
/// metadata and the selected tab.
pub open spec fn derived_metadata(
    r: SourceMetadata,
    probe: ProbeResult,
    cached: Option<SourceMetadata>,
    url: Seq<char>,
    has_tabs: bool,
    list_tab: Option<String>,
    list_tabs: Vec<ListTab>,
) -> bool {
    let tab_changed = opt_view(list_tab) != cached_tab_of(cached);
    let container = has_tabs && list_tab is None;
    let reuse = !tab_changed && cached is Some;
    &&& r.list_kind == probe.list_kind
    &&& r.list_count == (if container {
        None
    } else if probe.list_count is Some {
        probe.list_count
    } else if reuse {
        cached->0.list_count
    } else {
        None
    })
    &&& r.list_order == (if probe.list_order != ListOrder::Unknown {
        probe.list_order
    } else if reuse {
        cached->0.list_order
    } else {
        ListOrder::Unknown
    })
    &&& r.uploader@ == fallback_text(
        probe.uploader,
        match cached {
            Some(m) => Some(m.uploader),
            None => None,
        },
        url,
    )
    &&& r.source_provider@ == fallback_text(
        probe.source_provider,
        match cached {
            Some(m) => Some(m.source_provider),
            None => None,
        },
        url,
    )
    &&& r.items == (if probe.list_kind == ListKind::Video {
        1
    } else {
        match r.list_count {
            Some(c) => c,
            None => if reuse && !container {
                cached->0.items
            } else {
                0
            },
        }
    })
    &&& r.list_tab == list_tab
    &&& r.list_tabs == list_tabs
}

fn same_tab(a: &Option<String>, b: &Option<String>) -> (r: bool)
    ensures
        r == (opt_view(*a) == opt_view(*b)),
{
    match (a, b) {
        (Some(x), Some(y)) => crate::text::same_text(x.as_str(), y.as_str()),
        (None, None) => true,
        _ => false,
    }
}

/// Builds the metadata that a refresh persists.
pub fn derive_source_metadata(
    probe: &ProbeResult,
    cached: Option<&SourceMetadata>,
    source_url: &str,
    has_tabs: bool,
    list_tab: Option<String>,
    list_tabs: Vec<ListTab>,
) -> (r: SourceMetadata)
    ensures
        derived_metadata(
            r,
            *probe,
            match cached {
                Some(m) => Some(*m),
                None => None,
            },
            source_url@,
            has_tabs,
            list_tab,
            list_tabs,
        ),
{
    let ghost gcached = match cached {
        Some(m) => Some(*m),
        None => None::<SourceMetadata>,
    };
    let tab_changed = match cached {
        Some(m) => !same_tab(&list_tab, &m.list_tab),
        None => list_tab.is_some(),
    };
    assert(tab_changed == (opt_view(list_tab) != cached_tab_of(gcached)));
    let container = has_tabs && list_tab.is_none();
    let reuse = !tab_changed && cached.is_some();
    let list_count = if container {
        None
    } else if probe.list_count.is_some() {
        probe.list_count
    } else if reuse {
        match cached {
            Some(m) => m.list_count,
            None => None,
        }
    } else {
        None
    };
    let list_order = match probe.list_order {
        ListOrder::Unknown => if reuse {
            match cached {
                Some(m) => m.list_order,
                None => ListOrder::Unknown,
            }
        } else {
            ListOrder::Unknown
        },
        o => o,
    };
    let uploader = pick_text(
        &probe.uploader,
        match cached {
            Some(m) => Some(&m.uploader),
            None => None,
        },
        source_url,
    );
    let source_provider = pick_text(
        &probe.source_provider,
        match cached {
            Some(m) => Some(&m.source_provider),
            None => None,
        },
        source_url,
    );
    let items = match probe.list_kind {
        ListKind::Video => 1,
        _ => match list_count {
            Some(c) => c,
            None => if reuse && !container {
                match cached {
                    Some(m) => m.items,
                    None => 0,
                }
            } else {
                0
            },
        },
    };
    SourceMetadata {
        uploader,
        items,
        source_provider,
        list_kind: probe.list_kind,
        list_count,
        list_order,
        list_tab,
        list_tabs,
    }
}

/// Refreshing again with an unchanged probe and tab selection persists the
/// same metadata as the refresh before.
pub proof fn lemma_metadata_idempotent(
    m1: SourceMetadata,
    m2: SourceMetadata,
    probe: ProbeResult,
    cached: Option<SourceMetadata>,
    url: Seq<char>,
    has_tabs: bool,
    list_tab: Option<String>,
    list_tabs: Vec<ListTab>,
)
    requires
        derived_metadata(m1, probe, cached, url, has_tabs, list_tab, list_tabs),
        derived_metadata(m2, probe, Some(m1), url, has_tabs, m1.list_tab, m1.list_tabs),
    ensures
        m2.list_kind == m1.list_kind,
        m2.list_count == m1.list_count,
        m2.list_order == m1.list_order,
        m2.uploader@ == m1.uploader@,
        m2.source_provider@ == m1.source_provider@,
        m2.items == m1.items,
        m2.list_tab == m1.list_tab,
        m2.list_tabs == m1.list_tabs,
{
}

/// Lists of at most this many items are always scanned in full.
pub const SMALL_LIST_MAX_ITEMS: u64 = 25;

/// Whether the scan may stop at the first item older than the window:
/// always for a single video, never for a small list.
pub open spec fn early_stop_for(m: SourceMetadata) -> bool {
    match m.list_kind {
        ListKind::List => match m.list_count {
            Some(c) => c > SMALL_LIST_MAX_ITEMS,
            None => true,
        },
        _ => true,
    }
}

pub fn early_stop_enabled(meta: &SourceMetadata) -> (r: bool)
    ensures
        r == early_stop_for(*meta),
{
    match meta.list_kind {
        ListKind::List => match meta.list_count {
            Some(c) => c > SMALL_LIST_MAX_ITEMS,
            None => true,
        },
        _ => true,
    }
}

/// A list known to run oldest first is listed reversed, so that the newest
/// items come first.
pub fn stream_reversed(meta: &SourceMetadata) -> (r: bool)
    ensures
        r == (meta.list_kind == ListKind::List && meta.list_order == ListOrder::OldestFirst),
{
    match (meta.list_kind, meta.list_order) {
        (ListKind::List, ListOrder::OldestFirst) => true,
        _ => false,
    }
}

/// What the refresh does with one listed item.
#[derive(Debug, Clone, Copy, PartialEq, Eq, Structural)]
pub enum RecordAction {
    /// Reconcile the item with the catalog.
    Process,
    /// Leave the item alone: it is older than the window.
    Skip,
    /// End the scan.
    Stop,
}

/// An item inside the window is processed. An older one ends the scan when
/// early stop is enabled and either the order is known or a newer item was
/// already seen; otherwise it is skipped.
pub open spec fn record_action_of(
    timestamp: i64,
    fetch_before: i64,
    early_stop: bool,
    order_known: bool,
    saw_newer: bool,
) -> RecordAction {
    if timestamp >= fetch_before {
        RecordAction::Process
    } else if early_stop && (order_known || saw_newer) {
        RecordAction::Stop
    } else {
        RecordAction::Skip
    }
}

/// Decides the fate of one listed item and notes whether it lies inside
/// the window.
pub fn record_action(
    timestamp: i64,
    fetch_before: i64,
    early_stop: bool,
    order_known: bool,
    saw_newer: &mut bool,
) -> (r: RecordAction)
    ensures
        r == record_action_of(timestamp, fetch_before, early_stop, order_known, *old(saw_newer)),
        *final(saw_newer) == (*old(saw_newer) || timestamp >= fetch_before),
{
    if timestamp >= fetch_before {
        *saw_newer = true;
        RecordAction::Process
    } else if early_stop && (order_known || *saw_newer) {
        RecordAction::Stop
    } else {
        RecordAction::Skip
    }
}

/// What to do with a catalogued media seen again: `(clear_path, download)`.
/// A media without a file is downloaded; one whose file vanished loses its
/// path and is downloaded again.
pub fn reconcile_existing(has_path: bool, file_exists: bool) -> (r: (bool, bool))
    ensures
        r == (if !has_path {
            (false, true)
        } else if file_exists {
            (false, false)
        } else {
            (true, true)
        }),
{
    if !has_path {
        (false, true)
    } else if file_exists {
        (false, false)
    } else {
        (true, true)
    }
}

/// A downloaded media older than the window is evicted.
pub fn should_evict(timestamp: i64, fetch_before: i64, has_path: bool) -> (r: bool)
    ensures
        r == (timestamp < fetch_before && has_path),
{
    timestamp < fetch_before && has_path
}

pub const SECONDS_PER_DAY: i64 = 86_400;

/// Start of the recency window: `fetch_last_days` days before `now`.
pub fn fetch_before_timestamp(now: i64, fetch_last_days: i32) -> (r: i64)
    requires
        i64::MIN <= now - fetch_last_days * 86_400 <= i64::MAX,
    ensures
        r == now - fetch_last_days * 86_400,
{
    now - (fetch_last_days as i64) * SECONDS_PER_DAY
}

pub open spec fn processing_text(n: u64, title: Seq<char>) -> Seq<char> {
    "Processing video "@ + decimal(n as nat) + " ("@ + title + ")"@
}

/// Progress line of a refresh while it handles its `n`-th item.
pub fn processing_status(n: u64, title: &str) -> (r: String)
    ensures
        r@ == processing_text(n, title@),
{
    let mut s = String::from_str("Processing video ");
    push_decimal(&mut s, n);
    s.append(" (");
    s.append(title);
    s.append(")");
    s
}

/// Title of the refresh task of a source: its uploader when known, else
/// its URL.
pub fn refresh_task_title(source_url: &str, cached: Option<&SourceMetadata>) -> (r: String)
    ensures
        r@ == "Refreshing "@ + match cached {
            Some(m) => m.uploader@,
            None => source_url@,
        },
{
    let mut s = String::from_str("Refreshing ");
    match cached {
        Some(m) => s.append(m.uploader.as_str()),
        None => s.append(source_url),
    }
    s
}

} // verus!
