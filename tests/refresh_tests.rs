use localtube::models::medias::{remuxed_path, sidecar_path, Media, MediaMetadata};
use localtube::models::sources::{
    ListKind, ListOrder, ListTab, Source, SourceMetadata, SponsorBlockCategories,
};
use localtube::tasks::refresh_indexes::{
    is_time_passed, refresh_jitter, should_schedule_refresh, sources_to_schedule,
};
use localtube::workers::fetch_media::{download_job, retry_still_needed, task_failure_message};
use localtube::workers::fetch_source_info::{
    choose_probe_mode, derive_source_metadata, early_stop_enabled, fetch_before_timestamp,
    normalize_url, processing_status, reconcile_existing, record_action, refresh_task_title,
    resolve_effective_url, same_url, should_evict, stream_reversed, url_family, ProbeMode,
    ProbeResult, RecordAction,
};

const DAY: i64 = 86_400;

fn tab(url: &str) -> ListTab {
    ListTab { url: url.to_string(), label: "t".to_string() }
}

fn meta(kind: ListKind, count: Option<u64>, order: ListOrder) -> SourceMetadata {
    SourceMetadata {
        uploader: "Chan".to_string(),
        items: count.unwrap_or(0),
        source_provider: "Youtube".to_string(),
        list_kind: kind,
        list_count: count,
        list_order: order,
        list_tab: None,
        list_tabs: Vec::new(),
    }
}

fn source(metadata: Option<SourceMetadata>, last: Option<i64>, scheduled: Option<i64>) -> Source {
    Source {
        id: 7,
        url: "https://yt/@chan".to_string(),
        fetch_last_days: 7,
        refresh_frequency: 1,
        sponsorblock: String::new(),
        metadata,
        last_refreshed_at: last,
        last_scheduled_refresh: scheduled,
    }
}

fn chars(s: &str) -> Vec<char> {
    s.chars().collect()
}

#[test]
fn urls_are_compared_without_query_fragment_and_trailing_slash() {
    assert_eq!(normalize_url("https://yt/@chan/videos/?x=1#top"), chars("https://yt/@chan/videos"));
    assert_eq!(normalize_url("https://yt/@chan//"), chars("https://yt/@chan"));
    assert!(same_url("https://yt/@chan/", "https://yt/@chan?si=abc"));
    assert!(!same_url("https://yt/@chan", "https://yt/@other"));
    assert_eq!(url_family("https://yt/@chan/shorts/"), chars("https://yt/@chan"));
    assert_eq!(url_family("https://yt/@chan/playlists"), chars("https://yt/@chan"));
    assert_eq!(url_family("https://yt/@chan"), chars("https://yt/@chan"));
}

#[test]
fn source_url_that_is_a_tab_is_used_verbatim() {
    let tabs = vec![tab("https://yt/@chan/videos"), tab("https://yt/@chan/shorts")];
    let s = resolve_effective_url("https://yt/@chan/videos?x=1", &tabs, Some("https://yt/@chan/shorts"));
    assert_eq!(s.effective_url, "https://yt/@chan/videos?x=1");
    assert_eq!(s.list_tab.as_deref(), Some("https://yt/@chan/videos?x=1"));
}

#[test]
fn stored_tab_is_kept_while_still_offered() {
    let tabs = vec![tab("https://yt/@chan/videos"), tab("https://yt/@chan/streams")];
    let s = resolve_effective_url("https://yt/@chan", &tabs, Some("https://yt/@chan/streams/"));
    assert_eq!(s.effective_url, "https://yt/@chan/streams/");
    assert_eq!(s.list_tab.as_deref(), Some("https://yt/@chan/streams/"));
    let again = resolve_effective_url("https://yt/@chan", &tabs, s.list_tab.as_deref());
    assert_eq!(again.list_tab, s.list_tab);
}

#[test]
fn stale_or_missing_tab_falls_back_to_source_url() {
    let tabs = vec![tab("https://yt/@chan/videos")];
    let gone = resolve_effective_url("https://yt/@chan", &tabs, Some("https://yt/@chan/shorts"));
    assert_eq!(gone.effective_url, "https://yt/@chan");
    assert_eq!(gone.list_tab, None);
    let other_family = vec![tab("https://yt/@other/videos")];
    let stale = resolve_effective_url("https://yt/@chan", &other_family, Some("https://yt/@other/videos"));
    assert_eq!(stale.effective_url, "https://yt/@chan");
    assert_eq!(stale.list_tab, None);
    let none = resolve_effective_url("https://yt/@chan", &Vec::new(), None);
    assert_eq!(none.effective_url, "https://yt/@chan");
    assert_eq!(none.list_tab, None);
}

#[test]
fn probe_mode_depends_on_what_is_known() {
    assert_eq!(choose_probe_mode(None), ProbeMode::OrderAware);
    assert_eq!(choose_probe_mode(Some(&meta(ListKind::Video, None, ListOrder::Unknown))), ProbeMode::Minimal);
    assert_eq!(choose_probe_mode(Some(&meta(ListKind::List, Some(3), ListOrder::NewestFirst))), ProbeMode::Minimal);
    assert_eq!(choose_probe_mode(Some(&meta(ListKind::List, Some(3), ListOrder::Unknown))), ProbeMode::OrderAware);
}

fn probe(kind: ListKind, count: Option<u64>, order: ListOrder) -> ProbeResult {
    ProbeResult { list_kind: kind, list_count: count, list_order: order, uploader: None, source_provider: None }
}

#[test]
fn derived_metadata_reuses_cached_values_on_the_same_tab() {
    let mut cached = meta(ListKind::List, Some(40), ListOrder::OldestFirst);
    cached.items = 40;
    let m = derive_source_metadata(
        &probe(ListKind::List, None, ListOrder::Unknown),
        Some(&cached),
        "https://yt/@chan",
        false,
        None,
        Vec::new(),
    );
    assert_eq!(m.list_count, Some(40));
    assert_eq!(m.list_order, ListOrder::OldestFirst);
    assert_eq!(m.items, 40);
    assert_eq!(m.uploader, "Chan");
    assert_eq!(m.source_provider, "Youtube");
}

#[test]
fn derived_metadata_resets_on_tab_change_and_container() {
    let cached = meta(ListKind::List, Some(40), ListOrder::OldestFirst);
    let changed = derive_source_metadata(
        &probe(ListKind::List, None, ListOrder::Unknown),
        Some(&cached),
        "https://yt/@chan",
        true,
        Some("https://yt/@chan/shorts".to_string()),
        vec![tab("https://yt/@chan/shorts")],
    );
    assert_eq!(changed.list_count, None);
    assert_eq!(changed.list_order, ListOrder::Unknown);
    assert_eq!(changed.items, 0);
    assert_eq!(changed.list_tabs.len(), 1);
    let container = derive_source_metadata(
        &probe(ListKind::List, Some(12), ListOrder::NewestFirst),
        None,
        "https://yt/@chan",
        true,
        None,
        Vec::new(),
    );
    assert_eq!(container.list_count, None);
    assert_eq!(container.items, 0);
    assert_eq!(container.uploader, "https://yt/@chan");
    let video = derive_source_metadata(
        &probe(ListKind::Video, None, ListOrder::Unknown),
        None,
        "",
        false,
        None,
        Vec::new(),
    );
    assert_eq!(video.items, 1);
    assert_eq!(video.uploader, "unknown");
}

#[test]
fn early_stop_and_order_policies() {
    assert!(early_stop_enabled(&meta(ListKind::Video, None, ListOrder::Unknown)));
    assert!(!early_stop_enabled(&meta(ListKind::List, Some(25), ListOrder::NewestFirst)));
    assert!(early_stop_enabled(&meta(ListKind::List, Some(26), ListOrder::NewestFirst)));
    assert!(early_stop_enabled(&meta(ListKind::List, None, ListOrder::NewestFirst)));
    assert!(stream_reversed(&meta(ListKind::List, Some(3), ListOrder::OldestFirst)));
    assert!(!stream_reversed(&meta(ListKind::List, Some(3), ListOrder::NewestFirst)));
    assert!(!stream_reversed(&meta(ListKind::Video, None, ListOrder::OldestFirst)));
}

fn scan(timestamps: &[i64], fetch_before: i64, m: &SourceMetadata) -> (Vec<i64>, bool) {
    let early = early_stop_enabled(m);
    let known = m.list_order != ListOrder::Unknown;
    let mut saw_newer = false;
    let mut processed = Vec::new();
    for ts in timestamps {
        match record_action(*ts, fetch_before, early, known, &mut saw_newer) {
            RecordAction::Process => processed.push(*ts),
            RecordAction::Skip => {}
            RecordAction::Stop => return (processed, true),
        }
    }
    (processed, false)
}

#[test]
fn small_newest_first_list_is_scanned_whole() {
    let now = 1_700_000_000;
    let m = meta(ListKind::List, Some(10), ListOrder::NewestFirst);
    let fetch_before = fetch_before_timestamp(now, 7);
    let items: Vec<i64> = (0..12).map(|k| now - k * DAY).collect();
    let (processed, stopped) = scan(&items, fetch_before, &m);
    assert!(!stopped);
    assert_eq!(processed.len(), 8);
    assert!(processed.iter().all(|ts| *ts >= fetch_before));
}

#[test]
fn large_reversed_list_stops_at_first_old_item() {
    let now = 1_700_000_000;
    let m = meta(ListKind::List, Some(10_000), ListOrder::OldestFirst);
    assert!(stream_reversed(&m));
    let fetch_before = fetch_before_timestamp(now, 7);
    let (processed, stopped) = scan(&[now, now - DAY, now - 20 * DAY, now - DAY], fetch_before, &m);
    assert!(stopped);
    assert_eq!(processed, vec![now, now - DAY]);
}

#[test]
fn unknown_order_does_not_stop_before_a_newer_item() {
    let mut saw = false;
    assert_eq!(record_action(5, 10, true, false, &mut saw), RecordAction::Skip);
    assert!(!saw);
    assert_eq!(record_action(12, 10, true, false, &mut saw), RecordAction::Process);
    assert!(saw);
    assert_eq!(record_action(5, 10, true, false, &mut saw), RecordAction::Stop);
}

#[test]
fn reconcile_and_evict() {
    assert_eq!(reconcile_existing(false, false), (false, true));
    assert_eq!(reconcile_existing(true, true), (false, false));
    assert_eq!(reconcile_existing(true, false), (true, true));
    assert!(should_evict(5, 10, true));
    assert!(!should_evict(5, 10, false));
    assert!(!should_evict(10, 10, true));
}

#[test]
fn refresh_texts() {
    assert_eq!(processing_status(3, "Video"), "Processing video 3 (Video)");
    assert_eq!(processing_status(120, ""), "Processing video 120 ()");
    assert_eq!(refresh_task_title("https://u", None), "Refreshing https://u");
    let m = meta(ListKind::List, None, ListOrder::Unknown);
    assert_eq!(refresh_task_title("https://u", Some(&m)), "Refreshing Chan");
    assert_eq!(fetch_before_timestamp(1_000_000, 2), 1_000_000 - 2 * DAY);
}

#[test]
fn jitter_spreads_within_fifteen_minutes() {
    assert_eq!(refresh_jitter(None), 0);
    assert_eq!(refresh_jitter(Some(0)), -900);
    assert_eq!(refresh_jitter(Some(1799)), 899);
    assert_eq!(refresh_jitter(Some(1800 * 5 + 1000)), 100);
    assert_eq!(refresh_jitter(Some(-1)), 899);
}

#[test]
fn scheduling_follows_both_clocks() {
    let now = 1_000_000;
    assert!(is_time_passed(None, now, 1, 0));
    assert!(is_time_passed(Some(now - 3601), now, 1, 0));
    assert!(!is_time_passed(Some(now - 3600), now, 1, 0));
    let last = now - 10_000;
    let due = source(Some(meta(ListKind::Video, None, ListOrder::Unknown)), Some(last), None);
    assert!(should_schedule_refresh(&due, now, false));
    let just_scheduled = source(Some(meta(ListKind::Video, None, ListOrder::Unknown)), Some(last), Some(now));
    assert!(!should_schedule_refresh(&just_scheduled, now, false));
    assert!(should_schedule_refresh(&just_scheduled, now, true));
    let fresh = source(Some(meta(ListKind::Video, None, ListOrder::Unknown)), Some(now - 10), None);
    assert!(!should_schedule_refresh(&fresh, now, false));
    let no_meta = source(None, Some(now - 10), None);
    assert!(should_schedule_refresh(&no_meta, now, false));
    let ids = sources_to_schedule(&vec![fresh, no_meta, just_scheduled], now, false);
    assert_eq!(ids, vec![7]);
}

#[test]
fn sponsorblock_round_trip() {
    let c = SponsorBlockCategories::deserialize("sponsor,selfpromo,bogus,,music_offtopic");
    assert!(c.sponsor && c.selfpromo && c.music_offtopic);
    assert!(!c.intro && !c.outro && !c.preview && !c.filler && !c.interaction);
    assert_eq!(c.serialize(), "sponsor,selfpromo,music_offtopic");
    assert_eq!(SponsorBlockCategories::deserialize(&c.serialize()), c);
    assert_eq!(SponsorBlockCategories::none().serialize(), "");
    assert_eq!(SponsorBlockCategories::deserialize(""), SponsorBlockCategories::none());
    assert_eq!(SponsorBlockCategories::deserialize("Sponsor"), SponsorBlockCategories::none());
}

fn media(path: Option<&str>, with_meta: bool) -> Media {
    Media {
        id: 3,
        url: "https://yt/watch?v=1".to_string(),
        source_id: 7,
        metadata: if with_meta {
            Some(MediaMetadata {
                title: "Clip".to_string(),
                description: None,
                duration: 10,
                extractor_key: "Youtube".to_string(),
                original_url: "https://yt/watch?v=1".to_string(),
                timestamp: 0,
            })
        } else {
            None
        },
        media_path: path.map(|p| p.to_string()),
    }
}

#[test]
fn download_preconditions() {
    let s = source(Some(meta(ListKind::Video, None, ListOrder::Unknown)), None, None);
    let job = download_job(Some(&media(None, true)), Some(&s)).unwrap();
    assert_eq!(job.media_id, 3);
    assert_eq!(job.title, "Clip");
    assert_eq!(job.original_url, "https://yt/watch?v=1");
    assert!(download_job(None, Some(&s)).is_none());
    assert!(download_job(Some(&media(Some("a.mkv"), true)), Some(&s)).is_none());
    assert!(download_job(Some(&media(None, false)), Some(&s)).is_none());
    assert!(download_job(Some(&media(None, true)), None).is_none());
    let bare = source(None, None, None);
    assert!(download_job(Some(&media(None, true)), Some(&bare)).is_none());
    assert!(retry_still_needed(Some(&media(None, true))));
    assert!(!retry_still_needed(Some(&media(Some("a.mkv"), true))));
    assert!(!retry_still_needed(None));
}

#[test]
fn failure_messages_keep_the_first_line() {
    assert_eq!(task_failure_message("Download failed: boom\nstack"), "Download failed: boom");
    assert_eq!(task_failure_message("one line"), "one line");
    assert_eq!(task_failure_message("\nsecond"), "Unknown error");
    assert_eq!(task_failure_message(""), "Unknown error");
}

#[test]
fn sidecar_replaces_the_extension() {
    assert_eq!(sidecar_path("chan/video.mkv"), "chan/video.info.json");
    assert_eq!(sidecar_path("chan/a.b.webm"), "chan/a.b.info.json");
    assert_eq!(sidecar_path("chan/noext"), "chan/noext.info.json");
    assert_eq!(sidecar_path("chan.d/.hidden"), "chan.d/.hidden.info.json");
}

#[test]
fn sponsorblock_list_of_a_source() {
    let mut s = source(None, None, None);
    s.sponsorblock = "sponsor,,intro,bogus,".to_string();
    assert_eq!(s.get_sponsorblock_list(), vec!["sponsor", "intro", "bogus"]);
    let c = s.get_sponsorblock_categories();
    assert!(c.sponsor && c.intro && !c.outro);
    s.sponsorblock = String::new();
    assert!(s.get_sponsorblock_list().is_empty());
    assert_eq!(s.get_sponsorblock_categories().serialize(), "");
}

#[test]
fn remux_target_replaces_the_extension() {
    assert_eq!(remuxed_path("media/chan/Title-abc.webm"), "media/chan/Title-abc.mkv");
    assert_eq!(remuxed_path("media/chan/Title"), "media/chan/Title.mkv");
}
