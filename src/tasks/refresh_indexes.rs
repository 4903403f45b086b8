use vstd::prelude::*;

use crate::models::sources::Source;

verus! {

/// Seconds between two sweeps of the refresh scheduler.
pub const SWEEP_INTERVAL_SECS: u64 = 300;

/// Deterministic spread of a source's refreshes: the last refresh instant
/// modulo 1800, minus 900, so within -900..=899 seconds; none before the
/// first refresh.
pub open spec fn jitter_of(last_refreshed_at: Option<i64>) -> int {
    match last_refreshed_at {
        Some(t) => (t as int) % 1800 - 900,
        None => 0,
    }
}

/// More than the refresh period plus the jitter has passed since `ts`, or
/// there is no `ts`.
pub open spec fn time_passed(ts: Option<i64>, now: i64, refresh_frequency: i32, jitter: int) -> bool {
    match ts {
        None => true,
        Some(t) => now - t > refresh_frequency * 3600 + jitter,
    }
}

/// A source is handed to the refresh worker when forced, or when it has no
/// metadata or is due for a refresh, and no refresh was scheduled within
/// the same period.
pub open spec fn refresh_due(s: Source, now: i64, force: bool) -> bool {
    let j = jitter_of(s.last_refreshed_at);
    let need_refresh = time_passed(s.last_refreshed_at, now, s.refresh_frequency, j);
    let need_schedule = time_passed(s.last_scheduled_refresh, now, s.refresh_frequency, j);
    force || ((s.metadata is None || need_refresh) && need_schedule)
}

pub fn refresh_jitter(last_refreshed_at: Option<i64>) -> (r: i64)
    ensures
        r == jitter_of(last_refreshed_at),
        -900 <= r < 900,
{
    match last_refreshed_at {
        Some(t) => {
            let m: i64 = if t >= 0 {
                ((t as u64) % 1800) as i64
            } else {
                let k = (-(t + 1)) as u64;
                let m = 1799 - ((k % 1800) as i64);
                assert(m == (t as int) % 1800) by (nonlinear_arith)
                    requires
                        k == -(t + 1),
                        m == 1799 - (k % 1800),
                        t < 0,
                ;
                m
            };
            m - 900
        },
        None => 0,
    }
}

pub fn is_time_passed(ts: Option<i64>, now: i64, refresh_frequency: i32, jitter: i64) -> (r: bool)
    ensures
        r == time_passed(ts, now, refresh_frequency, jitter as int),
{
    match ts {
        None => true,
        Some(t) => (now as i128) - (t as i128) > (refresh_frequency as i128) * 3600 + (
        jitter as i128),
    }
}

/// Whether the sweep at `now` hands the source to the refresh worker.
pub fn should_schedule_refresh(source: &Source, now: i64, force: bool) -> (r: bool)
    ensures
        r == refresh_due(*source, now, force),
{
    let jitter = refresh_jitter(source.last_refreshed_at);
    let need_refresh = is_time_passed(
        source.last_refreshed_at,
        now,
        source.refresh_frequency,
        jitter,
    );
    let need_schedule = is_time_passed(
        source.last_scheduled_refresh,
        now,
        source.refresh_frequency,
        jitter,
    );
    force || ((source.metadata.is_none() || need_refresh) && need_schedule)
}

/// Once a source was scheduled at `now`, a sweep at the same instant does
/// not schedule it again unless forced, provided its period plus jitter is
/// not negative.
pub proof fn lemma_no_duplicate_schedule(s: Source, now: i64)
    requires
        s.last_scheduled_refresh == Some(now),
        s.refresh_frequency * 3600 + jitter_of(s.last_refreshed_at) >= 0,
    ensures
        !refresh_due(s, now, false),
{
}

pub open spec fn due_ids(sources: Seq<Source>, now: i64, force: bool) -> Seq<i32> {
    sources.filter(|s: Source| refresh_due(s, now, force)).map_values(|s: Source| s.id)
}

/// Ids of the sources that the sweep at `now` hands to the refresh worker,
/// in catalog order.
pub fn sources_to_schedule(sources: &Vec<Source>, now: i64, force: bool) -> (r: Vec<i32>)
    ensures
        r@ == due_ids(sources@, now, force),
{
    let mut r: Vec<i32> = Vec::new();
    let mut i: usize = 0;
    while i < sources.len()
        invariant
            i <= sources@.len(),
            r@ == due_ids(sources@.take(i as int), now, force),
        decreases sources@.len() - i,
    {
        proof {
            reveal(Seq::filter);
            assert(sources@.take(i + 1).drop_last() =~= sources@.take(i as int));
        }
        if should_schedule_refresh(&sources[i], now, force) {
            r.push(sources[i].id);
        }
        i = i + 1;
        assert(r@ =~= due_ids(sources@.take(i as int), now, force));
    }
    assert(sources@.take(i as int) =~= sources@);
    r
}

} // verus!
