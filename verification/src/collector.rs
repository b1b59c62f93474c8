//! The time-bounded metrics cache.
//!
//! [`CollectorState`] owns the latest captured snapshot and a fixed
//! time-to-live. A read first asks [`CollectorState::metrics_cached`] whether
//! the stored snapshot is still young enough to serve; only when that
//! declines does the caller sample afresh and hand the result to
//! [`CollectorState::metrics_capture`], which stores and returns it. Runs of
//! both calls, made under one exclusive critical section, give every caller
//! either the stored snapshot or the one capture that replaced it, and
//! trigger at most one capture per expiry.

use vstd::prelude::*;

use crate::metrics::{is_stale, CapturedMetrics, CapturedMetricsView, Metrics, MetricsView, Millis};

verus! {

/// Owns the snapshot cache: the time-to-live fixed at construction and the
/// current snapshot, absent until the first capture.
pub struct CollectorState {
    pub cache_for: Millis,
    pub metrics: Option<CapturedMetrics>,
}

/// The mathematical value of a [`CollectorState`].
pub ghost struct CollectorStateView {
    pub cache_for: Millis,
    pub metrics: Option<CapturedMetricsView>,
}

impl View for CollectorState {
    type V = CollectorStateView;

    open spec fn view(&self) -> CollectorStateView {
        CollectorStateView {
            cache_for: self.cache_for,
            metrics: match self.metrics {
                Some(m) => Some(m@),
                None => None,
            },
        }
    }
}

/// What a read of the cache at time `now` serves without sampling: the
/// stored snapshot while it is younger than the time-to-live, nothing
/// otherwise.
pub open spec fn spec_cached(s: CollectorStateView, now: Millis) -> Option<CapturedMetricsView> {
    match s.metrics {
        Some(m) => {
            if !is_stale(m.captured_at, now, s.cache_for) {
                Some(m)
            } else {
                None
            }
        },
        None => None,
    }
}

/// The cache after a capture at time `now` of the metrics `fresh`: the
/// time-to-live is kept and the stored snapshot is replaced.
pub open spec fn spec_capture(s: CollectorStateView, now: Millis, fresh: MetricsView) -> CollectorStateView {
    CollectorStateView {
        cache_for: s.cache_for,
        metrics: Some(CapturedMetricsView { captured_at: now, metrics: fresh }),
    }
}

impl CollectorState {
    /// A cache with nothing captured yet, serving snapshots for `cache_for`
    /// milliseconds each.
    pub fn new(cache_for: Millis) -> (r: CollectorState)
        ensures
            r@.cache_for == cache_for,
            r@.metrics is None,
    {
        CollectorState { cache_for, metrics: None }
    }

    /// The cached snapshot, if it is still young enough to serve at time
    /// `now`; the caller must capture otherwise.
    pub fn metrics_cached(&self, now: Millis) -> (r: Option<CapturedMetrics>)
        ensures
            (r is Some) == (spec_cached(self@, now) is Some),
            r matches Some(m) ==> spec_cached(self@, now) == Some(m@),
    {
        match &self.metrics {
            Some(m) => {
                if !m.is_old(now, self.cache_for) {
                    Some(m.clone())
                } else {
                    None
                }
            },
            None => None,
        }
    }

    /// Store the freshly sampled `fresh` as the snapshot captured at `now`,
    /// and return it. The stamp of the stored snapshot never decreases:
    /// callers present a time no earlier than the previous capture.
    pub fn metrics_capture(&mut self, now: Millis, fresh: Metrics) -> (r: CapturedMetrics)
        requires
            old(self)@.metrics matches Some(m) ==> m.captured_at <= now,
        ensures
            final(self)@ == spec_capture(old(self)@, now, fresh@),
            r@.captured_at == now,
            r@.metrics == fresh@,
    {
        let captured = CapturedMetrics::new_from_now(fresh, now);
        let r = captured.clone();
        self.metrics = Some(captured);
        r
    }

    /// A snapshot of `fresh` stamped at `now`, bypassing the cache: nothing
    /// is stored and nothing stored is consulted.
    pub fn metrics_skip_cache(&self, now: Millis, fresh: Metrics) -> (r: CapturedMetrics)
        ensures
            r@.captured_at == now,
            r@.metrics == fresh@,
    {
        CapturedMetrics::new_from_now(fresh, now)
    }
}

/// Cache freshness, the serving half: while the stored snapshot is younger
/// than the time-to-live, every read serves exactly that snapshot, so two
/// reads within the window return the same capture time.
pub proof fn lemma_fresh_reads_share_snapshot(
    s: CollectorStateView,
    m: CapturedMetricsView,
    now1: Millis,
    now2: Millis,
)
    requires
        s.metrics == Some(m),
        now1 - m.captured_at < s.cache_for,
        now2 - m.captured_at < s.cache_for,
    ensures
        spec_cached(s, now1) == Some(m),
        spec_cached(s, now2) == Some(m),
{
}

/// Cache freshness, the expiring half: once the time-to-live has passed, a
/// read serves nothing, and the capture that follows carries a strictly
/// later stamp whenever the clock has advanced.
pub proof fn lemma_stale_read_forces_capture(
    s: CollectorStateView,
    m: CapturedMetricsView,
    now: Millis,
    fresh: MetricsView,
)
    requires
        s.metrics == Some(m),
        now - m.captured_at >= s.cache_for,
    ensures
        spec_cached(s, now) is None,
        spec_capture(s, now, fresh).metrics matches Some(m2) && m2.captured_at == now,
        now > m.captured_at ==> (spec_capture(s, now, fresh).metrics matches Some(m2)
            && m2.captured_at > m.captured_at),
{
}

/// Cache singularity: one capture serves every reader of the window it
/// opens. Each concurrent reader of an expired or empty cache runs
/// check-then-capture as one critical section, so the first runs the single
/// capture, and all that follow within the time-to-live are served that same
/// snapshot rather than capturing again.
pub proof fn lemma_capture_coalesces(
    s: CollectorStateView,
    now: Millis,
    fresh: MetricsView,
    later: Millis,
)
    requires
        later - now < s.cache_for,
    ensures
        spec_cached(spec_capture(s, now, fresh), later) matches Some(m)
            && m.captured_at == now
            && m.metrics == fresh,
{
}

/// Cache singularity over a whole group of readers: after the one capture
/// at `now`, a read at each of the `times` inside the time-to-live window
/// is served that same snapshot. Readers racing an empty or expired cache
/// each run check-then-capture as one critical section, so the first of
/// them performs the single capture and every read that follows within the
/// window — however many — comes away with that capture's stamp.
pub proof fn lemma_window_reads_agree(
    s: CollectorStateView,
    now: Millis,
    fresh: MetricsView,
    times: Seq<Millis>,
)
    requires
        forall|i: int| 0 <= i < times.len() ==> #[trigger] times[i] - now < s.cache_for,
    ensures
        forall|i: int| 0 <= i < times.len() ==> (#[trigger] spec_cached(
            spec_capture(s, now, fresh),
            times[i],
        ) matches Some(m)
            && m.captured_at == now
            && m.metrics == fresh),
{
    assert forall|i: int| 0 <= i < times.len() implies (#[trigger] spec_cached(
        spec_capture(s, now, fresh),
        times[i],
    ) matches Some(m)
        && m.captured_at == now
        && m.metrics == fresh) by {
        lemma_capture_coalesces(s, now, fresh, times[i]);
    }
}

} // verus!
