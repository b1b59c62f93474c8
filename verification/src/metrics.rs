//! The data carried by a metrics snapshot: CPU load, memory usage, and the
//! time the snapshot was taken.
//!
//! Percentages are held as integers in hundredths of a percent, so the whole
//! snapshot is made of plain values that contracts can speak about exactly.

use vstd::prelude::*;

verus! {

/// A percentage in hundredths of a percent: 47.25% is stored as 4725.
pub type Percent = u32;

/// A byte count.
pub type Bytes = u64;

/// A point in time (milliseconds since the Unix epoch) or a span of time
/// (milliseconds).
pub type Millis = u64;

/// CPU load: the machine-wide average and, when available, one figure per
/// logical core.
pub struct CpuLoadMetric {
    pub average: Percent,
    pub per_core: Option<Vec<Percent>>,
}

/// The mathematical value of a [`CpuLoadMetric`].
pub ghost struct CpuLoadMetricView {
    pub average: Percent,
    pub per_core: Option<Seq<Percent>>,
}

impl View for CpuLoadMetric {
    type V = CpuLoadMetricView;

    open spec fn view(&self) -> CpuLoadMetricView {
        CpuLoadMetricView {
            average: self.average,
            per_core: match self.per_core {
                Some(v) => Some(v@),
                None => None,
            },
        }
    }
}

impl Clone for CpuLoadMetric {
    fn clone(&self) -> (res: Self)
        ensures
            res@ == self@,
    {
        CpuLoadMetric {
            average: self.average,
            per_core: match &self.per_core {
                Some(v) => Some(v.clone()),
                None => None,
            },
        }
    }
}

/// CPU metrics as served and delivered: load figures, absent when the
/// sampler offers none.
pub struct CpuMetrics {
    pub load: Option<CpuLoadMetric>,
}

/// The mathematical value of a [`CpuMetrics`].
pub ghost struct CpuMetricsView {
    pub load: Option<CpuLoadMetricView>,
}

impl View for CpuMetrics {
    type V = CpuMetricsView;

    open spec fn view(&self) -> CpuMetricsView {
        CpuMetricsView {
            load: match self.load {
                Some(l) => Some(l@),
                None => None,
            },
        }
    }
}

impl Clone for CpuMetrics {
    fn clone(&self) -> (res: Self)
        ensures
            res@ == self@,
    {
        CpuMetrics {
            load: match &self.load {
                Some(l) => Some(l.clone()),
                None => None,
            },
        }
    }
}

/// A detailed breakdown of memory, in bytes.
#[derive(Clone, Copy, PartialEq, Eq, Structural)]
pub struct MemoryDetailedMetrics {
    pub total: Bytes,
    pub available: Bytes,
    pub used: Bytes,
    pub free: Bytes,
}

/// Memory metrics: the used fraction and, when available, the detailed
/// breakdown.
#[derive(Clone, Copy, PartialEq, Eq, Structural)]
pub struct MemoryMetrics {
    pub perc_used: Percent,
    pub detailed: Option<MemoryDetailedMetrics>,
}

/// One full set of metrics: CPU and memory together.
pub struct Metrics {
    pub cpu: CpuMetrics,
    pub memory: MemoryMetrics,
}

/// The mathematical value of a [`Metrics`].
pub ghost struct MetricsView {
    pub cpu: CpuMetricsView,
    pub memory: MemoryMetrics,
}

impl View for Metrics {
    type V = MetricsView;

    open spec fn view(&self) -> MetricsView {
        MetricsView { cpu: self.cpu@, memory: self.memory }
    }
}

impl Clone for Metrics {
    fn clone(&self) -> (res: Self)
        ensures
            res@ == self@,
    {
        Metrics { cpu: self.cpu.clone(), memory: self.memory }
    }
}

/// A set of metrics stamped with the time it was captured. Immutable once
/// created; the cache serves copies of it.
pub struct CapturedMetrics {
    pub captured_at: Millis,
    pub metrics: Metrics,
}

/// The mathematical value of a [`CapturedMetrics`].
pub ghost struct CapturedMetricsView {
    pub captured_at: Millis,
    pub metrics: MetricsView,
}

impl View for CapturedMetrics {
    type V = CapturedMetricsView;

    open spec fn view(&self) -> CapturedMetricsView {
        CapturedMetricsView { captured_at: self.captured_at, metrics: self.metrics@ }
    }
}

impl Clone for CapturedMetrics {
    fn clone(&self) -> (res: Self)
        ensures
            res@ == self@,
    {
        CapturedMetrics { captured_at: self.captured_at, metrics: self.metrics.clone() }
    }
}

/// A span of whole seconds as milliseconds, stopping at the largest
/// representable span rather than wrapping. Configured durations are in
/// seconds; the library keeps time in milliseconds.
pub fn secs_to_millis(secs: u64) -> (r: Millis)
    ensures
        secs * 1000 <= u64::MAX ==> r == secs * 1000,
        secs * 1000 > u64::MAX ==> r == u64::MAX,
{
    if secs > u64::MAX / 1000 {
        u64::MAX
    } else {
        secs * 1000
    }
}

/// A snapshot taken at `now` is stale for a time-to-live of `ttl`
/// milliseconds once `ttl` or more milliseconds have passed. A `ttl` of 0
/// makes every snapshot stale at once.
pub open spec fn is_stale(captured_at: Millis, now: Millis, ttl: Millis) -> bool {
    now - captured_at >= ttl
}

impl CapturedMetrics {
    /// Stamp a set of metrics with the capture time `now`.
    pub fn new_from_now(metrics: Metrics, now: Millis) -> (r: CapturedMetrics)
        ensures
            r.captured_at == now,
            r.metrics@ == metrics@,
    {
        CapturedMetrics { captured_at: now, metrics }
    }

    /// Whether this snapshot, seen at time `now`, has outlived `duration`
    /// milliseconds.
    pub fn is_old(&self, now: Millis, duration: Millis) -> (r: bool)
        ensures
            r == is_stale(self.captured_at, now, duration),
    {
        if now < self.captured_at {
            false
        } else {
            now - self.captured_at >= duration
        }
    }
}

} // verus!
