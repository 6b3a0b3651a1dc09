//! The caching policy of the host resource gauges.
//!
//! Probing the host is expensive, so what a probe reported is kept for
//! thirty seconds and handed to every reader in that time.

use crate::fraction::clamp_ppm;
use vstd::prelude::*;

verus! {

/// How long a reading of the gauges is kept: thirty seconds.
pub const CACHE_NANOS: u64 = 30_000_000_000;

/// What one probe of the host reported, each gauge in parts per million as
/// the probe gave it. A gauge that the probe could not read is absent.
#[derive(Clone, Copy, Debug, PartialEq, Eq)]
pub struct ProbeReading {
    /// The share of processor time in use.
    pub cpu: Option<i64>,
    /// The share of processor time taken by the hypervisor.
    pub cpu_steal: Option<i64>,
    /// The share of memory in use.
    pub ram: Option<i64>,
    /// The share of swap space in use.
    pub swap: Option<i64>,
}

impl ProbeReading {
    /// A reading in which every gauge is absent.
    pub fn absent() -> (reading: ProbeReading)
        ensures
            reading == (ProbeReading { cpu: None, cpu_steal: None, ram: None, swap: None }),
    {
        ProbeReading { cpu: None, cpu_steal: None, ram: None, swap: None }
    }

    /// The reading that stands in for a probe on a host that has none: a
    /// processor at fifteen percent, memory at thirty percent, nothing stolen
    /// and nothing swapped.
    pub fn placeholder() -> (reading: ProbeReading)
        ensures
            reading == (ProbeReading {
                cpu: Some(150_000i64),
                cpu_steal: Some(0i64),
                ram: Some(300_000i64),
                swap: Some(0i64),
            }),
    {
        ProbeReading { cpu: Some(150_000), cpu_steal: Some(0), ram: Some(300_000), swap: Some(0) }
    }
}

/// The counters that the transport layer keeps and the monitor hands on.
#[derive(Clone, Copy, Debug, PartialEq, Eq)]
pub struct TransportCounters {
    /// Bytes received per second.
    pub bandwidth_rx: u64,
    /// Bytes transmitted per second.
    pub bandwidth_tx: u64,
    /// Open connections and sockets.
    pub connections: usize,
}

impl TransportCounters {
    /// The counters that stand in for a transport layer that keeps none: a
    /// hundred megabytes received and fifty transmitted per second, over a
    /// hundred connections.
    pub fn placeholder() -> (counters: TransportCounters)
        ensures
            counters == (TransportCounters {
                bandwidth_rx: 100_000_000u64,
                bandwidth_tx: 50_000_000u64,
                connections: 100usize,
            }),
    {
        TransportCounters { bandwidth_rx: 100_000_000, bandwidth_tx: 50_000_000, connections: 100 }
    }
}

/// The value a gauge has after a refresh: what the probe reported, brought
/// into range, or what was cached where the probe reported nothing.
pub open spec fn gauge_after(cached: nat, probed: Option<i64>) -> nat {
    match probed {
        Some(raw) => clamp_ppm(raw as int),
        None => cached,
    }
}

/// The cached gauges, each in parts per million.
pub struct GaugeState {
    /// When the gauges were last refreshed, if they ever were.
    pub last_refresh: Option<nat>,
    /// The share of processor time in use.
    pub cpu: nat,
    /// The share of processor time taken by the hypervisor.
    pub cpu_steal: nat,
    /// The share of memory in use.
    pub ram: nat,
    /// The share of swap space in use.
    pub swap: nat,
}

impl GaugeState {
    /// The gauges before any refresh: all at zero, and stale at every time.
    pub open spec fn initial() -> GaugeState {
        GaugeState { last_refresh: None, cpu: 0, cpu_steal: 0, ram: 0, swap: 0 }
    }

    /// What every state of a monitor satisfies: each gauge is a fraction.
    pub open spec fn valid(self) -> bool {
        &&& self.cpu <= 1_000_000
        &&& self.cpu_steal <= 1_000_000
        &&& self.ram <= 1_000_000
        &&& self.swap <= 1_000_000
        &&& match self.last_refresh {
            Some(last) => last <= u64::MAX,
            None => true,
        }
    }

    /// Whether a reader at `now` has to refresh first: the gauges were never
    /// refreshed, or more than thirty seconds ago.
    pub open spec fn is_stale(self, now: nat) -> bool {
        match self.last_refresh {
            Some(last) => now - last > CACHE_NANOS,
            None => true,
        }
    }

    /// The gauges after a reader came at `now` with `reading` at hand: fresh
    /// gauges stay as they are, stale ones take the reading and the time.
    pub open spec fn refreshed(self, now: nat, reading: ProbeReading) -> GaugeState {
        if self.is_stale(now) {
            GaugeState {
                last_refresh: Some(now),
                cpu: gauge_after(self.cpu, reading.cpu),
                cpu_steal: gauge_after(self.cpu_steal, reading.cpu_steal),
                ram: gauge_after(self.ram, reading.ram),
                swap: gauge_after(self.swap, reading.swap),
            }
        } else {
            self
        }
    }
}

/// Two reads within one cache window see the same gauges, whatever the probe
/// reports at the second: where the gauges that a read at `first` left are
/// not stale at `second`, a read at `second` changes nothing.
pub proof fn lemma_reads_within_cache_window_agree(
    gauges: GaugeState,
    first: nat,
    at_first: ProbeReading,
    second: nat,
    at_second: ProbeReading,
)
    requires
        !gauges.refreshed(first, at_first).is_stale(second),
    ensures
        gauges.refreshed(first, at_first).refreshed(second, at_second) == gauges.refreshed(
            first,
            at_first,
        ),
{
}

/// The gauges are refreshed at most once in thirty seconds: after a read at
/// `now` that refreshed them, no read up to thirty seconds later does.
pub proof fn lemma_one_refresh_per_cache_window(
    gauges: GaugeState,
    now: nat,
    reading: ProbeReading,
    later: nat,
    at_later: ProbeReading,
)
    requires
        gauges.is_stale(now),
        later <= now + CACHE_NANOS,
    ensures
        gauges.refreshed(now, reading).last_refresh == Some(now),
        gauges.refreshed(now, reading).refreshed(later, at_later) == gauges.refreshed(
            now,
            reading,
        ),
{
}

/// A refresh keeps every gauge a fraction.
pub proof fn lemma_refresh_keeps_valid(gauges: GaugeState, now: nat, reading: ProbeReading)
    requires
        gauges.valid(),
        now <= u64::MAX,
    ensures
        gauges.refreshed(now, reading).valid(),
{
}

} // verus!
