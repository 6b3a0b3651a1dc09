//! The health monitor: cached resource gauges and the cadence of ticks.

use crate::cadence::{
    all_at_most, clamp_tick, missed_ratio, tps_window_closes, CadenceState, TickPeriod,
    MAX_TICK_NANOS, MISSED_TICKS_WINDOW_NANOS, NANOS_PER_SEC,
};
use crate::extrema::ContinuousExtremaMetricAccumulator;
use crate::fraction::Fraction;
use crate::gauges::{GaugeState, ProbeReading, TransportCounters, CACHE_NANOS};
use vstd::prelude::*;

verus! {

/// What a monitor holds: the gauges and the cadence, which no operation
/// changes together.
pub struct HealthState {
    /// The cached gauges.
    pub gauges: GaugeState,
    /// The cadence of ticks.
    pub cadence: CadenceState,
}

impl HealthState {
    /// The state of a monitor made at `now`.
    pub open spec fn initial(now: nat) -> HealthState {
        HealthState { gauges: GaugeState::initial(), cadence: CadenceState::initial(now) }
    }

    /// What every state of a monitor satisfies.
    pub open spec fn valid(self) -> bool {
        self.gauges.valid() && self.cadence.valid()
    }
}

/// Keeps track of the health of the server.
///
/// Times are nanoseconds since an epoch of the host's choosing.
pub struct Health {
    /// When the gauges were last refreshed.
    last: Option<u64>,
    /// Cached CPU fraction.
    cpu: Fraction,
    cpu_steal: Fraction,
    /// Cached RAM fraction.
    ram: Fraction,
    swap: Fraction,
    /// Cached missed-tick fraction.
    missed_ticks: Fraction,
    missed_ticks_start: u64,
    /// Ticks completed since `missed_ticks_start`.
    ticks_for_missed_ticks: u64,
    /// Nanoseconds per tick.
    spt: ContinuousExtremaMetricAccumulator,
    /// Ticks per second.
    tps: ContinuousExtremaMetricAccumulator,
    /// Ticks in current TPS measurement period.
    ticks: u64,
    /// Start of TPS measurement.
    tps_start: u64,
}

impl View for Health {
    type V = HealthState;

    closed spec fn view(&self) -> HealthState {
        HealthState {
            gauges: GaugeState {
                last_refresh: match self.last {
                    Some(last) => Some(last as nat),
                    None => None,
                },
                cpu: self.cpu@,
                cpu_steal: self.cpu_steal@,
                ram: self.ram@,
                swap: self.swap@,
            },
            cadence: CadenceState {
                missed_ticks: self.missed_ticks@,
                missed_ticks_window_start: self.missed_ticks_start as nat,
                ticks_in_window: self.ticks_for_missed_ticks as nat,
                tick_durations: self.spt@,
                tps: self.tps@,
                tps_window_start: self.tps_start as nat,
                ticks_in_tps_window: self.ticks as nat,
            },
        }
    }
}

impl Health {
    #[verifier::type_invariant]
    spec fn well_formed(self) -> bool {
        self@.valid()
    }

    /// A monitor made at `now`: nothing counted, nothing accumulated, and
    /// gauges that the first read refreshes.
    pub fn new(now: u64) -> (health: Health)
        ensures
            health@ == HealthState::initial(now as nat),
            health@.valid(),
    {
        let health = Health {
            last: None,
            cpu: Fraction::zero(),
            cpu_steal: Fraction::zero(),
            ram: Fraction::zero(),
            swap: Fraction::zero(),
            missed_ticks: Fraction::zero(),
            missed_ticks_start: now,
            ticks_for_missed_ticks: 0,
            spt: ContinuousExtremaMetricAccumulator::new(),
            tps: ContinuousExtremaMetricAccumulator::new(),
            ticks: 0,
            tps_start: now,
        };
        health
    }

    /// Whether a read at `now` refreshes the gauges, so that a reading of the
    /// probe is worth taking first.
    pub fn needs_refresh(&self, now: u64) -> (stale: bool)
        ensures
            stale == self@.gauges.is_stale(now as nat),
    {
        match self.last {
            Some(last) => now > last && now - last > CACHE_NANOS,
            None => true,
        }
    }

    /// Takes `reading` into the gauges if they are stale at `now`, and leaves
    /// them as they are if not.
    pub fn refresh_if_necessary(&mut self, now: u64, reading: &ProbeReading)
        ensures
            final(self)@.gauges == old(self)@.gauges.refreshed(now as nat, *reading),
            final(self)@.cadence == old(self)@.cadence,
            final(self)@.valid(),
    {
        proof {
            use_type_invariant(&*self);
        }
        if !self.needs_refresh(now) {
            return ;
        }
        let cpu = match reading.cpu {
            Some(raw) => Fraction::from_ppm(raw),
            None => self.cpu,
        };
        let cpu_steal = match reading.cpu_steal {
            Some(raw) => Fraction::from_ppm(raw),
            None => self.cpu_steal,
        };
        let ram = match reading.ram {
            Some(raw) => Fraction::from_ppm(raw),
            None => self.ram,
        };
        let swap = match reading.swap {
            Some(raw) => Fraction::from_ppm(raw),
            None => self.swap,
        };
        *self = Health {
            last: Some(now),
            cpu,
            cpu_steal,
            ram,
            swap,
            missed_ticks: self.missed_ticks,
            missed_ticks_start: self.missed_ticks_start,
            ticks_for_missed_ticks: self.ticks_for_missed_ticks,
            spt: self.spt,
            tps: self.tps,
            ticks: self.ticks,
            tps_start: self.tps_start,
        };
    }

    /// Get (possibly cached) cpu usage from 0 to 1.
    ///
    /// The gauges are refreshed from `reading` first if they are stale at
    /// `now`.
    pub fn cpu(&mut self, now: u64, reading: &ProbeReading) -> (cpu: Fraction)
        ensures
            final(self)@.gauges == old(self)@.gauges.refreshed(now as nat, *reading),
            final(self)@.cadence == old(self)@.cadence,
            final(self)@.valid(),
            cpu@ == final(self)@.gauges.cpu,
            cpu@ <= 1_000_000,
    {
        self.refresh_if_necessary(now, reading);
        proof {
            use_type_invariant(&*self);
        }
        self.cpu
    }

    /// Get (possibly cached) cpu steal from 0 to 1.
    ///
    /// The gauges are refreshed from `reading` first if they are stale at
    /// `now`.
    pub fn cpu_steal(&mut self, now: u64, reading: &ProbeReading) -> (cpu_steal: Fraction)
        ensures
            final(self)@.gauges == old(self)@.gauges.refreshed(now as nat, *reading),
            final(self)@.cadence == old(self)@.cadence,
            final(self)@.valid(),
            cpu_steal@ == final(self)@.gauges.cpu_steal,
            cpu_steal@ <= 1_000_000,
    {
        self.refresh_if_necessary(now, reading);
        proof {
            use_type_invariant(&*self);
        }
        self.cpu_steal
    }

    /// Get (possibly cached) ram usage from 0 to 1.
    ///
    /// The gauges are refreshed from `reading` first if they are stale at
    /// `now`.
    pub fn ram(&mut self, now: u64, reading: &ProbeReading) -> (ram: Fraction)
        ensures
            final(self)@.gauges == old(self)@.gauges.refreshed(now as nat, *reading),
            final(self)@.cadence == old(self)@.cadence,
            final(self)@.valid(),
            ram@ == final(self)@.gauges.ram,
            ram@ <= 1_000_000,
    {
        self.refresh_if_necessary(now, reading);
        proof {
            use_type_invariant(&*self);
        }
        self.ram
    }

    /// Get (possibly cached) swap usage from 0 to 1.
    ///
    /// The gauges are refreshed from `reading` first if they are stale at
    /// `now`.
    pub fn swap(&mut self, now: u64, reading: &ProbeReading) -> (swap: Fraction)
        ensures
            final(self)@.gauges == old(self)@.gauges.refreshed(now as nat, *reading),
            final(self)@.cadence == old(self)@.cadence,
            final(self)@.valid(),
            swap@ == final(self)@.gauges.swap,
            swap@ <= 1_000_000,
    {
        self.refresh_if_necessary(now, reading);
        proof {
            use_type_invariant(&*self);
        }
        self.swap
    }

    /// Get the tick miss rate of the last window that closed, from 0 to 1.
    ///
    /// The gauges are refreshed from `reading` first if they are stale at
    /// `now`.
    pub fn missed_ticks(&mut self, now: u64, reading: &ProbeReading) -> (missed_ticks: Fraction)
        ensures
            final(self)@.gauges == old(self)@.gauges.refreshed(now as nat, *reading),
            final(self)@.cadence == old(self)@.cadence,
            final(self)@.valid(),
            missed_ticks@ == final(self)@.cadence.missed_ticks,
            missed_ticks@ <= 1_000_000,
    {
        self.refresh_if_necessary(now, reading);
        proof {
            use_type_invariant(&*self);
        }
        self.missed_ticks
    }

    /// Get bytes/second received, as the transport layer counts them.
    pub fn bandwidth_rx(&self, transport: &TransportCounters) -> (rate: u64)
        ensures
            rate == transport.bandwidth_rx,
    {
        transport.bandwidth_rx
    }

    /// Get bytes/second transmitted, as the transport layer counts them.
    pub fn bandwidth_tx(&self, transport: &TransportCounters) -> (rate: u64)
        ensures
            rate == transport.bandwidth_tx,
    {
        transport.bandwidth_tx
    }

    /// Get TCP/UDP connection/socket count, as the transport layer counts
    /// them.
    pub fn connections(&self, transport: &TransportCounters) -> (count: usize)
        ensures
            count == transport.connections,
    {
        transport.connections
    }

    /// Call to get the ticks-per-second samples since the last call, and
    /// start over with none.
    pub fn take_tps(&mut self) -> (drained: ContinuousExtremaMetricAccumulator)
        ensures
            drained@ == old(self)@.cadence.tps,
            final(self)@.cadence == (CadenceState {
                tps: Seq::<u64>::empty(),
                ..old(self)@.cadence
            }),
            final(self)@.gauges == old(self)@.gauges,
            final(self)@.valid(),
    {
        proof {
            use_type_invariant(&*self);
        }
        let mut tps = self.tps;
        let drained = tps.take();
        *self = Health {
            last: self.last,
            cpu: self.cpu,
            cpu_steal: self.cpu_steal,
            ram: self.ram,
            swap: self.swap,
            missed_ticks: self.missed_ticks,
            missed_ticks_start: self.missed_ticks_start,
            ticks_for_missed_ticks: self.ticks_for_missed_ticks,
            spt: self.spt,
            tps,
            ticks: self.ticks,
            tps_start: self.tps_start,
        };
        drained
    }

    /// Take the nanoseconds-per-tick samples since the last call, and start
    /// over with none. No sample is above ten seconds.
    pub fn take_spt(&mut self) -> (drained: ContinuousExtremaMetricAccumulator)
        ensures
            drained@ == old(self)@.cadence.tick_durations,
            all_at_most(drained@, MAX_TICK_NANOS),
            final(self)@.cadence == (CadenceState {
                tick_durations: Seq::<u64>::empty(),
                ..old(self)@.cadence
            }),
            final(self)@.gauges == old(self)@.gauges,
            final(self)@.valid(),
    {
        proof {
            use_type_invariant(&*self);
        }
        let mut spt = self.spt;
        let drained = spt.take();
        *self = Health {
            last: self.last,
            cpu: self.cpu,
            cpu_steal: self.cpu_steal,
            ram: self.ram,
            swap: self.swap,
            missed_ticks: self.missed_ticks,
            missed_ticks_start: self.missed_ticks_start,
            ticks_for_missed_ticks: self.ticks_for_missed_ticks,
            spt,
            tps: self.tps,
            ticks: self.ticks,
            tps_start: self.tps_start,
        };
        drained
    }

    /// Call every update a.k.a. tick, with the time at which the tick
    /// completed and the nanoseconds that it took.
    pub fn record_tick(&mut self, now: u64, elapsed: i64, period: TickPeriod)
        ensures
            final(self)@.cadence == old(self)@.cadence.ticked(
                now as nat,
                elapsed as int,
                period@,
            ),
            final(self)@.gauges == old(self)@.gauges,
            final(self)@.valid(),
    {
        proof {
            use_type_invariant(&*self);
        }
        let mut ticks_for_missed_ticks: u64 = self.ticks_for_missed_ticks.saturating_add(1);
        let mut spt = self.spt;
        spt.push(clamp_tick(elapsed));

        let mut tps = self.tps;
        let mut ticks: u64 = self.ticks;
        let mut tps_start: u64 = self.tps_start;
        let tps_elapsed: u64 = now.saturating_sub(self.tps_start);
        if tps_window_closes(tps_elapsed, period) {
            if tps_elapsed >= NANOS_PER_SEC {
                ticks = ticks.saturating_add(1);
                tps.push(ticks);
                ticks = 0;
            } else {
                tps.push(ticks);
                ticks = 1;
            }
            tps_start = now;
        } else {
            ticks = ticks.saturating_add(1);
        }

        let mut missed_ticks = self.missed_ticks;
        let mut missed_ticks_start: u64 = self.missed_ticks_start;
        let missed_ticks_elapsed: u64 = now.saturating_sub(self.missed_ticks_start);
        if missed_ticks_elapsed > MISSED_TICKS_WINDOW_NANOS {
            missed_ticks = missed_ratio(missed_ticks_elapsed, ticks_for_missed_ticks, period);
            ticks_for_missed_ticks = 0;
            missed_ticks_start = now;
        }
        *self = Health {
            last: self.last,
            cpu: self.cpu,
            cpu_steal: self.cpu_steal,
            ram: self.ram,
            swap: self.swap,
            missed_ticks,
            missed_ticks_start,
            ticks_for_missed_ticks,
            spt,
            tps,
            ticks,
            tps_start,
        };
    }
}

} // verus!
