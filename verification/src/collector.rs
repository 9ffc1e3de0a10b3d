//! The background collectors. Each runs the cycle collect, publish, sleep
//! without end; a cycle here is one call, and what it returns tells the
//! caller what to publish and how long to sleep before the next one.

use vstd::prelude::*;

verus! {

/// Seconds between two cycles of the service status collector.
pub const STATUS_INTERVAL_SECS: u64 = 10;

/// Seconds between two cycles of the system metrics collector.
pub const SYSTEM_INTERVAL_SECS: u64 = 5;

/// CPU utilisation is held in millionths: this value stands for 1.0.
pub const CPU_FULL_SCALE: u64 = 1_000_000;

/// The value that the readiness gauge shows for a flag.
pub open spec fn gauge_value(ready: bool) -> u64 {
    if ready {
        1
    } else {
        0
    }
}

/// The readiness flag after a number of cycles, each of which flips it.
pub open spec fn ready_after(start: bool, cycles: nat) -> bool
    decreases cycles,
{
    if cycles == 0 {
        start
    } else {
        !ready_after(start, (cycles - 1) as nat)
    }
}

/// The service status collector: the cell that the readiness gauge reads.
pub struct StatusCollector {
    ready: bool,
    started: bool,
}

/// What one cycle of the service status collector publishes.
pub struct StatusReport {
    /// Added to the "up" counter.
    pub up_increment: u64,
    /// The readiness gauge's value from now on.
    pub ready_value: u64,
    /// Seconds to sleep before the next cycle.
    pub sleep_secs: u64,
}

impl StatusCollector {
    /// The readiness flag that the gauge currently reflects.
    pub closed spec fn ready(&self) -> bool {
        self.ready
    }

    /// Whether a cycle has completed, so that the gauge has a value to show.
    pub closed spec fn started(&self) -> bool {
        self.started
    }

    /// What the readiness gauge shows: nothing before the first cycle, the
    /// flag's value afterwards.
    pub open spec fn shown(&self) -> Option<u64> {
        if self.started() {
            Some(gauge_value(self.ready()))
        } else {
            None
        }
    }

    /// A collector that has run no cycle yet; its flag starts out set.
    pub fn new() -> (c: Self)
        ensures
            c.ready(),
            !c.started(),
    {
        StatusCollector { ready: true, started: false }
    }

    /// What the readiness gauge observes now, if anything.
    pub fn observed(&self) -> (r: Option<u64>)
        ensures
            r == self.shown(),
            r matches Some(v) ==> v == 0 || v == 1,
    {
        if self.started {
            Some(self.ready_gauge())
        } else {
            None
        }
    }

    /// The flag as it stands.
    pub fn is_ready(&self) -> (r: bool)
        ensures
            r == self.ready(),
    {
        self.ready
    }

    /// The value that stands for the flag: 1 for ready, 0 for not ready.
    pub fn ready_gauge(&self) -> (v: u64)
        ensures
            v == gauge_value(self.ready()),
            v == 0 || v == 1,
    {
        if self.ready {
            1
        } else {
            0
        }
    }

    /// Runs one cycle: counts the service as up once, flips the flag and
    /// publishes the flag's new value.
    pub fn cycle(&mut self) -> (report: StatusReport)
        ensures
            final(self).ready() == !old(self).ready(),
            final(self).started(),
            report.up_increment == 1,
            report.ready_value == gauge_value(final(self).ready()),
            report.ready_value == 0 || report.ready_value == 1,
            report.sleep_secs == STATUS_INTERVAL_SECS,
    {
        self.ready = !self.ready;
        self.started = true;
        StatusReport {
            up_increment: 1,
            ready_value: self.ready_gauge(),
            sleep_secs: STATUS_INTERVAL_SECS,
        }
    }
}

/// Gauge domain: after any number of cycles from any starting flag the
/// readiness gauge shows exactly 0 or 1, and it shows the starting value
/// again after every second cycle.
pub proof fn law_ready_gauge_is_zero_or_one(start: bool, cycles: nat)
    ensures
        gauge_value(ready_after(start, cycles)) == 0 || gauge_value(ready_after(start, cycles))
            == 1,
        ready_after(start, cycles) == (if cycles % 2 == 0 {
            start
        } else {
            !start
        }),
    decreases cycles,
{
    if cycles > 0 {
        law_ready_gauge_is_zero_or_one(start, (cycles - 1) as nat);
    }
}

/// One sample of the operating system's state, as taken by the caller.
pub struct SystemSample {
    /// CPU utilisation in millionths of full utilisation, as measured.
    pub cpu_millionths: u64,
    /// Resident memory in use, in bytes.
    pub mem_used_bytes: u64,
}

/// The values that the system gauges show.
#[derive(Clone, Copy, PartialEq, Eq, Structural, Debug)]
pub struct SystemReading {
    /// CPU utilisation in millionths, at most `CPU_FULL_SCALE`.
    pub cpu_millionths: u64,
    /// Resident memory in use, in bytes.
    pub mem_used_bytes: u64,
}

/// A measured CPU utilisation brought into the range from 0 to 1.
pub open spec fn normalised_cpu(cpu_millionths: u64) -> u64 {
    if cpu_millionths > CPU_FULL_SCALE {
        CPU_FULL_SCALE
    } else {
        cpu_millionths
    }
}

/// The reading that a sample gives.
pub open spec fn reading_of(sample: SystemSample) -> SystemReading {
    SystemReading {
        cpu_millionths: normalised_cpu(sample.cpu_millionths),
        mem_used_bytes: sample.mem_used_bytes,
    }
}

/// The gauges after a cycle: those of the sample where sampling succeeded,
/// the previous ones where it failed.
pub open spec fn gauges_after(
    before: Option<SystemReading>,
    sample: Option<SystemSample>,
) -> Option<SystemReading> {
    match sample {
        Some(s) => Some(reading_of(s)),
        None => before,
    }
}

/// Brings a measured CPU utilisation into the range from 0 to 1.
pub fn normalise_cpu(cpu_millionths: u64) -> (r: u64)
    ensures
        r == normalised_cpu(cpu_millionths),
        r <= CPU_FULL_SCALE,
{
    if cpu_millionths > CPU_FULL_SCALE {
        CPU_FULL_SCALE
    } else {
        cpu_millionths
    }
}

/// The system metrics collector: the cell that the CPU and memory gauges
/// read. It holds nothing until a first sample has been published.
pub struct SystemCollector {
    current: Option<SystemReading>,
}

/// What one cycle of the system metrics collector asks of its caller.
pub struct SystemReport {
    /// Whether the cycle published a new reading; a failed cycle does not.
    pub published: bool,
    /// Seconds to sleep before the next cycle.
    pub sleep_secs: u64,
}

impl SystemCollector {
    /// The reading that the gauges currently show, if any.
    pub closed spec fn gauges(&self) -> Option<SystemReading> {
        self.current
    }

    /// Every reading held keeps the CPU gauge within its range.
    #[verifier::type_invariant]
    spec fn in_range(self) -> bool {
        match self.current {
            Some(reading) => reading.cpu_millionths <= CPU_FULL_SCALE,
            None => true,
        }
    }

    /// A collector that has published nothing yet.
    pub fn new() -> (c: Self)
        ensures
            c.gauges() is None,
    {
        SystemCollector { current: None }
    }

    /// The reading that the gauges observe now.
    pub fn reading(&self) -> (r: Option<SystemReading>)
        ensures
            r == self.gauges(),
            r matches Some(reading) ==> reading.cpu_millionths <= CPU_FULL_SCALE,
    {
        proof {
            use_type_invariant(self);
        }
        self.current
    }

    /// Runs one cycle on the outcome of sampling. A sample replaces the
    /// reading, with its CPU value normalised; a failed sampling leaves the
    /// reading as it was. Either way the collector sleeps and goes on.
    pub fn cycle(&mut self, sample: Option<SystemSample>) -> (report: SystemReport)
        ensures
            final(self).gauges() == gauges_after(old(self).gauges(), sample),
            report.published == sample.is_some(),
            report.sleep_secs == SYSTEM_INTERVAL_SECS,
    {
        let published: bool = match sample {
            Some(s) => {
                self.current = Some(
                    SystemReading {
                        cpu_millionths: normalise_cpu(s.cpu_millionths),
                        mem_used_bytes: s.mem_used_bytes,
                    },
                );
                true
            },
            None => false,
        };
        SystemReport { published, sleep_secs: SYSTEM_INTERVAL_SECS }
    }
}

/// Range: whatever was measured, and whatever the gauges showed before, the
/// CPU gauge after a cycle lies between 0 and full scale; the memory gauge is
/// the sampled number of bytes, an unsigned integer.
pub proof fn law_cpu_gauge_within_range(before: Option<SystemReading>, sample: Option<SystemSample>)
    requires
        before matches Some(reading) ==> reading.cpu_millionths <= CPU_FULL_SCALE,
    ensures
        gauges_after(before, sample) matches Some(reading) ==> 0 <= reading.cpu_millionths
            <= CPU_FULL_SCALE,
        sample matches Some(s) ==> gauges_after(before, sample) matches Some(reading)
            && reading.mem_used_bytes == s.mem_used_bytes,
{
}

} // verus!
