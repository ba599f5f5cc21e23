//! The samples that make up one snapshot of the system, and the sampling
//! step that produces a snapshot from raw counter readings.

use crate::ranking::{is_top_ranked, rank_processes, SNAPSHOT_PROCESS_CAP};
use crate::rate::{compute_rate, percent_of, percent_of_spec, rate_of};
use vstd::prelude::*;

verus! {

/// Milliseconds between two ticks of the sampling loop.
pub const TICK_INTERVAL_MILLIS: u64 = 500;

/// Milliseconds between two polls of the consumer.
pub const POLL_INTERVAL_MILLIS: u64 = 100;

/// Processor load at one instant, in percent units.
#[derive(Debug, Clone)]
pub struct CpuData {
    /// Mean load over all cores.
    pub usage: u32,
    /// Load of each core, in the order the cores were read.
    pub cores: Vec<u32>,
}

/// Memory in use at one instant.
#[derive(Debug, Clone)]
pub struct MemoryData {
    /// Bytes in use, never more than `total`.
    pub used: u64,
    /// Bytes installed.
    pub total: u64,
    /// `used` of `total`, in percent units.
    pub used_percent: u32,
}

/// Network traffic at one instant, summed over all interfaces.
#[derive(Debug, Clone)]
pub struct NetworkData {
    /// Bytes received so far.
    pub received: u64,
    /// Bytes transmitted so far.
    pub transmitted: u64,
    /// Receive throughput since the previous sample, in rate units.
    pub received_rate: u128,
    /// Transmit throughput since the previous sample, in rate units.
    pub transmitted_rate: u128,
}

/// One row of the process table.
#[derive(Debug, Clone)]
pub struct ProcessInfo {
    pub pid: u32,
    pub name: String,
    /// Processor usage, in percent units; none where the reading was no
    /// number.
    pub cpu_usage: Option<u32>,
    /// Resident memory, in bytes.
    pub memory: u64,
    /// Resident memory as a share of the installed memory, in percent units.
    pub memory_percent: u32,
}

/// Cumulative byte counters of one network interface, or of all of them
/// together.
#[derive(Debug, Clone, Copy, PartialEq, Eq)]
pub struct NetworkCounters {
    pub received: u64,
    pub transmitted: u64,
}

/// Everything known about the system at one instant: the unit that travels
/// from the sampling loop to its consumer.
#[derive(Debug, Clone)]
pub struct SystemData {
    pub cpu: CpuData,
    pub memory: MemoryData,
    pub network: NetworkData,
    /// The busiest processes, best first.
    pub processes: Vec<ProcessInfo>,
    /// When the sample was taken, in nanoseconds on the sampler's clock.
    pub timestamp: u64,
}

/// One reading of the raw system counters, as the operating system gave them.
#[derive(Debug, Clone)]
pub struct CounterReading {
    /// Load of each core, in percent units.
    pub cores: Vec<u32>,
    pub used_memory: u64,
    pub total_memory: u64,
    /// The counters of each network interface.
    pub interfaces: Vec<NetworkCounters>,
    /// The whole process table, in enumeration order.
    pub processes: Vec<ProcessInfo>,
}

/// Sum of `values`.
pub open spec fn sum_of(values: Seq<u32>) -> nat
    decreases values.len(),
{
    if values.len() == 0 {
        0
    } else {
        sum_of(values.drop_last()) + values.last() as nat
    }
}

/// Mean of `values`, rounded down; 0 for no values.
pub open spec fn mean_of(values: Seq<u32>) -> nat {
    if values.len() == 0 {
        0
    } else {
        sum_of(values) / values.len()
    }
}

/// Bytes received over all of `interfaces`.
pub open spec fn received_sum(interfaces: Seq<NetworkCounters>) -> nat
    decreases interfaces.len(),
{
    if interfaces.len() == 0 {
        0
    } else {
        received_sum(interfaces.drop_last()) + interfaces.last().received as nat
    }
}

/// Bytes transmitted over all of `interfaces`.
pub open spec fn transmitted_sum(interfaces: Seq<NetworkCounters>) -> nat
    decreases interfaces.len(),
{
    if interfaces.len() == 0 {
        0
    } else {
        transmitted_sum(interfaces.drop_last()) + interfaces.last().transmitted as nat
    }
}

/// `n` as a counter value: counters stop at the largest value they can hold.
pub open spec fn capped(n: nat) -> u64 {
    if n <= u64::MAX {
        n as u64
    } else {
        u64::MAX
    }
}

/// The counters of all `interfaces` together.
pub open spec fn total_counters(interfaces: Seq<NetworkCounters>) -> NetworkCounters {
    NetworkCounters {
        received: capped(received_sum(interfaces)),
        transmitted: capped(transmitted_sum(interfaces)),
    }
}

/// Nanoseconds from `earlier` to `now`; none if the clock went backwards.
pub open spec fn elapsed_between(earlier: u64, now: u64) -> u64 {
    if now >= earlier {
        (now - earlier) as u64
    } else {
        0
    }
}

impl CpuData {
    /// The sample for the given per-core loads; its overall load is their
    /// mean.
    pub fn new(cores: Vec<u32>) -> (cpu: Self)
        ensures
            cpu.cores == cores,
            cpu.usage == mean_of(cores@),
    {
        let n: usize = cores.len();
        if n == 0 {
            return CpuData { usage: 0, cores };
        }
        let mut total: u128 = 0;
        let mut i: usize = 0;
        while i < n
            invariant
                n == cores@.len(),
                i <= n,
                total == sum_of(cores@.subrange(0, i as int)),
                total <= i * u32::MAX,
            decreases n - i,
        {
            assert(cores@.subrange(0, i + 1).drop_last() =~= cores@.subrange(0, i as int));
            assert(i * u32::MAX + u32::MAX == (i + 1) * u32::MAX) by (nonlinear_arith);
            total = total + cores[i] as u128;
            i += 1;
        }
        assert(cores@.subrange(0, n as int) =~= cores@);
        assert(total as nat / n as nat <= u32::MAX) by (nonlinear_arith)
            requires
                total <= n * u32::MAX,
                n > 0,
        ;
        CpuData { usage: (total / n as u128) as u32, cores }
    }
}

impl MemoryData {
    /// The sample for `used` bytes in use out of `total`. A reading of more
    /// than `total` in use is taken as `total`.
    pub fn new(used: u64, total: u64) -> (m: Self)
        ensures
            m.total == total,
            m.used == if used <= total {
                used
            } else {
                total
            },
            m.used <= m.total,
            m.used_percent == percent_of_spec(m.used, total),
    {
        let used: u64 = if used <= total {
            used
        } else {
            total
        };
        MemoryData { used, total, used_percent: percent_of(used, total) }
    }
}

impl ProcessInfo {
    /// The row of a process that holds `memory` bytes on a machine with
    /// `total_memory` bytes installed.
    pub fn new(
        pid: u32,
        name: String,
        cpu_usage: Option<u32>,
        memory: u64,
        total_memory: u64,
    ) -> (p: Self)
        ensures
            p.pid == pid,
            p.name == name,
            p.cpu_usage == cpu_usage,
            p.memory == memory,
            p.memory_percent == percent_of_spec(memory, total_memory),
    {
        ProcessInfo {
            pid,
            name,
            cpu_usage,
            memory,
            memory_percent: percent_of(memory, total_memory),
        }
    }
}

impl NetworkCounters {
    /// Sums the counters of all `interfaces`.
    pub fn total(interfaces: &Vec<NetworkCounters>) -> (t: NetworkCounters)
        ensures
            t == total_counters(interfaces@),
    {
        let mut received: u64 = 0;
        let mut transmitted: u64 = 0;
        let mut i: usize = 0;
        while i < interfaces.len()
            invariant
                i <= interfaces@.len(),
                received == capped(received_sum(interfaces@.subrange(0, i as int))),
                transmitted == capped(transmitted_sum(interfaces@.subrange(0, i as int))),
            decreases interfaces@.len() - i,
        {
            assert(interfaces@.subrange(0, i + 1).drop_last() =~= interfaces@.subrange(0, i as int));
            received = received.saturating_add(interfaces[i].received);
            transmitted = transmitted.saturating_add(interfaces[i].transmitted);
            i += 1;
        }
        assert(interfaces@.subrange(0, i as int) =~= interfaces@);
        NetworkCounters { received, transmitted }
    }
}

/// The state that the sampling loop carries from one tick to the next: the
/// network counters of the previous tick and the time they were read.
pub struct SystemMonitor {
    last_network: NetworkCounters,
    last_network_time: u64,
}

impl SystemMonitor {
    /// The network counters of the previous tick.
    pub closed spec fn last_counters(&self) -> NetworkCounters {
        self.last_network
    }

    /// When the previous tick read its counters.
    pub closed spec fn last_time(&self) -> u64 {
        self.last_network_time
    }

    /// A monitor whose first tick measures against `interfaces`, read at
    /// `now`.
    pub fn new(interfaces: &Vec<NetworkCounters>, now: u64) -> (m: Self)
        ensures
            m.last_counters() == total_counters(interfaces@),
            m.last_time() == now,
    {
        SystemMonitor { last_network: NetworkCounters::total(interfaces), last_network_time: now }
    }

    /// One tick of the sampling loop: turns the raw `reading`, taken at `now`,
    /// into a snapshot and remembers its counters for the next tick. The
    /// network rates measure the growth since the previous tick; they are zero
    /// when no time has passed on the clock or it went backwards.
    pub fn tick(&mut self, reading: CounterReading, now: u64) -> (data: SystemData)
        ensures
            final(self).last_counters() == total_counters(reading.interfaces@),
            final(self).last_time() == now,
            data.timestamp == now,
            data.cpu.cores == reading.cores,
            data.cpu.usage == mean_of(reading.cores@),
            data.memory.total == reading.total_memory,
            data.memory.used == if reading.used_memory <= reading.total_memory {
                reading.used_memory
            } else {
                reading.total_memory
            },
            data.memory.used_percent == percent_of_spec(data.memory.used, reading.total_memory),
            data.network.received == total_counters(reading.interfaces@).received,
            data.network.transmitted == total_counters(reading.interfaces@).transmitted,
            data.network.received_rate == rate_of(
                data.network.received,
                old(self).last_counters().received,
                elapsed_between(old(self).last_time(), now),
            ),
            data.network.transmitted_rate == rate_of(
                data.network.transmitted,
                old(self).last_counters().transmitted,
                elapsed_between(old(self).last_time(), now),
            ),
            is_top_ranked(reading.processes@, SNAPSHOT_PROCESS_CAP as nat, data.processes@),
    {
        let cpu = CpuData::new(reading.cores);
        let memory = MemoryData::new(reading.used_memory, reading.total_memory);
        let totals = NetworkCounters::total(&reading.interfaces);
        let elapsed: u64 = now.saturating_sub(self.last_network_time);
        let received_rate = compute_rate(totals.received, self.last_network.received, elapsed);
        let transmitted_rate = compute_rate(
            totals.transmitted,
            self.last_network.transmitted,
            elapsed,
        );
        self.last_network = totals;
        self.last_network_time = now;
        let processes = rank_processes(reading.processes, SNAPSHOT_PROCESS_CAP);
        SystemData {
            cpu,
            memory,
            network: NetworkData {
                received: totals.received,
                transmitted: totals.transmitted,
                received_rate,
                transmitted_rate,
            },
            processes,
            timestamp: now,
        }
    }
}

} // verus!
