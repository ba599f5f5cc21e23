//! Snapshots extended with disk and graphics-processor data, and the state
//! that decides when the disks are read again.

use crate::rate::{percent_of, percent_of_spec};
use crate::system::{elapsed_between, CpuData, MemoryData, NetworkData, ProcessInfo, SystemData};
use vstd::prelude::*;

verus! {

/// Disks are read again once more than this many nanoseconds have passed.
pub const DISK_REFRESH_NANOS: u64 = 10_000_000_000;

/// One mounted disk.
#[derive(Debug, Clone)]
pub struct DiskData {
    pub name: String,
    pub mount_point: String,
    /// Size in bytes.
    pub total_space: u64,
    /// Free bytes.
    pub available_space: u64,
    /// Share of the disk in use, in percent units.
    pub used_percent: u32,
}

/// The graphics processor.
#[derive(Debug, Clone)]
pub struct GpuData {
    pub available: bool,
    pub name: String,
    /// Load, in percent units.
    pub usage: u32,
    /// Temperature, in thousandths of a degree.
    pub temperature: u32,
}

/// A snapshot together with the disks and the graphics processor.
#[derive(Debug, Clone)]
pub struct EnhancedSystemData {
    pub cpu: CpuData,
    pub memory: MemoryData,
    pub network: NetworkData,
    pub processes: Vec<ProcessInfo>,
    pub disks: Vec<DiskData>,
    pub gpu: GpuData,
}

/// Bytes in use on a disk of `total` bytes of which `available` are free.
pub open spec fn used_space(total: u64, available: u64) -> u64 {
    if total >= available {
        (total - available) as u64
    } else {
        0
    }
}

impl DiskData {
    /// The entry for a disk of `total_space` bytes of which `available_space`
    /// are free.
    pub fn new(name: String, mount_point: String, total_space: u64, available_space: u64) -> (d:
        Self)
        ensures
            d.name == name,
            d.mount_point == mount_point,
            d.total_space == total_space,
            d.available_space == available_space,
            d.used_percent == percent_of_spec(used_space(total_space, available_space), total_space),
    {
        let used: u64 = total_space.saturating_sub(available_space);
        DiskData {
            name,
            mount_point,
            total_space,
            available_space,
            used_percent: percent_of(used, total_space),
        }
    }

    /// An equal entry.
    pub fn duplicate(&self) -> (d: Self)
        ensures
            d == *self,
    {
        DiskData {
            name: self.name.clone(),
            mount_point: self.mount_point.clone(),
            total_space: self.total_space,
            available_space: self.available_space,
            used_percent: self.used_percent,
        }
    }
}

impl GpuData {
    /// The entry that stands for a graphics processor that cannot be read.
    pub fn unavailable() -> (g: Self)
        ensures
            !g.available,
            g.name@ == "Not Available"@,
            g.usage == 0,
            g.temperature == 0,
    {
        GpuData { available: false, name: "Not Available".to_owned(), usage: 0, temperature: 0 }
    }
}

/// Mean share in use over `disks`, in percent units; none for no disks.
pub open spec fn mean_disk_usage(disks: Seq<DiskData>) -> Option<nat> {
    if disks.len() == 0 {
        None
    } else {
        Some(disk_usage_sum(disks) / disks.len())
    }
}

/// Sum of the shares in use over `disks`.
pub open spec fn disk_usage_sum(disks: Seq<DiskData>) -> nat
    decreases disks.len(),
{
    if disks.len() == 0 {
        0
    } else {
        disk_usage_sum(disks.drop_last()) + disks.last().used_percent as nat
    }
}

/// Mean share in use over `disks`, which the dashboard shows for them.
pub fn average_disk_usage(disks: &Vec<DiskData>) -> (mean: Option<u32>)
    ensures
        match mean {
            Some(m) => mean_disk_usage(disks@) == Some(m as nat),
            None => mean_disk_usage(disks@) is None,
        },
{
    let n: usize = disks.len();
    if n == 0 {
        return None;
    }
    let mut total: u128 = 0;
    let mut i: usize = 0;
    while i < n
        invariant
            n == disks@.len(),
            i <= n,
            total == disk_usage_sum(disks@.subrange(0, i as int)),
            total <= i * u32::MAX,
        decreases n - i,
    {
        assert(disks@.subrange(0, i + 1).drop_last() =~= disks@.subrange(0, i as int));
        assert(i * u32::MAX + u32::MAX == (i + 1) * u32::MAX) by (nonlinear_arith);
        total = total + disks[i].used_percent as u128;
        i += 1;
    }
    assert(disks@.subrange(0, n as int) =~= disks@);
    assert(total as nat / n as nat <= u32::MAX) by (nonlinear_arith)
        requires
            total <= n * u32::MAX,
            n > 0,
    ;
    Some((total / n as u128) as u32)
}

/// Extends each snapshot with the disks, which are expensive to read and so
/// are read only now and then and remembered in between.
pub struct EnhancedSystemMonitor {
    cached_disks: Vec<DiskData>,
    last_disk_refresh: Option<u64>,
}

impl EnhancedSystemMonitor {
    /// The disks as they were last read.
    pub closed spec fn disks(&self) -> Seq<DiskData> {
        self.cached_disks@
    }

    /// When the disks were last read, if ever.
    pub closed spec fn last_refresh(&self) -> Option<u64> {
        self.last_disk_refresh
    }

    /// Whether the disks are to be read again at `now`.
    pub open spec fn refresh_due(&self, now: u64) -> bool {
        match self.last_refresh() {
            None => true,
            Some(at) => elapsed_between(at, now) > DISK_REFRESH_NANOS,
        }
    }

    /// A monitor that has not read the disks yet.
    pub fn new() -> (m: Self)
        ensures
            m.disks() == Seq::<DiskData>::empty(),
            m.last_refresh() is None,
    {
        EnhancedSystemMonitor { cached_disks: Vec::new(), last_disk_refresh: None }
    }

    /// Whether the disks are to be read again at `now`: always the first time,
    /// and then whenever more than `DISK_REFRESH_NANOS` have passed since the
    /// last reading.
    pub fn disk_refresh_due(&self, now: u64) -> (due: bool)
        ensures
            due == self.refresh_due(now),
    {
        match self.last_disk_refresh {
            None => true,
            Some(at) => now.saturating_sub(at) > DISK_REFRESH_NANOS,
        }
    }

    /// Remembers `disks` as read at `now`.
    pub fn store_disks(&mut self, disks: Vec<DiskData>, now: u64)
        ensures
            final(self).disks() == disks@,
            final(self).last_refresh() == Some(now),
    {
        self.cached_disks = disks;
        self.last_disk_refresh = Some(now);
    }

    /// The snapshot `data` together with the remembered disks and the
    /// graphics processor, which is not read.
    pub fn enhance(&self, data: SystemData) -> (enhanced: EnhancedSystemData)
        ensures
            enhanced.cpu == data.cpu,
            enhanced.memory == data.memory,
            enhanced.network == data.network,
            enhanced.processes == data.processes,
            enhanced.disks@ == self.disks(),
            !enhanced.gpu.available,
            enhanced.gpu.name@ == "Not Available"@,
            enhanced.gpu.usage == 0,
            enhanced.gpu.temperature == 0,
    {
        let mut disks: Vec<DiskData> = Vec::new();
        let mut i: usize = 0;
        while i < self.cached_disks.len()
            invariant
                i <= self.cached_disks@.len(),
                disks@ == self.cached_disks@.subrange(0, i as int),
            decreases self.cached_disks@.len() - i,
        {
            disks.push(self.cached_disks[i].duplicate());
            assert(disks@ =~= self.cached_disks@.subrange(0, i + 1));
            i += 1;
        }
        assert(disks@ =~= self.cached_disks@);
        EnhancedSystemData {
            cpu: data.cpu,
            memory: data.memory,
            network: data.network,
            processes: data.processes,
            disks,
            gpu: GpuData::unavailable(),
        }
    }
}

} // verus!
