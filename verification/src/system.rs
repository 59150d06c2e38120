//! The system stats collector: what is written for the host, given the
//! figures that the operating system handed out.

use crate::family::{Family, Labels};
use crate::model::{all_labelled, apply, labelled, scalar, SeriesView};
use crate::registry::{MetricRegistry, Series};
use crate::sample::Sample;
use vstd::prelude::*;

verus! {

/// Memory figures, in bytes.
#[derive(Clone, Copy, Debug, PartialEq, Eq, Structural)]
pub struct MemoryReading {
    pub total: u64,
    pub free: u64,
}

/// The figures of one mounted filesystem, in bytes.
#[derive(Clone, Copy, Debug, PartialEq, Eq, Structural)]
pub struct MountReading {
    pub total: u64,
    pub avail: u64,
}

/// The three load averages, each carried as the bit pattern of a 64-bit
/// binary floating-point number.
#[derive(Clone, Copy, Debug, PartialEq, Eq, Structural)]
pub struct LoadReading {
    pub one: u64,
    pub five: u64,
    pub fifteen: u64,
}

/// The packet counters of one network interface.
#[derive(Clone, Copy, Debug, PartialEq, Eq, Structural)]
pub struct PacketCounts {
    pub received: u64,
    pub transmitted: u64,
}

/// One network interface: its name, and its counters if they could be read.
#[derive(Debug, PartialEq, Eq)]
pub struct InterfaceReading {
    pub name: String,
    pub packets: Option<PacketCounts>,
}

/// One network interface as a mathematical value.
pub struct InterfaceView {
    pub name: Seq<char>,
    pub packets: Option<PacketCounts>,
}

impl View for InterfaceReading {
    type V = InterfaceView;

    open spec fn view(&self) -> InterfaceView {
        InterfaceView { name: self.name@, packets: self.packets }
    }
}

impl DeepView for InterfaceReading {
    type V = InterfaceView;

    open spec fn deep_view(&self) -> InterfaceView {
        self@
    }
}

/// One reading of the host. Every figure is fetched on its own: a figure
/// that could not be obtained is absent, and the others are still there.
#[derive(Debug, PartialEq, Eq)]
pub struct SystemStats {
    /// The most recent 1-minute load, as the bit pattern of a 64-bit binary
    /// floating-point number.
    pub cpu_load: Option<u64>,
    pub memory: Option<MemoryReading>,
    /// All mounted filesystems.
    pub mounts: Option<Vec<MountReading>>,
    pub load_average: Option<LoadReading>,
    /// Seconds since boot.
    pub uptime: Option<u64>,
    /// The time of boot, in seconds since the UNIX epoch.
    pub boot_time: Option<i64>,
    /// All network interfaces, in the order in which they are exposed.
    pub interfaces: Option<Vec<InterfaceReading>>,
}

/// One reading of the host as a mathematical value.
pub struct SystemStatsView {
    pub cpu_load: Option<u64>,
    pub memory: Option<MemoryReading>,
    pub mounts: Option<Seq<MountReading>>,
    pub load_average: Option<LoadReading>,
    pub uptime: Option<u64>,
    pub boot_time: Option<i64>,
    pub interfaces: Option<Seq<InterfaceView>>,
}

impl View for SystemStats {
    type V = SystemStatsView;

    open spec fn view(&self) -> SystemStatsView {
        SystemStatsView {
            cpu_load: self.cpu_load,
            memory: self.memory,
            mounts: match self.mounts {
                Some(list) => Some(list@),
                None => None,
            },
            load_average: self.load_average,
            uptime: self.uptime,
            boot_time: self.boot_time,
            interfaces: match self.interfaces {
                Some(list) => Some(list.deep_view()),
                None => None,
            },
        }
    }
}

/// What is in use of `total` when `free` of it is free. Never negative: free
/// space beyond the total counts as all of it.
pub open spec fn used(total: int, free: int) -> int {
    if free <= total {
        total - free
    } else {
        0
    }
}

/// The memory usage gauge: the used share of the total.
pub open spec fn memory_usage(m: MemoryReading) -> Sample {
    Sample::Percent { part: used(m.total as int, m.free as int) as u128, whole: m.total as u128 }
}

/// The sum of the sizes of the filesystems.
pub open spec fn total_space(mounts: Seq<MountReading>) -> int
    decreases mounts.len(),
{
    if mounts.len() == 0 {
        0
    } else {
        total_space(mounts.drop_last()) + mounts.last().total
    }
}

/// The sum of the available space of the filesystems.
pub open spec fn total_avail(mounts: Seq<MountReading>) -> int
    decreases mounts.len(),
{
    if mounts.len() == 0 {
        0
    } else {
        total_avail(mounts.drop_last()) + mounts.last().avail
    }
}

/// The disk usage gauge: the used share of the space of all filesystems
/// together, and 0 where there is no space at all.
pub open spec fn disk_usage(mounts: Seq<MountReading>) -> Sample {
    let total = total_space(mounts);
    let avail = total_avail(mounts);
    if total == 0 {
        Sample::Whole(0)
    } else {
        Sample::Percent { part: used(total, avail) as u128, whole: total as u128 }
    }
}

/// The writes for the CPU load.
pub open spec fn cpu_writes(load: Option<u64>) -> Seq<SeriesView> {
    match load {
        Some(bits) => seq![scalar(Family::SystemCpuLoad, Sample::Real { bits })],
        None => seq![],
    }
}

/// The writes for the memory figures.
pub open spec fn memory_writes(memory: Option<MemoryReading>) -> Seq<SeriesView> {
    match memory {
        Some(m) => seq![scalar(Family::SystemMemoryUsage, memory_usage(m))],
        None => seq![],
    }
}

/// The writes for the filesystems.
pub open spec fn disk_writes(mounts: Option<Seq<MountReading>>) -> Seq<SeriesView> {
    match mounts {
        Some(list) => seq![scalar(Family::SystemFreeDiskSpace, disk_usage(list))],
        None => seq![],
    }
}

/// The writes for the load averages: one series per interval.
pub open spec fn load_writes(load: Option<LoadReading>) -> Seq<SeriesView> {
    match load {
        Some(l) => seq![
            labelled(Family::SystemLoadAverage, "1_min"@, Sample::Real { bits: l.one }),
            labelled(Family::SystemLoadAverage, "5_min"@, Sample::Real { bits: l.five }),
            labelled(Family::SystemLoadAverage, "15_min"@, Sample::Real { bits: l.fifteen }),
        ],
        None => seq![],
    }
}

/// The writes for the uptime.
pub open spec fn uptime_writes(uptime: Option<u64>) -> Seq<SeriesView> {
    match uptime {
        Some(seconds) => seq![scalar(Family::SystemUptime, Sample::Whole(seconds as i128))],
        None => seq![],
    }
}

/// The writes for the boot time.
pub open spec fn boot_writes(boot_time: Option<i64>) -> Seq<SeriesView> {
    match boot_time {
        Some(timestamp) => seq![scalar(Family::SystemBootTime, Sample::Whole(timestamp as i128))],
        None => seq![],
    }
}

/// The writes for one network interface: both counters, or nothing where
/// they could not be read.
pub open spec fn interface_writes(interface: InterfaceView) -> Seq<SeriesView> {
    match interface.packets {
        Some(counts) => seq![
            labelled(
                Family::SystemNetworkPacketsIn,
                interface.name,
                Sample::Whole(counts.received as i128),
            ),
            labelled(
                Family::SystemNetworkPacketsOut,
                interface.name,
                Sample::Whole(counts.transmitted as i128),
            ),
        ],
        None => seq![],
    }
}

/// The writes for a list of network interfaces, in list order.
pub open spec fn interfaces_writes(list: Seq<InterfaceView>) -> Seq<SeriesView>
    decreases list.len(),
{
    if list.len() == 0 {
        seq![]
    } else {
        interfaces_writes(list.drop_last()) + interface_writes(list.last())
    }
}

/// The writes for the network interfaces.
pub open spec fn network_writes(interfaces: Option<Seq<InterfaceView>>) -> Seq<SeriesView> {
    match interfaces {
        Some(list) => interfaces_writes(list),
        None => seq![],
    }
}

/// The writes for one reading of the host: CPU load, memory, disk, load
/// averages, uptime, boot time, network interfaces, in this order. An absent
/// figure writes nothing, so its gauge keeps its previous value.
pub open spec fn system_writes(stats: SystemStatsView) -> Seq<SeriesView> {
    cpu_writes(stats.cpu_load) + memory_writes(stats.memory) + disk_writes(stats.mounts)
        + load_writes(stats.load_average) + uptime_writes(stats.uptime) + boot_writes(
        stats.boot_time,
    ) + network_writes(stats.interfaces)
}

/// The sums over a list of filesystems stay below the number of filesystems
/// times the largest size.
pub proof fn lemma_space_bounds(mounts: Seq<MountReading>)
    ensures
        0 <= total_space(mounts) <= mounts.len() * u64::MAX,
        0 <= total_avail(mounts) <= mounts.len() * u64::MAX,
    decreases mounts.len(),
{
    if mounts.len() > 0 {
        lemma_space_bounds(mounts.drop_last());
        assert((mounts.len() - 1) * u64::MAX + u64::MAX == mounts.len() * u64::MAX)
            by (nonlinear_arith);
    }
}

/// The memory usage gauge: the used share of the total.
pub fn memory_sample(m: &MemoryReading) -> (s: Sample)
    ensures
        s == memory_usage(*m),
        m.total > 0 ==> s.is_bounded_percent(),
{
    let part: u64 = if m.free <= m.total {
        m.total - m.free
    } else {
        0
    };
    Sample::Percent { part: part as u128, whole: m.total as u128 }
}

/// The disk usage gauge: the used share of the space of all filesystems
/// together, and 0 where there is no space at all.
pub fn disk_sample(mounts: &Vec<MountReading>) -> (s: Sample)
    ensures
        s == disk_usage(mounts@),
        total_space(mounts@) == 0 ==> s.is_zero(),
        total_space(mounts@) > 0 ==> s.is_bounded_percent(),
{
    let mut total: u128 = 0;
    let mut avail: u128 = 0;
    let mut i: usize = 0;
    while i < mounts.len()
        invariant
            i <= mounts.len(),
            total == total_space(mounts@.take(i as int)),
            avail == total_avail(mounts@.take(i as int)),
        decreases mounts.len() - i,
    {
        proof {
            let next = mounts@.take(i as int + 1);
            assert(next.drop_last() =~= mounts@.take(i as int));
            assert(next.last() == mounts@[i as int]);
            lemma_space_bounds(next);
            assert(next.len() * u64::MAX <= u64::MAX * u64::MAX) by (nonlinear_arith)
                requires
                    next.len() <= u64::MAX,
            ;
        }
        total = total + mounts[i].total as u128;
        avail = avail + mounts[i].avail as u128;
        i += 1;
    }
    assert(mounts@.take(i as int) =~= mounts@);
    if total == 0 {
        Sample::Whole(0)
    } else {
        let part: u128 = if avail <= total {
            total - avail
        } else {
            0
        };
        Sample::Percent { part, whole: total }
    }
}

/// Decides what is written for one reading of the host.
pub fn plan_system(stats: &SystemStats) -> (writes: Vec<Series>)
    ensures
        writes.deep_view() == system_writes(stats@),
{
    let mut writes: Vec<Series> = Vec::new();
    let ghost mut done: Seq<SeriesView> = Seq::empty();
    assert(writes.deep_view() =~= done);

    if let Some(bits) = stats.cpu_load {
        writes.push(Series::scalar(Family::SystemCpuLoad, Sample::Real { bits }));
    }
    proof {
        assert(writes.deep_view() =~= done + cpu_writes(stats@.cpu_load));
        done = done + cpu_writes(stats@.cpu_load);
    }

    if let Some(m) = &stats.memory {
        writes.push(Series::scalar(Family::SystemMemoryUsage, memory_sample(m)));
    }
    proof {
        assert(writes.deep_view() =~= done + memory_writes(stats@.memory));
        done = done + memory_writes(stats@.memory);
    }

    if let Some(list) = &stats.mounts {
        writes.push(Series::scalar(Family::SystemFreeDiskSpace, disk_sample(list)));
    }
    proof {
        assert(writes.deep_view() =~= done + disk_writes(stats@.mounts));
        done = done + disk_writes(stats@.mounts);
    }

    if let Some(l) = &stats.load_average {
        writes.push(
            Series::labelled(Family::SystemLoadAverage, "1_min", Sample::Real { bits: l.one }),
        );
        writes.push(
            Series::labelled(Family::SystemLoadAverage, "5_min", Sample::Real { bits: l.five }),
        );
        writes.push(
            Series::labelled(Family::SystemLoadAverage, "15_min", Sample::Real { bits: l.fifteen }),
        );
    }
    proof {
        assert(writes.deep_view() =~= done + load_writes(stats@.load_average));
        done = done + load_writes(stats@.load_average);
    }

    if let Some(seconds) = stats.uptime {
        writes.push(Series::scalar(Family::SystemUptime, Sample::from_count(seconds)));
    }
    proof {
        assert(writes.deep_view() =~= done + uptime_writes(stats@.uptime));
        done = done + uptime_writes(stats@.uptime);
    }

    if let Some(timestamp) = stats.boot_time {
        writes.push(Series::scalar(Family::SystemBootTime, Sample::Whole(timestamp as i128)));
    }
    proof {
        assert(writes.deep_view() =~= done + boot_writes(stats@.boot_time));
        done = done + boot_writes(stats@.boot_time);
    }

    if let Some(list) = &stats.interfaces {
        let mut i: usize = 0;
        while i < list.len()
            invariant
                i <= list.len(),
                writes.deep_view() == done + interfaces_writes(list.deep_view().take(i as int)),
            decreases list.len() - i,
        {
            let interface = &list[i];
            let ghost before = writes.deep_view();
            let ghost earlier = list.deep_view().take(i as int);
            let ghost next = list.deep_view().take(i as int + 1);
            proof {
                assert(next.drop_last() =~= earlier);
                assert(next.last() == interface@);
                assert(interfaces_writes(next) == interfaces_writes(earlier) + interface_writes(
                    interface@,
                ));
            }
            if let Some(counts) = &interface.packets {
                writes.push(
                    Series::labelled(
                        Family::SystemNetworkPacketsIn,
                        interface.name.as_str(),
                        Sample::from_count(counts.received),
                    ),
                );
                writes.push(
                    Series::labelled(
                        Family::SystemNetworkPacketsOut,
                        interface.name.as_str(),
                        Sample::from_count(counts.transmitted),
                    ),
                );
            }
            proof {
                assert(writes.deep_view() =~= before + interface_writes(interface@));
                assert(before + interface_writes(interface@) =~= done + interfaces_writes(next));
            }
            i += 1;
        }
        assert(list.deep_view().take(i as int) =~= list.deep_view());
    }
    proof {
        assert(writes.deep_view() =~= done + network_writes(stats@.interfaces));
    }
    writes
}

/// Refreshes the host-level gauges from one reading of the host. Gauges of
/// absent figures keep their previous value.
pub fn collect_system(registry: &mut MetricRegistry, stats: &SystemStats)
    requires
        old(registry).wf(),
    ensures
        final(registry).wf(),
        final(registry)@ == apply(old(registry)@, system_writes(stats@)),
{
    let writes = plan_system(stats);
    registry.apply(&writes);
}

/// Every write of the list is to a family that describes the host.
pub open spec fn all_system(writes: Seq<SeriesView>) -> bool {
    forall|k: int| 0 <= k < writes.len() ==> (#[trigger] writes[k]).family.is_system()
}

/// The system stats collector writes to the families that describe the host,
/// and to no other.
pub proof fn lemma_system_writes_are_system(stats: SystemStatsView)
    ensures
        all_system(system_writes(stats)),
{
    if stats.interfaces is Some {
        lemma_interfaces_writes_are_system(stats.interfaces->0);
    }
}

/// The writes for a list of network interfaces are to families that describe
/// the host.
pub proof fn lemma_interfaces_writes_are_system(list: Seq<InterfaceView>)
    ensures
        all_system(interfaces_writes(list)),
    decreases list.len(),
{
    if list.len() > 0 {
        lemma_interfaces_writes_are_system(list.drop_last());
    }
}

/// The writes for a list of network interfaces are to families keyed by an
/// interface.
pub proof fn lemma_interfaces_writes_labelled(list: Seq<InterfaceView>)
    ensures
        all_labelled(interfaces_writes(list), Labels::Interface),
    decreases list.len(),
{
    if list.len() > 0 {
        lemma_interfaces_writes_labelled(list.drop_last());
    }
}

} // verus!
