//! What holds of the host gauges.

use crate::family::{Family, Labels};
use crate::model::{
    apply, last_write, lemma_apply, lemma_last_write_concat, lemma_last_write_none,
    lemma_last_write_other_labels, read, slot, well_formed, SeriesView,
};
use crate::refresh::{cycle_writes, lemma_reports_writes_labelled, reports_writes, HubReportView};
use crate::sample::{lemma_bounded_percent, Sample};
use crate::system::{
    all_system, boot_writes, cpu_writes, disk_usage, disk_writes, interface_writes,
    interfaces_writes, lemma_interfaces_writes_labelled, lemma_space_bounds,
    lemma_system_writes_are_system, load_writes, memory_usage, memory_writes, network_writes,
    system_writes, total_space, uptime_writes, InterfaceView, MemoryReading, MountReading,
    PacketCounts, SystemStatsView,
};
use vstd::prelude::*;

verus! {

/// With a total above zero the memory usage gauge lies between 0 % and 100 %,
/// whatever is reported as free.
pub proof fn law_memory_usage_bounded(m: MemoryReading)
    requires
        m.total > 0,
    ensures
        memory_usage(m).within_hundred(),
{
    lemma_bounded_percent(memory_usage(m));
}

/// Where the filesystems have no space at all the disk usage gauge is 0;
/// otherwise it lies between 0 % and 100 %.
pub proof fn law_disk_usage_bounded(mounts: Seq<MountReading>)
    requires
        mounts.len() <= usize::MAX,
    ensures
        total_space(mounts) == 0 ==> disk_usage(mounts) == Sample::Whole(0),
        total_space(mounts) != 0 ==> disk_usage(mounts).within_hundred(),
{
    lemma_space_bounds(mounts);
    assert(mounts.len() * u64::MAX <= u64::MAX * u64::MAX) by (nonlinear_arith)
        requires
            mounts.len() <= u64::MAX,
    ;
    if total_space(mounts) != 0 {
        lemma_bounded_percent(disk_usage(mounts));
    }
}

/// What one reading of the host gives a scalar gauge: the figure, or nothing
/// where the figure is absent.
pub open spec fn scalar_reading(stats: SystemStatsView, family: Family) -> Option<Sample> {
    match family {
        Family::SystemCpuLoad => match stats.cpu_load {
            Some(bits) => Some(Sample::Real { bits }),
            None => None,
        },
        Family::SystemMemoryUsage => match stats.memory {
            Some(m) => Some(memory_usage(m)),
            None => None,
        },
        Family::SystemFreeDiskSpace => match stats.mounts {
            Some(list) => Some(disk_usage(list)),
            None => None,
        },
        Family::SystemUptime => match stats.uptime {
            Some(seconds) => Some(Sample::Whole(seconds as i128)),
            None => None,
        },
        Family::SystemBootTime => match stats.boot_time {
            Some(timestamp) => Some(Sample::Whole(timestamp as i128)),
            None => None,
        },
        _ => None,
    }
}

/// What one reading of the host gives the load average of an interval.
pub open spec fn load_reading(stats: SystemStatsView, interval: Seq<char>) -> Option<Sample> {
    match stats.load_average {
        Some(load) => if interval == "1_min"@ {
            Some(Sample::Real { bits: load.one })
        } else if interval == "5_min"@ {
            Some(Sample::Real { bits: load.five })
        } else if interval == "15_min"@ {
            Some(Sample::Real { bits: load.fifteen })
        } else {
            None
        },
        None => None,
    }
}

/// The counters of the last interface of the list that has the name `name`
/// and whose counters could be read.
pub open spec fn last_counts(list: Seq<InterfaceView>, name: Seq<char>) -> Option<PacketCounts>
    decreases list.len(),
{
    if list.len() == 0 {
        None
    } else if list.last().name == name && list.last().packets is Some {
        list.last().packets
    } else {
        last_counts(list.drop_last(), name)
    }
}

/// What one reading of the host gives the counters of an interface.
pub open spec fn interface_reading(stats: SystemStatsView, name: Seq<char>) -> Option<
    PacketCounts,
> {
    match stats.interfaces {
        Some(list) => last_counts(list, name),
        None => None,
    }
}

/// The seven parts of the writes of one reading, each with what it gives one
/// gauge, put together.
proof fn lemma_system_parts(stats: SystemStatsView, family: Family, labels: Seq<Seq<char>>)
    ensures
        last_write(system_writes(stats), family, labels) == {
            let network = last_write(network_writes(stats.interfaces), family, labels);
            let boot = last_write(boot_writes(stats.boot_time), family, labels);
            let uptime = last_write(uptime_writes(stats.uptime), family, labels);
            let load = last_write(load_writes(stats.load_average), family, labels);
            let disk = last_write(disk_writes(stats.mounts), family, labels);
            let memory = last_write(memory_writes(stats.memory), family, labels);
            let cpu = last_write(cpu_writes(stats.cpu_load), family, labels);
            if network is Some {
                network
            } else if boot is Some {
                boot
            } else if uptime is Some {
                uptime
            } else if load is Some {
                load
            } else if disk is Some {
                disk
            } else if memory is Some {
                memory
            } else {
                cpu
            }
        },
{
    let a = cpu_writes(stats.cpu_load);
    let b = a + memory_writes(stats.memory);
    let c = b + disk_writes(stats.mounts);
    let d = c + load_writes(stats.load_average);
    let e = d + uptime_writes(stats.uptime);
    let f = e + boot_writes(stats.boot_time);
    lemma_last_write_concat(a, memory_writes(stats.memory), family, labels);
    lemma_last_write_concat(b, disk_writes(stats.mounts), family, labels);
    lemma_last_write_concat(c, load_writes(stats.load_average), family, labels);
    lemma_last_write_concat(d, uptime_writes(stats.uptime), family, labels);
    lemma_last_write_concat(e, boot_writes(stats.boot_time), family, labels);
    lemma_last_write_concat(f, network_writes(stats.interfaces), family, labels);
}

/// The writes for the network interfaces give no value to a gauge that is not
/// keyed by an interface.
proof fn lemma_network_spares(stats: SystemStatsView, family: Family, labels: Seq<Seq<char>>)
    requires
        family.labels() != Labels::Interface,
    ensures
        last_write(network_writes(stats.interfaces), family, labels) is None,
{
    if stats.interfaces is Some {
        lemma_interfaces_writes_labelled(stats.interfaces->0);
    }
    lemma_last_write_other_labels(
        network_writes(stats.interfaces),
        Labels::Interface,
        family,
        labels,
    );
}

/// What one reading of the host does to a scalar gauge.
pub proof fn lemma_scalar_effect(stats: SystemStatsView, family: Family)
    requires
        family.labels() == Labels::Scalar,
    ensures
        last_write(system_writes(stats), family, Seq::empty()) == scalar_reading(stats, family),
{
    reveal_with_fuel(last_write, 4);
    lemma_system_parts(stats, family, Seq::empty());
    lemma_network_spares(stats, family, Seq::empty());
}

/// What one reading of the host does to the load average of an interval.
pub proof fn lemma_load_effect(stats: SystemStatsView, interval: Seq<char>)
    ensures
        last_write(system_writes(stats), Family::SystemLoadAverage, seq![interval])
            == load_reading(stats, interval),
{
    reveal_with_fuel(last_write, 4);
    reveal_strlit("1_min");
    reveal_strlit("5_min");
    reveal_strlit("15_min");
    let labels = seq![interval];
    lemma_system_parts(stats, Family::SystemLoadAverage, labels);
    lemma_network_spares(stats, Family::SystemLoadAverage, labels);
    if stats.load_average is Some {
        let ws = load_writes(stats.load_average);
        let two = ws.drop_last();
        let one = two.drop_last();
        assert(ws.last() == ws[2] && two.last() == ws[1] && one.last() == ws[0]);
        assert(one.drop_last().len() == 0);
        assert(ws[0].fits() && ws[1].fits() && ws[2].fits());
        assert("1_min"@[0] != "5_min"@[0]);
        assert("1_min"@.len() != "15_min"@.len());
        assert("5_min"@.len() != "15_min"@.len());
        assert(ws[0].labels[0] == "1_min"@);
        assert(ws[1].labels[0] == "5_min"@);
        assert(ws[2].labels[0] == "15_min"@);
        assert(labels[0] == interval);
        assert(ws[0].keyed(Family::SystemLoadAverage, labels) <==> interval == "1_min"@) by {
            if interval == "1_min"@ {
                assert(ws[0].labels =~= labels);
            }
        }
        assert(ws[1].keyed(Family::SystemLoadAverage, labels) <==> interval == "5_min"@) by {
            if interval == "5_min"@ {
                assert(ws[1].labels =~= labels);
            }
        }
        assert(ws[2].keyed(Family::SystemLoadAverage, labels) <==> interval == "15_min"@) by {
            if interval == "15_min"@ {
                assert(ws[2].labels =~= labels);
            }
        }
    }
}

/// What a list of interfaces does to the counters of one interface.
pub proof fn lemma_interfaces_effect(list: Seq<InterfaceView>, name: Seq<char>)
    ensures
        last_write(interfaces_writes(list), Family::SystemNetworkPacketsIn, seq![name])
            == match last_counts(list, name) {
            Some(counts) => Some(Sample::Whole(counts.received as i128)),
            None => None,
        },
        last_write(interfaces_writes(list), Family::SystemNetworkPacketsOut, seq![name])
            == match last_counts(list, name) {
            Some(counts) => Some(Sample::Whole(counts.transmitted as i128)),
            None => None,
        },
    decreases list.len(),
{
    reveal_with_fuel(last_write, 3);
    if list.len() > 0 {
        let last = list.last();
        let tail = interface_writes(last);
        lemma_interfaces_effect(list.drop_last(), name);
        lemma_last_write_concat(
            interfaces_writes(list.drop_last()),
            tail,
            Family::SystemNetworkPacketsIn,
            seq![name],
        );
        lemma_last_write_concat(
            interfaces_writes(list.drop_last()),
            tail,
            Family::SystemNetworkPacketsOut,
            seq![name],
        );
        if last.packets is Some {
            assert(tail[0].labels[0] == last.name);
            assert(tail[1].labels[0] == last.name);
            assert(seq![name][0] == name);
            if last.name == name {
                assert(tail[0].labels =~= seq![name]);
                assert(tail[1].labels =~= seq![name]);
            }
        }
    }
}

/// After the system stats collector has run, a scalar gauge whose figure was
/// obtained reads exactly that figure, and one whose figure is absent reads
/// what it read before: it is skipped, never unset.
pub proof fn law_system_scalar(before: Seq<SeriesView>, stats: SystemStatsView, family: Family)
    requires
        well_formed(before),
        family.labels() == Labels::Scalar,
    ensures
        read(apply(before, system_writes(stats)), family, Seq::empty()) == match scalar_reading(
            stats,
            family,
        ) {
            Some(value) => Some(value),
            None => read(before, family, Seq::empty()),
        },
{
    lemma_scalar_effect(stats, family);
    lemma_apply(before, system_writes(stats), family, Seq::empty());
}

/// After the system stats collector has run, the load average of each of the
/// three intervals reads the figure that was obtained; where the load
/// averages are absent, and for any other interval name, the gauge reads what
/// it read before.
pub proof fn law_system_load(before: Seq<SeriesView>, stats: SystemStatsView, interval: Seq<char>)
    requires
        well_formed(before),
    ensures
        read(apply(before, system_writes(stats)), Family::SystemLoadAverage, seq![interval])
            == match load_reading(stats, interval) {
            Some(value) => Some(value),
            None => read(before, Family::SystemLoadAverage, seq![interval]),
        },
{
    lemma_load_effect(stats, interval);
    lemma_apply(before, system_writes(stats), Family::SystemLoadAverage, seq![interval]);
}

/// After the system stats collector has run, the packet counters of an
/// interface whose statistics were obtained read exactly those statistics; the
/// counters of any other interface read what they read before.
pub proof fn law_system_interface(before: Seq<SeriesView>, stats: SystemStatsView, name: Seq<char>)
    requires
        well_formed(before),
    ensures
        read(apply(before, system_writes(stats)), Family::SystemNetworkPacketsIn, seq![name])
            == match interface_reading(stats, name) {
            Some(counts) => Some(Sample::Whole(counts.received as i128)),
            None => read(before, Family::SystemNetworkPacketsIn, seq![name]),
        },
        read(apply(before, system_writes(stats)), Family::SystemNetworkPacketsOut, seq![name])
            == match interface_reading(stats, name) {
            Some(counts) => Some(Sample::Whole(counts.transmitted as i128)),
            None => read(before, Family::SystemNetworkPacketsOut, seq![name]),
        },
{
    reveal_with_fuel(last_write, 4);
    lemma_system_parts(stats, Family::SystemNetworkPacketsIn, seq![name]);
    lemma_system_parts(stats, Family::SystemNetworkPacketsOut, seq![name]);
    if stats.interfaces is Some {
        lemma_interfaces_effect(stats.interfaces->0, name);
    }
    lemma_apply(before, system_writes(stats), Family::SystemNetworkPacketsIn, seq![name]);
    lemma_apply(before, system_writes(stats), Family::SystemNetworkPacketsOut, seq![name]);
}

/// The hub status collector leaves the host gauges alone: after a whole
/// refresh cycle a gauge of a family that is not keyed by a hub reads what the
/// system stats collector left in it.
pub proof fn law_cycle_host_gauge(
    before: Seq<SeriesView>,
    stats: SystemStatsView,
    reports: Seq<HubReportView>,
    family: Family,
    labels: Seq<Seq<char>>,
)
    requires
        well_formed(before),
        family.labels() != Labels::Hub,
    ensures
        read(apply(before, cycle_writes(stats, reports)), family, labels) == read(
            apply(before, system_writes(stats)),
            family,
            labels,
        ),
{
    lemma_reports_writes_labelled(reports);
    lemma_last_write_other_labels(reports_writes(reports), Labels::Hub, family, labels);
    lemma_last_write_concat(system_writes(stats), reports_writes(reports), family, labels);
    lemma_apply(before, cycle_writes(stats, reports), family, labels);
    lemma_apply(before, system_writes(stats), family, labels);
}

/// Without hubs a refresh cycle writes host gauges only: from a registry that
/// holds nothing but host gauges, the empty one included, it leaves nothing
/// but host gauges.
pub proof fn law_no_hubs_host_only(before: Seq<SeriesView>, stats: SystemStatsView)
    requires
        well_formed(before),
        all_system(before),
    ensures
        all_system(apply(before, cycle_writes(stats, Seq::empty()))),
{
    let writes = cycle_writes(stats, Seq::empty());
    let after = apply(before, writes);
    lemma_system_writes_are_system(stats);
    assert(writes =~= system_writes(stats));
    assert forall|k: int| 0 <= k < after.len() implies (#[trigger] after[k]).family.is_system() by {
        let family = after[k].family;
        let labels = after[k].labels;
        assert(after[k].keyed(family, labels));
        lemma_apply(before, writes, family, labels);
        if !family.is_system() {
            assert forall|j: int| 0 <= j < writes.len() implies !((#[trigger] writes[j]).fits()
                && writes[j].keyed(family, labels)) by {
                assert(writes[j].family.is_system());
            }
            lemma_last_write_none(writes, family, labels);
            let i = slot(before, family, labels);
            assert(before[i].keyed(family, labels));
            assert(before[i].family.is_system());
        }
    }
}

} // verus!
