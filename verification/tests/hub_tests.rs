use softether_exporter::family::Family;
use softether_exporter::hub::{collect_hub, failure_line, plan_hub, status_families, HubStatus};
use softether_exporter::registry::{MetricRegistry, Series};
use softether_exporter::sample::Sample;

fn status(online: bool, base: u64) -> HubStatus {
    HubStatus {
        online,
        sessions: base,
        sessions_client: base + 1,
        sessions_bridge: base + 2,
        users: base + 3,
        groups: base + 4,
        mac_tables: base + 5,
        ip_tables: base + 6,
        logins: base + 7,
        outgoing_unicast_packets: base + 8,
        outgoing_unicast_bytes: base + 9,
        outgoing_broadcast_packets: base + 10,
        outgoing_broadcast_bytes: base + 11,
        incoming_unicast_packets: base + 12,
        incoming_unicast_bytes: base + 13,
        incoming_broadcast_packets: base + 14,
        incoming_broadcast_bytes: base + 15,
    }
}

fn hub(name: &str) -> Vec<String> {
    vec![name.to_string()]
}

#[test]
fn status_families_are_the_hub_families() {
    let families = status_families();
    assert_eq!(families.len(), 18);
    assert_eq!(families[0], Family::Up);
    assert_eq!(families[1], Family::Online);
    assert_eq!(families[17], Family::IncomingBroadcastBytes);
    for family in &families {
        assert_eq!(family.label_names(), vec!["hub"]);
    }
}

#[test]
fn gauge_gives_each_family_its_field() {
    let s = status(true, 100);
    assert_eq!(s.gauge(Family::Up), Some(Sample::Whole(1)));
    assert_eq!(s.gauge(Family::Online), Some(Sample::Whole(1)));
    assert_eq!(s.gauge(Family::Sessions), Some(Sample::Whole(100)));
    assert_eq!(s.gauge(Family::SessionsClient), Some(Sample::Whole(101)));
    assert_eq!(s.gauge(Family::SessionsBridge), Some(Sample::Whole(102)));
    assert_eq!(s.gauge(Family::Users), Some(Sample::Whole(103)));
    assert_eq!(s.gauge(Family::Groups), Some(Sample::Whole(104)));
    assert_eq!(s.gauge(Family::MacTables), Some(Sample::Whole(105)));
    assert_eq!(s.gauge(Family::IpTables), Some(Sample::Whole(106)));
    assert_eq!(s.gauge(Family::Logins), Some(Sample::Whole(107)));
    assert_eq!(s.gauge(Family::OutgoingUnicastPackets), Some(Sample::Whole(108)));
    assert_eq!(s.gauge(Family::OutgoingUnicastBytes), Some(Sample::Whole(109)));
    assert_eq!(s.gauge(Family::OutgoingBroadcastPackets), Some(Sample::Whole(110)));
    assert_eq!(s.gauge(Family::OutgoingBroadcastBytes), Some(Sample::Whole(111)));
    assert_eq!(s.gauge(Family::IncomingUnicastPackets), Some(Sample::Whole(112)));
    assert_eq!(s.gauge(Family::IncomingUnicastBytes), Some(Sample::Whole(113)));
    assert_eq!(s.gauge(Family::IncomingBroadcastPackets), Some(Sample::Whole(114)));
    assert_eq!(s.gauge(Family::IncomingBroadcastBytes), Some(Sample::Whole(115)));
    assert_eq!(status(false, 0).gauge(Family::Online), Some(Sample::Whole(0)));
    assert_eq!(status(false, 0).gauge(Family::Up), Some(Sample::Whole(1)));
}

#[test]
fn gauge_has_no_value_for_other_families() {
    let s = status(true, 1);
    for family in [
        Family::UserTransferBytes,
        Family::UserTransferPackets,
        Family::SystemCpuLoad,
        Family::SystemMemoryUsage,
        Family::SystemFreeDiskSpace,
        Family::SystemLoadAverage,
        Family::SystemUptime,
        Family::SystemBootTime,
        Family::SystemNetworkPacketsIn,
        Family::SystemNetworkPacketsOut,
    ] {
        assert_eq!(s.gauge(family), None);
    }
}

#[test]
fn plan_hub_writes_only_up_after_a_failure() {
    let writes = plan_hub("HUB2", &Err("connection refused".to_string()));
    assert_eq!(writes, vec![Series::labelled(Family::Up, "HUB2", Sample::Whole(0))]);
}

#[test]
fn plan_hub_writes_every_field_after_a_success() {
    let s = status(true, 40);
    let writes = plan_hub("HUB1", &Ok(s));
    assert_eq!(writes.len(), 18);
    let families = status_families();
    for (i, w) in writes.iter().enumerate() {
        assert_eq!(w.family, families[i]);
        assert_eq!(w.labels, hub("HUB1"));
        assert_eq!(Some(w.value), s.gauge(families[i]));
    }
    assert_eq!(writes[0], Series::labelled(Family::Up, "HUB1", Sample::Whole(1)));
    assert_eq!(writes[2], Series::labelled(Family::Sessions, "HUB1", Sample::Whole(40)));
}

#[test]
fn plan_hub_carries_the_largest_counters_exactly() {
    let mut s = status(true, 0);
    s.incoming_unicast_bytes = u64::MAX;
    s.sessions = (1 << 53) + 1;
    let writes = plan_hub("H", &Ok(s));
    assert!(writes.contains(&Series::labelled(
        Family::IncomingUnicastBytes,
        "H",
        Sample::Whole(18446744073709551615)
    )));
    assert!(writes.contains(&Series::labelled(
        Family::Sessions,
        "H",
        Sample::Whole(9007199254740993)
    )));
}

#[test]
fn failing_hub_reads_down_and_keeps_every_other_gauge() {
    let mut registry = MetricRegistry::new();
    let s = status(true, 7);
    assert_eq!(collect_hub(&mut registry, "HUB1", &Ok(s)), None);
    let before = registry.snapshot();

    let line = collect_hub(&mut registry, "HUB1", &Err("timeout".to_string()));
    assert_eq!(line, Some("Hub status read failed: HUB1: timeout".to_string()));

    assert_eq!(registry.get(Family::Up, &hub("HUB1")), Some(Sample::Whole(0)));
    for family in status_families() {
        if family != Family::Up {
            assert_eq!(registry.get(family, &hub("HUB1")), s.gauge(family));
        }
    }
    assert_eq!(registry.len(), before.len());
    assert_eq!(registry.snapshot()[1..], before[1..]);
}

#[test]
fn failing_hub_that_never_succeeded_has_only_up() {
    let mut registry = MetricRegistry::new();
    collect_hub(&mut registry, "NEW", &Err("no such hub".to_string()));
    assert_eq!(registry.snapshot(), vec![Series::labelled(Family::Up, "NEW", Sample::Whole(0))]);
    for family in status_families() {
        if family != Family::Up {
            assert_eq!(registry.get(family, &hub("NEW")), None);
        }
    }
}

#[test]
fn succeeding_hub_reads_exactly_the_record() {
    let mut registry = MetricRegistry::new();
    collect_hub(&mut registry, "HUB1", &Ok(status(false, 1)));
    let s = status(true, 1000);
    collect_hub(&mut registry, "HUB1", &Ok(s));
    assert_eq!(registry.len(), 18);
    for family in status_families() {
        assert_eq!(registry.get(family, &hub("HUB1")), s.gauge(family));
    }
}

#[test]
fn hubs_do_not_touch_each_other() {
    let mut registry = MetricRegistry::new();
    let a = status(true, 10);
    let b = status(false, 20);
    collect_hub(&mut registry, "A", &Ok(a));
    collect_hub(&mut registry, "B", &Ok(b));
    collect_hub(&mut registry, "A", &Err("down".to_string()));
    for family in status_families() {
        assert_eq!(registry.get(family, &hub("B")), b.gauge(family));
    }
    assert_eq!(registry.get(Family::Up, &hub("A")), Some(Sample::Whole(0)));
    assert_eq!(registry.get(Family::Sessions, &hub("A")), Some(Sample::Whole(10)));
}

#[test]
fn hub_with_an_empty_name_is_a_hub() {
    let mut registry = MetricRegistry::new();
    collect_hub(&mut registry, "", &Ok(status(true, 3)));
    assert_eq!(registry.get(Family::Up, &hub("")), Some(Sample::Whole(1)));
    assert_eq!(registry.get(Family::Sessions, &hub("")), Some(Sample::Whole(3)));
}

#[test]
fn failure_line_names_the_hub_and_the_error() {
    assert_eq!(failure_line("HUB2", "exit status 1"), "Hub status read failed: HUB2: exit status 1");
    assert_eq!(failure_line("", ""), "Hub status read failed: : ");
}
