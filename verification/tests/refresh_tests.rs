use softether_exporter::family::Family;
use softether_exporter::hub::{status_families, HubStatus};
use softether_exporter::refresh::{collect_hubs, refresh, HubReport};
use softether_exporter::registry::{MetricRegistry, Series};
use softether_exporter::sample::Sample;
use softether_exporter::system::{MemoryReading, MountReading, SystemStats};

fn status(online: bool, sessions: u64) -> HubStatus {
    HubStatus {
        online,
        sessions,
        sessions_client: 2,
        sessions_bridge: 1,
        users: 4,
        groups: 5,
        mac_tables: 6,
        ip_tables: 7,
        logins: 8,
        outgoing_unicast_packets: 9,
        outgoing_unicast_bytes: 10,
        outgoing_broadcast_packets: 11,
        outgoing_broadcast_bytes: 12,
        incoming_unicast_packets: 13,
        incoming_unicast_bytes: 14,
        incoming_broadcast_packets: 15,
        incoming_broadcast_bytes: 16,
    }
}

fn host() -> SystemStats {
    SystemStats {
        cpu_load: Some(0.75f64.to_bits()),
        memory: Some(MemoryReading { total: 100, free: 25 }),
        mounts: Some(vec![MountReading { total: 50, avail: 10 }]),
        load_average: None,
        uptime: Some(42),
        boot_time: None,
        interfaces: None,
    }
}

fn ok(hub: &str, s: HubStatus) -> HubReport {
    HubReport { hub: hub.to_string(), outcome: Ok(s) }
}

fn failed(hub: &str, error: &str) -> HubReport {
    HubReport { hub: hub.to_string(), outcome: Err(error.to_string()) }
}

fn hub(name: &str) -> Vec<String> {
    vec![name.to_string()]
}

fn up_hubs(registry: &MetricRegistry) -> Vec<String> {
    let mut names: Vec<String> = registry
        .snapshot()
        .into_iter()
        .filter(|s| s.family == Family::Up)
        .map(|s| s.labels[0].clone())
        .collect();
    names.sort();
    names.dedup();
    names
}

#[test]
fn one_hub_up_and_one_hub_down() {
    let mut registry = MetricRegistry::new();
    let reports = vec![ok("HUB1", status(true, 3)), failed("HUB2", "read error")];
    let lines = refresh(&mut registry, &host(), &reports);

    assert_eq!(registry.get(Family::Up, &hub("HUB1")), Some(Sample::Whole(1)));
    assert_eq!(registry.get(Family::Online, &hub("HUB1")), Some(Sample::Whole(1)));
    assert_eq!(registry.get(Family::Sessions, &hub("HUB1")), Some(Sample::Whole(3)));
    assert_eq!(registry.get(Family::Up, &hub("HUB2")), Some(Sample::Whole(0)));
    assert_eq!(registry.get(Family::Online, &hub("HUB2")), None);
    assert_eq!(registry.get(Family::Sessions, &hub("HUB2")), None);
    assert_eq!(lines, vec!["Hub status read failed: HUB2: read error".to_string()]);
}

#[test]
fn a_failure_does_not_stop_the_later_hubs() {
    let mut registry = MetricRegistry::new();
    let reports = vec![
        failed("A", "first"),
        ok("B", status(true, 1)),
        failed("C", "third"),
        ok("D", status(false, 2)),
    ];
    let lines = collect_hubs(&mut registry, &reports);
    assert_eq!(registry.get(Family::Up, &hub("A")), Some(Sample::Whole(0)));
    assert_eq!(registry.get(Family::Up, &hub("B")), Some(Sample::Whole(1)));
    assert_eq!(registry.get(Family::Up, &hub("C")), Some(Sample::Whole(0)));
    assert_eq!(registry.get(Family::Up, &hub("D")), Some(Sample::Whole(1)));
    assert_eq!(registry.get(Family::Online, &hub("D")), Some(Sample::Whole(0)));
    assert_eq!(registry.get(Family::Sessions, &hub("D")), Some(Sample::Whole(2)));
    assert_eq!(
        lines,
        vec![
            "Hub status read failed: A: first".to_string(),
            "Hub status read failed: C: third".to_string(),
        ]
    );
}

#[test]
fn refresh_without_hubs_exposes_system_gauges_only() {
    let mut registry = MetricRegistry::new();
    let lines = refresh(&mut registry, &host(), &vec![]);
    assert!(lines.is_empty());
    let snapshot = registry.snapshot();
    assert_eq!(
        snapshot,
        vec![
            Series::scalar(Family::SystemCpuLoad, Sample::Real { bits: 0.75f64.to_bits() }),
            Series::scalar(Family::SystemMemoryUsage, Sample::Percent { part: 75, whole: 100 }),
            Series::scalar(Family::SystemFreeDiskSpace, Sample::Percent { part: 40, whole: 50 }),
            Series::scalar(Family::SystemUptime, Sample::Whole(42)),
        ]
    );
    for series in &snapshot {
        assert!(series.family.name().starts_with("system_"));
    }
}

#[test]
fn refresh_runs_the_host_before_the_hubs() {
    let mut registry = MetricRegistry::new();
    refresh(&mut registry, &host(), &vec![failed("H", "x")]);
    let snapshot = registry.snapshot();
    assert_eq!(snapshot.len(), 5);
    assert_eq!(snapshot[0].family, Family::SystemCpuLoad);
    assert_eq!(snapshot[4], Series::labelled(Family::Up, "H", Sample::Whole(0)));
}

#[test]
fn second_refresh_on_the_same_inputs_changes_nothing() {
    let mut registry = MetricRegistry::new();
    let reports = vec![
        ok("HUB1", status(true, 3)),
        failed("HUB2", "down"),
        ok("HUB1", status(false, 9)),
        failed("HUB3", "down"),
        ok("HUB3", status(true, 1)),
    ];
    let first_lines = refresh(&mut registry, &host(), &reports);
    let once = registry.snapshot();
    let second_lines = refresh(&mut registry, &host(), &reports);
    assert_eq!(registry.snapshot(), once);
    assert_eq!(first_lines, second_lines);
}

#[test]
fn last_report_of_a_hub_decides() {
    let mut registry = MetricRegistry::new();
    let reports = vec![ok("H", status(true, 3)), failed("H", "later"), ok("G", status(true, 5))];
    refresh(&mut registry, &host(), &reports);
    assert_eq!(registry.get(Family::Up, &hub("H")), Some(Sample::Whole(0)));
    assert_eq!(registry.get(Family::Sessions, &hub("H")), Some(Sample::Whole(3)));

    let reports = vec![failed("H", "sooner"), ok("H", status(false, 4))];
    refresh(&mut registry, &host(), &reports);
    assert_eq!(registry.get(Family::Up, &hub("H")), Some(Sample::Whole(1)));
    assert_eq!(registry.get(Family::Online, &hub("H")), Some(Sample::Whole(0)));
    assert_eq!(registry.get(Family::Sessions, &hub("H")), Some(Sample::Whole(4)));
    assert_eq!(registry.get(Family::Sessions, &hub("G")), Some(Sample::Whole(5)));
}

#[test]
fn two_scrapes_of_two_hubs_give_two_hub_labels() {
    let mut registry = MetricRegistry::new();
    refresh(&mut registry, &host(), &vec![ok("HUB1", status(true, 3)), failed("HUB2", "e")]);
    assert_eq!(up_hubs(&registry), vec!["HUB1".to_string(), "HUB2".to_string()]);
    refresh(&mut registry, &host(), &vec![failed("HUB1", "e"), ok("HUB2", status(true, 1))]);
    assert_eq!(up_hubs(&registry), vec!["HUB1".to_string(), "HUB2".to_string()]);
    let up_series =
        registry.snapshot().into_iter().filter(|s| s.family == Family::Up).count();
    assert_eq!(up_series, 2);
    assert_eq!(registry.len(), 4 + 2 * 18);
}

#[test]
fn a_hub_that_is_no_longer_queried_stays_exposed() {
    let mut registry = MetricRegistry::new();
    refresh(&mut registry, &host(), &vec![ok("OLD", status(true, 3)), ok("KEPT", status(true, 1))]);
    refresh(&mut registry, &host(), &vec![ok("KEPT", status(true, 2))]);
    assert_eq!(up_hubs(&registry), vec!["KEPT".to_string(), "OLD".to_string()]);
    for family in status_families() {
        assert_eq!(registry.get(family, &hub("OLD")), status(true, 3).gauge(family));
    }
}

#[test]
fn an_interface_named_like_a_hub_is_another_series() {
    let mut registry = MetricRegistry::new();
    let mut stats = host();
    stats.interfaces = Some(vec![softether_exporter::system::InterfaceReading {
        name: "HUB1".to_string(),
        packets: Some(softether_exporter::system::PacketCounts { received: 5, transmitted: 6 }),
    }]);
    refresh(&mut registry, &stats, &vec![failed("HUB1", "e")]);
    assert_eq!(registry.get(Family::Up, &hub("HUB1")), Some(Sample::Whole(0)));
    assert_eq!(registry.get(Family::SystemNetworkPacketsIn, &hub("HUB1")), Some(Sample::Whole(5)));
    assert_eq!(
        registry.get(Family::SystemNetworkPacketsOut, &hub("HUB1")),
        Some(Sample::Whole(6))
    );
}
