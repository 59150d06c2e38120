use softether_exporter::family::{Family, Labels};
use softether_exporter::registry::{clone_labels, labels_equal, MetricRegistry, Series, WrongArity};
use softether_exporter::sample::Sample;

fn labels(values: &[&str]) -> Vec<String> {
    values.iter().map(|v| v.to_string()).collect()
}

fn catalog() -> Vec<Family> {
    vec![
        Family::Up,
        Family::Online,
        Family::Sessions,
        Family::SessionsClient,
        Family::SessionsBridge,
        Family::Users,
        Family::Groups,
        Family::MacTables,
        Family::IpTables,
        Family::Logins,
        Family::OutgoingUnicastPackets,
        Family::OutgoingUnicastBytes,
        Family::OutgoingBroadcastPackets,
        Family::OutgoingBroadcastBytes,
        Family::IncomingUnicastPackets,
        Family::IncomingUnicastBytes,
        Family::IncomingBroadcastPackets,
        Family::IncomingBroadcastBytes,
        Family::UserTransferBytes,
        Family::UserTransferPackets,
        Family::SystemCpuLoad,
        Family::SystemMemoryUsage,
        Family::SystemFreeDiskSpace,
        Family::SystemLoadAverage,
        Family::SystemUptime,
        Family::SystemBootTime,
        Family::SystemNetworkPacketsIn,
        Family::SystemNetworkPacketsOut,
    ]
}

#[test]
fn catalog_names_are_the_exposed_names() {
    let names: Vec<&str> = catalog().into_iter().map(|f| f.name()).collect();
    assert_eq!(
        names,
        vec![
            "softether_up",
            "softether_online",
            "softether_sessions",
            "softether_sessions_client",
            "softether_sessions_bridge",
            "softether_users",
            "softether_groups",
            "softether_mac_tables",
            "softether_ip_tables",
            "softether_logins",
            "softether_outgoing_unicast_packets",
            "softether_outgoing_unicast_bytes",
            "softether_outgoing_broadcast_packets",
            "softether_outgoing_broadcast_bytes",
            "softether_incoming_unicast_packets",
            "softether_incoming_unicast_bytes",
            "softether_incoming_broadcast_packets",
            "softether_incoming_broadcast_bytes",
            "softether_user_transfer_bytes",
            "softether_user_transfer_packets",
            "system_cpu_load",
            "system_memory_usage",
            "system_free_disk_space",
            "system_load_average",
            "system_uptime",
            "system_boot_time",
            "system_network_packets_in",
            "system_network_packets_out",
        ]
    );
}

#[test]
fn catalog_names_are_unique() {
    let mut names: Vec<&str> = catalog().into_iter().map(|f| f.name()).collect();
    names.sort();
    names.dedup();
    assert_eq!(names.len(), 28);
}

#[test]
fn catalog_help_texts_are_fixed() {
    assert_eq!(Family::Up.help(), "The last query is successful.");
    assert_eq!(Family::Online.help(), "Hub online.");
    assert_eq!(Family::MacTables.help(), "Number of entries in MAC table.");
    assert_eq!(Family::UserTransferPackets.help(), "User transfer in packets.");
    assert_eq!(Family::SystemCpuLoad.help(), "Current system CPU load as a percentage.");
    assert_eq!(Family::SystemLoadAverage.help(), "Load average over 1, 5, and 15 minutes.");
    assert_eq!(
        Family::SystemNetworkPacketsOut.help(),
        "Number of packets sent from the network interface."
    );
    for family in catalog() {
        assert!(!family.help().is_empty());
    }
}

#[test]
fn catalog_label_sets_are_as_declared() {
    for family in catalog() {
        let expected: Vec<&str> = match family {
            Family::SystemCpuLoad
            | Family::SystemMemoryUsage
            | Family::SystemFreeDiskSpace
            | Family::SystemUptime
            | Family::SystemBootTime => vec![],
            Family::SystemLoadAverage => vec!["interval"],
            Family::SystemNetworkPacketsIn | Family::SystemNetworkPacketsOut => vec!["interface"],
            Family::UserTransferBytes | Family::UserTransferPackets => vec!["hub", "user"],
            _ => vec!["hub"],
        };
        assert_eq!(family.label_names(), expected, "family = {:?}", family);
        assert_eq!(family.label_set().count(), expected.len());
    }
}

#[test]
fn label_set_counts() {
    assert_eq!(Labels::Scalar.count(), 0);
    assert_eq!(Labels::Interval.count(), 1);
    assert_eq!(Labels::Interface.count(), 1);
    assert_eq!(Labels::Hub.count(), 1);
    assert_eq!(Labels::HubUser.count(), 2);
}

#[test]
fn new_registry_is_empty() {
    let r = MetricRegistry::new();
    assert_eq!(r.len(), 0);
    assert!(r.snapshot().is_empty());
    assert_eq!(r.get(Family::Up, &labels(&["HUB1"])), None);
    assert_eq!(r.get(Family::SystemUptime, &labels(&[])), None);
}

#[test]
fn set_creates_a_series_for_an_unseen_label_tuple() {
    let mut r = MetricRegistry::new();
    assert_eq!(r.set(Family::Up, labels(&["HUB1"]), Sample::Whole(1)), Ok(()));
    assert_eq!(r.set(Family::Up, labels(&["HUB2"]), Sample::Whole(0)), Ok(()));
    assert_eq!(r.len(), 2);
    assert_eq!(r.get(Family::Up, &labels(&["HUB1"])), Some(Sample::Whole(1)));
    assert_eq!(r.get(Family::Up, &labels(&["HUB2"])), Some(Sample::Whole(0)));
    assert_eq!(r.get(Family::Up, &labels(&["HUB3"])), None);
    assert_eq!(r.get(Family::Online, &labels(&["HUB1"])), None);
}

#[test]
fn set_overwrites_an_existing_series_in_place() {
    let mut r = MetricRegistry::new();
    r.set(Family::Sessions, labels(&["A"]), Sample::Whole(3)).unwrap();
    r.set(Family::Sessions, labels(&["B"]), Sample::Whole(4)).unwrap();
    r.set(Family::Sessions, labels(&["A"]), Sample::Whole(5)).unwrap();
    assert_eq!(r.len(), 2);
    assert_eq!(
        r.snapshot(),
        vec![
            Series { family: Family::Sessions, labels: labels(&["A"]), value: Sample::Whole(5) },
            Series { family: Family::Sessions, labels: labels(&["B"]), value: Sample::Whole(4) },
        ]
    );
}

#[test]
fn set_keeps_families_apart() {
    let mut r = MetricRegistry::new();
    r.set(Family::Users, labels(&["A"]), Sample::Whole(1)).unwrap();
    r.set(Family::Groups, labels(&["A"]), Sample::Whole(2)).unwrap();
    assert_eq!(r.len(), 2);
    assert_eq!(r.get(Family::Users, &labels(&["A"])), Some(Sample::Whole(1)));
    assert_eq!(r.get(Family::Groups, &labels(&["A"])), Some(Sample::Whole(2)));
}

#[test]
fn set_takes_label_values_verbatim() {
    let mut r = MetricRegistry::new();
    r.set(Family::Up, labels(&[""]), Sample::Whole(1)).unwrap();
    r.set(Family::Up, labels(&[" "]), Sample::Whole(2)).unwrap();
    r.set(Family::Up, labels(&["hub"]), Sample::Whole(3)).unwrap();
    r.set(Family::Up, labels(&["HUB"]), Sample::Whole(4)).unwrap();
    r.set(Family::Up, labels(&["hüb\"\n"]), Sample::Whole(5)).unwrap();
    assert_eq!(r.len(), 5);
    assert_eq!(r.get(Family::Up, &labels(&[""])), Some(Sample::Whole(1)));
    assert_eq!(r.get(Family::Up, &labels(&[" "])), Some(Sample::Whole(2)));
    assert_eq!(r.get(Family::Up, &labels(&["hub"])), Some(Sample::Whole(3)));
    assert_eq!(r.get(Family::Up, &labels(&["HUB"])), Some(Sample::Whole(4)));
    assert_eq!(r.get(Family::Up, &labels(&["hüb\"\n"])), Some(Sample::Whole(5)));
}

#[test]
fn set_rejects_a_wrong_number_of_label_values() {
    let mut r = MetricRegistry::new();
    r.set(Family::Up, labels(&["A"]), Sample::Whole(1)).unwrap();
    assert_eq!(
        r.set(Family::Up, labels(&[]), Sample::Whole(9)),
        Err(WrongArity { expected: 1, given: 0 })
    );
    assert_eq!(
        r.set(Family::Up, labels(&["A", "B"]), Sample::Whole(9)),
        Err(WrongArity { expected: 1, given: 2 })
    );
    assert_eq!(
        r.set(Family::SystemUptime, labels(&["x"]), Sample::Whole(9)),
        Err(WrongArity { expected: 0, given: 1 })
    );
    assert_eq!(
        r.set(Family::UserTransferBytes, labels(&["A"]), Sample::Whole(9)),
        Err(WrongArity { expected: 2, given: 1 })
    );
    assert_eq!(
        r.set(Family::SystemLoadAverage, labels(&[]), Sample::Whole(9)),
        Err(WrongArity { expected: 1, given: 0 })
    );
    assert_eq!(r.len(), 1);
    assert_eq!(r.get(Family::Up, &labels(&["A"])), Some(Sample::Whole(1)));
}

#[test]
fn two_label_families_are_keyed_by_both_values() {
    let mut r = MetricRegistry::new();
    r.set(Family::UserTransferBytes, labels(&["H", "alice"]), Sample::Whole(10)).unwrap();
    r.set(Family::UserTransferBytes, labels(&["H", "bob"]), Sample::Whole(20)).unwrap();
    r.set(Family::UserTransferBytes, labels(&["G", "alice"]), Sample::Whole(30)).unwrap();
    r.set(Family::UserTransferBytes, labels(&["H", "alice"]), Sample::Whole(11)).unwrap();
    assert_eq!(r.len(), 3);
    assert_eq!(
        r.get(Family::UserTransferBytes, &labels(&["H", "alice"])),
        Some(Sample::Whole(11))
    );
    assert_eq!(r.get(Family::UserTransferBytes, &labels(&["H", "bob"])), Some(Sample::Whole(20)));
    assert_eq!(
        r.get(Family::UserTransferBytes, &labels(&["G", "alice"])),
        Some(Sample::Whole(30))
    );
    assert_eq!(r.get(Family::UserTransferBytes, &labels(&["alice", "H"])), None);
}

#[test]
fn scalar_gauges_have_one_series() {
    let mut r = MetricRegistry::new();
    r.set(Family::SystemUptime, labels(&[]), Sample::Whole(10)).unwrap();
    r.set(Family::SystemUptime, labels(&[]), Sample::Whole(11)).unwrap();
    assert_eq!(r.len(), 1);
    assert_eq!(r.get(Family::SystemUptime, &labels(&[])), Some(Sample::Whole(11)));
}

#[test]
fn apply_runs_writes_first_to_last() {
    let mut r = MetricRegistry::new();
    let writes = vec![
        Series::labelled(Family::Up, "A", Sample::Whole(1)),
        Series::scalar(Family::SystemUptime, Sample::Whole(7)),
        Series::labelled(Family::Up, "A", Sample::Whole(0)),
        Series { family: Family::Up, labels: labels(&[]), value: Sample::Whole(5) },
        Series::labelled(Family::Up, "B", Sample::Whole(1)),
    ];
    r.apply(&writes);
    assert_eq!(
        r.snapshot(),
        vec![
            Series::labelled(Family::Up, "A", Sample::Whole(0)),
            Series::scalar(Family::SystemUptime, Sample::Whole(7)),
            Series::labelled(Family::Up, "B", Sample::Whole(1)),
        ]
    );
}

#[test]
fn apply_twice_changes_nothing_more() {
    let mut r = MetricRegistry::new();
    r.set(Family::Logins, labels(&["A"]), Sample::Whole(2)).unwrap();
    let writes = vec![
        Series::labelled(Family::Up, "A", Sample::Whole(1)),
        Series::labelled(Family::Up, "A", Sample::Whole(0)),
        Series::labelled(Family::Up, "B", Sample::Whole(1)),
    ];
    r.apply(&writes);
    let once = r.snapshot();
    r.apply(&writes);
    assert_eq!(r.snapshot(), once);
}

#[test]
fn snapshot_is_a_copy() {
    let mut r = MetricRegistry::new();
    r.set(Family::Up, labels(&["A"]), Sample::Whole(1)).unwrap();
    let before = r.snapshot();
    r.set(Family::Up, labels(&["A"]), Sample::Whole(0)).unwrap();
    assert_eq!(before, vec![Series::labelled(Family::Up, "A", Sample::Whole(1))]);
    assert_eq!(r.snapshot(), vec![Series::labelled(Family::Up, "A", Sample::Whole(0))]);
}

#[test]
fn series_constructors() {
    assert_eq!(
        Series::scalar(Family::SystemBootTime, Sample::Whole(-5)),
        Series { family: Family::SystemBootTime, labels: vec![], value: Sample::Whole(-5) }
    );
    assert_eq!(
        Series::labelled(Family::SystemLoadAverage, "1_min", Sample::Real { bits: 7 }),
        Series {
            family: Family::SystemLoadAverage,
            labels: labels(&["1_min"]),
            value: Sample::Real { bits: 7 }
        }
    );
}

#[test]
fn labels_equal_compares_value_by_value() {
    assert!(labels_equal(&labels(&[]), &labels(&[])));
    assert!(labels_equal(&labels(&["a", "b"]), &labels(&["a", "b"])));
    assert!(!labels_equal(&labels(&["a", "b"]), &labels(&["b", "a"])));
    assert!(!labels_equal(&labels(&["a"]), &labels(&["a", ""])));
    assert!(!labels_equal(&labels(&["a"]), &labels(&["A"])));
    assert!(!labels_equal(&labels(&[]), &labels(&[""])));
}

#[test]
fn clone_labels_copies() {
    let l = labels(&["x", "", "zz"]);
    assert_eq!(clone_labels(&l), l);
    assert_eq!(clone_labels(&labels(&[])), labels(&[]));
}

#[test]
fn sample_flags_and_counts() {
    assert_eq!(Sample::from_flag(true), Sample::Whole(1));
    assert_eq!(Sample::from_flag(false), Sample::Whole(0));
    assert_eq!(Sample::from_count(0), Sample::Whole(0));
    assert_eq!(Sample::from_count(u64::MAX), Sample::Whole(18446744073709551615));
}
