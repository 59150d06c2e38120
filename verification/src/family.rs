//! The fixed catalog of gauge families.

use vstd::prelude::*;

verus! {

/// The label set of a family.
#[derive(Clone, Copy, Debug, PartialEq, Eq, Structural)]
pub enum Labels {
    /// A scalar gauge: no labels.
    Scalar,
    /// Keyed by the name of an averaging interval.
    Interval,
    /// Keyed by the name of a network interface.
    Interface,
    /// Keyed by the name of a hub.
    Hub,
    /// Keyed by the name of a hub and the name of a user.
    HubUser,
}

impl Labels {
    /// How many label values a series of this label set carries.
    pub open spec fn arity(self) -> nat {
        match self {
            Labels::Scalar => 0,
            Labels::Interval => 1,
            Labels::Interface => 1,
            Labels::Hub => 1,
            Labels::HubUser => 2,
        }
    }

    /// The label names, in declaration order.
    pub open spec fn names(self) -> Seq<Seq<char>> {
        match self {
            Labels::Scalar => seq![],
            Labels::Interval => seq!["interval"@],
            Labels::Interface => seq!["interface"@],
            Labels::Hub => seq!["hub"@],
            Labels::HubUser => seq!["hub"@, "user"@],
        }
    }

    /// How many label values a series of this label set carries.
    pub fn count(self) -> (n: usize)
        ensures
            n == self.arity(),
    {
        match self {
            Labels::Scalar => 0,
            Labels::Interval => 1,
            Labels::Interface => 1,
            Labels::Hub => 1,
            Labels::HubUser => 2,
        }
    }
}

/// A gauge family of the catalog. The catalog is fixed: these are all the
/// families that are ever exposed.
#[derive(Clone, Copy, Debug, PartialEq, Eq, Hash, Structural)]
pub enum Family {
    Up,
    Online,
    Sessions,
    SessionsClient,
    SessionsBridge,
    Users,
    Groups,
    MacTables,
    IpTables,
    Logins,
    OutgoingUnicastPackets,
    OutgoingUnicastBytes,
    OutgoingBroadcastPackets,
    OutgoingBroadcastBytes,
    IncomingUnicastPackets,
    IncomingUnicastBytes,
    IncomingBroadcastPackets,
    IncomingBroadcastBytes,
    UserTransferBytes,
    UserTransferPackets,
    SystemCpuLoad,
    SystemMemoryUsage,
    SystemFreeDiskSpace,
    SystemLoadAverage,
    SystemUptime,
    SystemBootTime,
    SystemNetworkPacketsIn,
    SystemNetworkPacketsOut,
}

impl Family {
    /// The label set that every series of the family carries.
    pub open spec fn labels(self) -> Labels {
        match self {
            Family::SystemCpuLoad
            | Family::SystemMemoryUsage
            | Family::SystemFreeDiskSpace
            | Family::SystemUptime
            | Family::SystemBootTime => Labels::Scalar,
            Family::SystemLoadAverage => Labels::Interval,
            Family::SystemNetworkPacketsIn | Family::SystemNetworkPacketsOut => Labels::Interface,
            Family::UserTransferBytes | Family::UserTransferPackets => Labels::HubUser,
            _ => Labels::Hub,
        }
    }

    /// How many label values a series of the family carries.
    pub open spec fn arity(self) -> nat {
        self.labels().arity()
    }

    /// The family describes the host, not a hub.
    pub open spec fn is_system(self) -> bool {
        match self.labels() {
            Labels::Scalar | Labels::Interval | Labels::Interface => true,
            _ => false,
        }
    }

    /// The exposed name of the family.
    pub open spec fn name_text(self) -> Seq<char> {
        match self {
            Family::Up => "softether_up"@,
            Family::Online => "softether_online"@,
            Family::Sessions => "softether_sessions"@,
            Family::SessionsClient => "softether_sessions_client"@,
            Family::SessionsBridge => "softether_sessions_bridge"@,
            Family::Users => "softether_users"@,
            Family::Groups => "softether_groups"@,
            Family::MacTables => "softether_mac_tables"@,
            Family::IpTables => "softether_ip_tables"@,
            Family::Logins => "softether_logins"@,
            Family::OutgoingUnicastPackets => "softether_outgoing_unicast_packets"@,
            Family::OutgoingUnicastBytes => "softether_outgoing_unicast_bytes"@,
            Family::OutgoingBroadcastPackets => "softether_outgoing_broadcast_packets"@,
            Family::OutgoingBroadcastBytes => "softether_outgoing_broadcast_bytes"@,
            Family::IncomingUnicastPackets => "softether_incoming_unicast_packets"@,
            Family::IncomingUnicastBytes => "softether_incoming_unicast_bytes"@,
            Family::IncomingBroadcastPackets => "softether_incoming_broadcast_packets"@,
            Family::IncomingBroadcastBytes => "softether_incoming_broadcast_bytes"@,
            Family::UserTransferBytes => "softether_user_transfer_bytes"@,
            Family::UserTransferPackets => "softether_user_transfer_packets"@,
            Family::SystemCpuLoad => "system_cpu_load"@,
            Family::SystemMemoryUsage => "system_memory_usage"@,
            Family::SystemFreeDiskSpace => "system_free_disk_space"@,
            Family::SystemLoadAverage => "system_load_average"@,
            Family::SystemUptime => "system_uptime"@,
            Family::SystemBootTime => "system_boot_time"@,
            Family::SystemNetworkPacketsIn => "system_network_packets_in"@,
            Family::SystemNetworkPacketsOut => "system_network_packets_out"@,
        }
    }

    /// The help text of the family.
    pub open spec fn help_text(self) -> Seq<char> {
        match self {
            Family::Up => "The last query is successful."@,
            Family::Online => "Hub online."@,
            Family::Sessions => "Number of sessions."@,
            Family::SessionsClient => "Number of client sessions."@,
            Family::SessionsBridge => "Number of bridge sessions."@,
            Family::Users => "Number of users."@,
            Family::Groups => "Number of groups."@,
            Family::MacTables => "Number of entries in MAC table."@,
            Family::IpTables => "Number of entries in IP table."@,
            Family::Logins => "Number of logins."@,
            Family::OutgoingUnicastPackets => "Outgoing unicast transfer in packets."@,
            Family::OutgoingUnicastBytes => "Outgoing unicast transfer in bytes."@,
            Family::OutgoingBroadcastPackets => "Outgoing broadcast transfer in packets."@,
            Family::OutgoingBroadcastBytes => "Outgoing broadcast transfer in bytes."@,
            Family::IncomingUnicastPackets => "Incoming unicast transfer in packets."@,
            Family::IncomingUnicastBytes => "Incoming unicast transfer in bytes."@,
            Family::IncomingBroadcastPackets => "Incoming broadcast transfer in packets."@,
            Family::IncomingBroadcastBytes => "Incoming broadcast transfer in bytes."@,
            Family::UserTransferBytes => "User transfer in bytes."@,
            Family::UserTransferPackets => "User transfer in packets."@,
            Family::SystemCpuLoad => "Current system CPU load as a percentage."@,
            Family::SystemMemoryUsage => "Used memory in the system as a percentage."@,
            Family::SystemFreeDiskSpace => "Free disk space on the system as a percentage."@,
            Family::SystemLoadAverage => "Load average over 1, 5, and 15 minutes."@,
            Family::SystemUptime => "System uptime in seconds."@,
            Family::SystemBootTime => "System boot time in UNIX timestamp."@,
            Family::SystemNetworkPacketsIn => "Number of packets received on the network interface."@,
            Family::SystemNetworkPacketsOut => "Number of packets sent from the network interface."@,
        }
    }

    /// The label set that every series of the family carries.
    pub fn label_set(self) -> (l: Labels)
        ensures
            l == self.labels(),
    {
        match self {
            Family::SystemCpuLoad
            | Family::SystemMemoryUsage
            | Family::SystemFreeDiskSpace
            | Family::SystemUptime
            | Family::SystemBootTime => Labels::Scalar,
            Family::SystemLoadAverage => Labels::Interval,
            Family::SystemNetworkPacketsIn | Family::SystemNetworkPacketsOut => Labels::Interface,
            Family::UserTransferBytes | Family::UserTransferPackets => Labels::HubUser,
            _ => Labels::Hub,
        }
    }

    /// The exposed name of the family.
    pub fn name(self) -> (s: &'static str)
        ensures
            s@ == self.name_text(),
    {
        match self {
            Family::Up => "softether_up",
            Family::Online => "softether_online",
            Family::Sessions => "softether_sessions",
            Family::SessionsClient => "softether_sessions_client",
            Family::SessionsBridge => "softether_sessions_bridge",
            Family::Users => "softether_users",
            Family::Groups => "softether_groups",
            Family::MacTables => "softether_mac_tables",
            Family::IpTables => "softether_ip_tables",
            Family::Logins => "softether_logins",
            Family::OutgoingUnicastPackets => "softether_outgoing_unicast_packets",
            Family::OutgoingUnicastBytes => "softether_outgoing_unicast_bytes",
            Family::OutgoingBroadcastPackets => "softether_outgoing_broadcast_packets",
            Family::OutgoingBroadcastBytes => "softether_outgoing_broadcast_bytes",
            Family::IncomingUnicastPackets => "softether_incoming_unicast_packets",
            Family::IncomingUnicastBytes => "softether_incoming_unicast_bytes",
            Family::IncomingBroadcastPackets => "softether_incoming_broadcast_packets",
            Family::IncomingBroadcastBytes => "softether_incoming_broadcast_bytes",
            Family::UserTransferBytes => "softether_user_transfer_bytes",
            Family::UserTransferPackets => "softether_user_transfer_packets",
            Family::SystemCpuLoad => "system_cpu_load",
            Family::SystemMemoryUsage => "system_memory_usage",
            Family::SystemFreeDiskSpace => "system_free_disk_space",
            Family::SystemLoadAverage => "system_load_average",
            Family::SystemUptime => "system_uptime",
            Family::SystemBootTime => "system_boot_time",
            Family::SystemNetworkPacketsIn => "system_network_packets_in",
            Family::SystemNetworkPacketsOut => "system_network_packets_out",
        }
    }

    /// The help text of the family.
    pub fn help(self) -> (s: &'static str)
        ensures
            s@ == self.help_text(),
    {
        match self {
            Family::Up => "The last query is successful.",
            Family::Online => "Hub online.",
            Family::Sessions => "Number of sessions.",
            Family::SessionsClient => "Number of client sessions.",
            Family::SessionsBridge => "Number of bridge sessions.",
            Family::Users => "Number of users.",
            Family::Groups => "Number of groups.",
            Family::MacTables => "Number of entries in MAC table.",
            Family::IpTables => "Number of entries in IP table.",
            Family::Logins => "Number of logins.",
            Family::OutgoingUnicastPackets => "Outgoing unicast transfer in packets.",
            Family::OutgoingUnicastBytes => "Outgoing unicast transfer in bytes.",
            Family::OutgoingBroadcastPackets => "Outgoing broadcast transfer in packets.",
            Family::OutgoingBroadcastBytes => "Outgoing broadcast transfer in bytes.",
            Family::IncomingUnicastPackets => "Incoming unicast transfer in packets.",
            Family::IncomingUnicastBytes => "Incoming unicast transfer in bytes.",
            Family::IncomingBroadcastPackets => "Incoming broadcast transfer in packets.",
            Family::IncomingBroadcastBytes => "Incoming broadcast transfer in bytes.",
            Family::UserTransferBytes => "User transfer in bytes.",
            Family::UserTransferPackets => "User transfer in packets.",
            Family::SystemCpuLoad => "Current system CPU load as a percentage.",
            Family::SystemMemoryUsage => "Used memory in the system as a percentage.",
            Family::SystemFreeDiskSpace => "Free disk space on the system as a percentage.",
            Family::SystemLoadAverage => "Load average over 1, 5, and 15 minutes.",
            Family::SystemUptime => "System uptime in seconds.",
            Family::SystemBootTime => "System boot time in UNIX timestamp.",
            Family::SystemNetworkPacketsIn => "Number of packets received on the network interface.",
            Family::SystemNetworkPacketsOut => "Number of packets sent from the network interface.",
        }
    }

    /// The label names of the family, in declaration order.
    pub fn label_names(self) -> (names: Vec<&'static str>)
        ensures
            names.deep_view() == self.labels().names(),
    {
        let mut names: Vec<&'static str> = Vec::new();
        match self.label_set() {
            Labels::Scalar => {},
            Labels::Interval => {
                names.push("interval");
            },
            Labels::Interface => {
                names.push("interface");
            },
            Labels::Hub => {
                names.push("hub");
            },
            Labels::HubUser => {
                names.push("hub");
                names.push("user");
            },
        }
        assert(names.deep_view() =~= self.labels().names());
        names
    }
}

} // verus!
