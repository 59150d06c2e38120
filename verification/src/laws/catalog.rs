//! What holds of the catalog of families.

use crate::family::Family;
use vstd::prelude::*;

verus! {

/// What tells the names of the catalog apart: the length of a name, its
/// eleventh character, and its sixth character from the end.
pub open spec fn name_mark(name: Seq<char>) -> (int, char, char) {
    (name.len() as int, name[10], name[name.len() - 6])
}

/// The mark of the name of each family.
pub open spec fn family_mark(family: Family) -> (int, char, char) {
    match family {
        Family::Up => (12, 'u', 'h'),
        Family::Online => (16, 'o', 'o'),
        Family::Sessions => (18, 's', 's'),
        Family::SessionsClient => (25, 's', 'c'),
        Family::SessionsBridge => (25, 's', 'b'),
        Family::Users => (15, 'u', '_'),
        Family::Groups => (16, 'g', 'g'),
        Family::MacTables => (20, 'm', 't'),
        Family::IpTables => (19, 'i', 't'),
        Family::Logins => (16, 'l', 'l'),
        Family::OutgoingUnicastPackets => (34, 'o', 'a'),
        Family::OutgoingUnicastBytes => (32, 'o', '_'),
        Family::OutgoingBroadcastPackets => (36, 'o', 'a'),
        Family::OutgoingBroadcastBytes => (34, 'o', '_'),
        Family::IncomingUnicastPackets => (34, 'i', 'a'),
        Family::IncomingUnicastBytes => (32, 'i', '_'),
        Family::IncomingBroadcastPackets => (36, 'i', 'a'),
        Family::IncomingBroadcastBytes => (34, 'i', '_'),
        Family::UserTransferBytes => (29, 'u', '_'),
        Family::UserTransferPackets => (31, 'u', 'a'),
        Family::SystemCpuLoad => (15, '_', 'u'),
        Family::SystemMemoryUsage => (19, 'o', '_'),
        Family::SystemFreeDiskSpace => (22, 'e', '_'),
        Family::SystemLoadAverage => (19, 'd', 'v'),
        Family::SystemUptime => (13, 'i', 'u'),
        Family::SystemBootTime => (16, 't', 't'),
        Family::SystemNetworkPacketsIn => (25, 'w', 'e'),
        Family::SystemNetworkPacketsOut => (26, 'w', 't'),
    }
}

/// The name of a family has the mark of the family.
pub proof fn lemma_name_mark(family: Family)
    ensures
        name_mark(family.name_text()) == family_mark(family),
{
    reveal_strlit("softether_up");
    reveal_strlit("softether_online");
    reveal_strlit("softether_sessions");
    reveal_strlit("softether_sessions_client");
    reveal_strlit("softether_sessions_bridge");
    reveal_strlit("softether_users");
    reveal_strlit("softether_groups");
    reveal_strlit("softether_mac_tables");
    reveal_strlit("softether_ip_tables");
    reveal_strlit("softether_logins");
    reveal_strlit("softether_outgoing_unicast_packets");
    reveal_strlit("softether_outgoing_unicast_bytes");
    reveal_strlit("softether_outgoing_broadcast_packets");
    reveal_strlit("softether_outgoing_broadcast_bytes");
    reveal_strlit("softether_incoming_unicast_packets");
    reveal_strlit("softether_incoming_unicast_bytes");
    reveal_strlit("softether_incoming_broadcast_packets");
    reveal_strlit("softether_incoming_broadcast_bytes");
    reveal_strlit("softether_user_transfer_bytes");
    reveal_strlit("softether_user_transfer_packets");
    reveal_strlit("system_cpu_load");
    reveal_strlit("system_memory_usage");
    reveal_strlit("system_free_disk_space");
    reveal_strlit("system_load_average");
    reveal_strlit("system_uptime");
    reveal_strlit("system_boot_time");
    reveal_strlit("system_network_packets_in");
    reveal_strlit("system_network_packets_out");
}

/// No two families of the catalog are exposed under the same name.
pub proof fn law_names_unique(a: Family, b: Family)
    requires
        a != b,
    ensures
        a.name_text() != b.name_text(),
{
    lemma_name_mark(a);
    lemma_name_mark(b);
    assert(family_mark(a) != family_mark(b));
}

} // verus!
