//! The hub status collector: what is written for one hub, given what the
//! status reader returned for it.

use crate::family::{Family, Labels};
use crate::model::{
    apply, labelled, last_write, lemma_last_write_at, lemma_last_write_none, SeriesView,
};
use crate::registry::{MetricRegistry, Series};
use crate::sample::Sample;
use vstd::prelude::*;
use vstd::string::*;

verus! {

/// The status of one hub, as the status reader returns it.
#[derive(Clone, Copy, Debug, PartialEq, Eq, Structural)]
pub struct HubStatus {
    pub online: bool,
    pub sessions: u64,
    pub sessions_client: u64,
    pub sessions_bridge: u64,
    pub users: u64,
    pub groups: u64,
    pub mac_tables: u64,
    pub ip_tables: u64,
    pub logins: u64,
    pub outgoing_unicast_packets: u64,
    pub outgoing_unicast_bytes: u64,
    pub outgoing_broadcast_packets: u64,
    pub outgoing_broadcast_bytes: u64,
    pub incoming_unicast_packets: u64,
    pub incoming_unicast_bytes: u64,
    pub incoming_broadcast_packets: u64,
    pub incoming_broadcast_bytes: u64,
}

/// The families that a successful status query writes, in writing order.
pub open spec fn hub_families() -> Seq<Family> {
    seq![
        Family::Up,
        Family::Online,
        Family::Sessions,
        Family::SessionsClient,
        Family::SessionsBridge,
        Family::Users,
        Family::Groups,
        Family::MacTables,
        Family::IpTables,
        Family::Logins,
        Family::OutgoingUnicastPackets,
        Family::OutgoingUnicastBytes,
        Family::OutgoingBroadcastPackets,
        Family::OutgoingBroadcastBytes,
        Family::IncomingUnicastPackets,
        Family::IncomingUnicastBytes,
        Family::IncomingBroadcastPackets,
        Family::IncomingBroadcastBytes,
    ]
}

/// What the gauge of `family` is set to when a status query returned
/// `status`: 1 for `up`, the flag for `online`, and the field of the same name
/// for every count and counter. Families that a status query does not write
/// have no value.
pub open spec fn gauge_of(status: HubStatus, family: Family) -> Option<Sample> {
    match family {
        Family::Up => Some(Sample::Whole(1)),
        Family::Online => Some(Sample::flag(status.online)),
        Family::Sessions => Some(Sample::Whole(status.sessions as i128)),
        Family::SessionsClient => Some(Sample::Whole(status.sessions_client as i128)),
        Family::SessionsBridge => Some(Sample::Whole(status.sessions_bridge as i128)),
        Family::Users => Some(Sample::Whole(status.users as i128)),
        Family::Groups => Some(Sample::Whole(status.groups as i128)),
        Family::MacTables => Some(Sample::Whole(status.mac_tables as i128)),
        Family::IpTables => Some(Sample::Whole(status.ip_tables as i128)),
        Family::Logins => Some(Sample::Whole(status.logins as i128)),
        Family::OutgoingUnicastPackets => Some(
            Sample::Whole(status.outgoing_unicast_packets as i128),
        ),
        Family::OutgoingUnicastBytes => Some(Sample::Whole(status.outgoing_unicast_bytes as i128)),
        Family::OutgoingBroadcastPackets => Some(
            Sample::Whole(status.outgoing_broadcast_packets as i128),
        ),
        Family::OutgoingBroadcastBytes => Some(
            Sample::Whole(status.outgoing_broadcast_bytes as i128),
        ),
        Family::IncomingUnicastPackets => Some(
            Sample::Whole(status.incoming_unicast_packets as i128),
        ),
        Family::IncomingUnicastBytes => Some(Sample::Whole(status.incoming_unicast_bytes as i128)),
        Family::IncomingBroadcastPackets => Some(
            Sample::Whole(status.incoming_broadcast_packets as i128),
        ),
        Family::IncomingBroadcastBytes => Some(
            Sample::Whole(status.incoming_broadcast_bytes as i128),
        ),
        _ => None,
    }
}

/// The writes for a hub whose status query succeeded: one per family of
/// `hub_families`, each keyed by the hub's name.
pub open spec fn status_writes(hub: Seq<char>, status: HubStatus) -> Seq<SeriesView> {
    Seq::new(
        hub_families().len(),
        |i: int| labelled(hub_families()[i], hub, gauge_of(status, hub_families()[i])->0),
    )
}

/// The writes for a hub whose status query failed: `up` becomes 0, and
/// nothing else is touched.
pub open spec fn failure_writes(hub: Seq<char>) -> Seq<SeriesView> {
    seq![labelled(Family::Up, hub, Sample::Whole(0))]
}

/// The outcome of a status query as a mathematical value: the status, or the
/// text of the error.
pub open spec fn outcome_view(outcome: Result<HubStatus, String>) -> Result<HubStatus, Seq<char>> {
    match outcome {
        Ok(status) => Ok(status),
        Err(error) => Err(error@),
    }
}

/// The writes for one hub, given the outcome of its status query.
pub open spec fn hub_writes(hub: Seq<char>, outcome: Result<HubStatus, Seq<char>>) -> Seq<
    SeriesView,
> {
    match outcome {
        Ok(status) => status_writes(hub, status),
        Err(_) => failure_writes(hub),
    }
}

/// The diagnostic line for a failed status query: it names the hub and the
/// error.
pub open spec fn failure_text(hub: Seq<char>, error: Seq<char>) -> Seq<char> {
    "Hub status read failed: "@ + hub + ": "@ + error
}

/// The diagnostic that an outcome calls for: a line for a failure, nothing for
/// a success.
pub open spec fn diagnostic_of(hub: Seq<char>, outcome: Result<HubStatus, Seq<char>>) -> Option<
    Seq<char>,
> {
    match outcome {
        Ok(_) => None,
        Err(error) => Some(failure_text(hub, error)),
    }
}

/// The view of an optional diagnostic line.
pub open spec fn line_view(line: Option<String>) -> Option<Seq<char>> {
    match line {
        Some(text) => Some(text@),
        None => None,
    }
}

/// The families that a successful status query writes, in writing order.
pub fn status_families() -> (families: Vec<Family>)
    ensures
        families@ == hub_families(),
{
    let mut families: Vec<Family> = Vec::new();
    families.push(Family::Up);
    families.push(Family::Online);
    families.push(Family::Sessions);
    families.push(Family::SessionsClient);
    families.push(Family::SessionsBridge);
    families.push(Family::Users);
    families.push(Family::Groups);
    families.push(Family::MacTables);
    families.push(Family::IpTables);
    families.push(Family::Logins);
    families.push(Family::OutgoingUnicastPackets);
    families.push(Family::OutgoingUnicastBytes);
    families.push(Family::OutgoingBroadcastPackets);
    families.push(Family::OutgoingBroadcastBytes);
    families.push(Family::IncomingUnicastPackets);
    families.push(Family::IncomingUnicastBytes);
    families.push(Family::IncomingBroadcastPackets);
    families.push(Family::IncomingBroadcastBytes);
    assert(families@ =~= hub_families());
    families
}

impl HubStatus {
    /// What the gauge of `family` is set to for this status.
    pub fn gauge(&self, family: Family) -> (value: Option<Sample>)
        ensures
            value == gauge_of(*self, family),
    {
        match family {
            Family::Up => Some(Sample::Whole(1)),
            Family::Online => Some(Sample::from_flag(self.online)),
            Family::Sessions => Some(Sample::from_count(self.sessions)),
            Family::SessionsClient => Some(Sample::from_count(self.sessions_client)),
            Family::SessionsBridge => Some(Sample::from_count(self.sessions_bridge)),
            Family::Users => Some(Sample::from_count(self.users)),
            Family::Groups => Some(Sample::from_count(self.groups)),
            Family::MacTables => Some(Sample::from_count(self.mac_tables)),
            Family::IpTables => Some(Sample::from_count(self.ip_tables)),
            Family::Logins => Some(Sample::from_count(self.logins)),
            Family::OutgoingUnicastPackets => Some(
                Sample::from_count(self.outgoing_unicast_packets),
            ),
            Family::OutgoingUnicastBytes => Some(Sample::from_count(self.outgoing_unicast_bytes)),
            Family::OutgoingBroadcastPackets => Some(
                Sample::from_count(self.outgoing_broadcast_packets),
            ),
            Family::OutgoingBroadcastBytes => Some(
                Sample::from_count(self.outgoing_broadcast_bytes),
            ),
            Family::IncomingUnicastPackets => Some(
                Sample::from_count(self.incoming_unicast_packets),
            ),
            Family::IncomingUnicastBytes => Some(Sample::from_count(self.incoming_unicast_bytes)),
            Family::IncomingBroadcastPackets => Some(
                Sample::from_count(self.incoming_broadcast_packets),
            ),
            Family::IncomingBroadcastBytes => Some(
                Sample::from_count(self.incoming_broadcast_bytes),
            ),
            _ => None,
        }
    }
}

/// Decides what is written for one hub. After a successful query every gauge
/// of the hub is set from the returned record; after a failed one only `up`
/// is written, as 0.
pub fn plan_hub(hub: &str, outcome: &Result<HubStatus, String>) -> (writes: Vec<Series>)
    ensures
        writes.deep_view() == hub_writes(hub@, outcome_view(*outcome)),
{
    let mut writes: Vec<Series> = Vec::new();
    match outcome {
        Ok(status) => {
            let families = status_families();
            let mut i: usize = 0;
            while i < families.len()
                invariant
                    i <= families.len(),
                    families@ == hub_families(),
                    writes.len() == i,
                    forall|j: int|
                        0 <= j < i ==> writes[j]@ == labelled(
                            hub_families()[j],
                            hub@,
                            gauge_of(*status, hub_families()[j])->0,
                        ),
                decreases families.len() - i,
            {
                let family = families[i];
                proof {
                    lemma_hub_families_have_gauges(*status, i as int);
                }
                if let Some(value) = status.gauge(family) {
                    writes.push(Series::labelled(family, hub, value));
                }
                i += 1;
            }
            assert(writes.deep_view() =~= status_writes(hub@, *status));
        },
        Err(_) => {
            writes.push(Series::labelled(Family::Up, hub, Sample::Whole(0)));
            assert(writes.deep_view() =~= failure_writes(hub@));
        },
    }
    writes
}

/// The diagnostic line for a failed status query.
pub fn failure_line(hub: &str, error: &str) -> (line: String)
    ensures
        line@ == failure_text(hub@, error@),
{
    let mut line = String::from_str("Hub status read failed: ");
    line.append(hub);
    line.append(": ");
    line.append(error);
    line
}

/// Records the outcome of one hub's status query in the registry, and
/// returns the diagnostic line to emit, if the query failed.
pub fn collect_hub(registry: &mut MetricRegistry, hub: &str, outcome: &Result<HubStatus, String>) -> (line:
    Option<String>)
    requires
        old(registry).wf(),
    ensures
        final(registry).wf(),
        final(registry)@ == apply(old(registry)@, hub_writes(hub@, outcome_view(*outcome))),
        line_view(line) == diagnostic_of(hub@, outcome_view(*outcome)),
{
    let writes = plan_hub(hub, outcome);
    registry.apply(&writes);
    match outcome {
        Ok(_) => None,
        Err(error) => Some(failure_line(hub, error.as_str())),
    }
}

/// Every family of `hub_families` has a gauge value, a hub label, and a
/// place of its own in the list.
pub proof fn lemma_hub_families_have_gauges(status: HubStatus, i: int)
    requires
        0 <= i < hub_families().len(),
    ensures
        gauge_of(status, hub_families()[i]) is Some,
        hub_families()[i].labels() == Labels::Hub,
        forall|j: int| 0 <= j < hub_families().len() && j != i ==> hub_families()[j] != hub_families()[i],
{
}

/// What a successful status query does to one gauge: the gauges of the hub
/// get the values of the record, and no other gauge is written.
pub proof fn lemma_status_effect(
    hub: Seq<char>,
    status: HubStatus,
    family: Family,
    labels: Seq<Seq<char>>,
)
    ensures
        last_write(status_writes(hub, status), family, labels) == if labels == seq![hub]
            && family.labels() == Labels::Hub {
            gauge_of(status, family)
        } else {
            None
        },
{
    let ws = status_writes(hub, status);
    if labels == seq![hub] && family.labels() == Labels::Hub {
        let k = choose|k: int| 0 <= k < hub_families().len() && hub_families()[k] == family;
        lemma_hub_family_listed(family);
        lemma_hub_families_have_gauges(status, k);
        assert(ws[k].fits());
        assert(ws[k].keyed(family, labels));
        assert forall|j: int| k < j < ws.len() implies !((#[trigger] ws[j]).fits() && ws[j].keyed(
            ws[k].family,
            ws[k].labels,
        )) by {
            assert(hub_families()[j] != hub_families()[k]);
        }
        lemma_last_write_at(ws, k);
    } else {
        assert forall|k: int| 0 <= k < ws.len() implies !((#[trigger] ws[k]).fits() && ws[k].keyed(
            family,
            labels,
        )) by {
            lemma_hub_families_have_gauges(status, k);
            if ws[k].keyed(family, labels) {
                assert(ws[k].labels =~= seq![hub]);
                assert(hub_families()[k].labels() == Labels::Hub);
            }
        }
        lemma_last_write_none(ws, family, labels);
    }
}

/// What a failed status query does to one gauge: `up` of the hub becomes 0,
/// and no other gauge is written.
pub proof fn lemma_failure_effect(hub: Seq<char>, family: Family, labels: Seq<Seq<char>>)
    ensures
        last_write(failure_writes(hub), family, labels) == if labels == seq![hub] && family
            == Family::Up {
            Some(Sample::Whole(0))
        } else {
            None
        },
{
    let ws = failure_writes(hub);
    assert(ws[0].fits());
    if labels == seq![hub] && family == Family::Up {
        assert(ws[0].keyed(family, labels));
        lemma_last_write_at(ws, 0);
    } else {
        assert forall|k: int| 0 <= k < ws.len() implies !((#[trigger] ws[k]).fits() && ws[k].keyed(
            family,
            labels,
        )) by {
            if ws[k].keyed(family, labels) {
                assert(ws[k].labels =~= seq![hub]);
            }
        }
        lemma_last_write_none(ws, family, labels);
    }
}

/// The families keyed by a hub alone are exactly those of `hub_families`.
pub proof fn lemma_hub_family_listed(family: Family)
    ensures
        family.labels() == Labels::Hub <==> exists|k: int|
            0 <= k < hub_families().len() && hub_families()[k] == family,
{
    if family.labels() == Labels::Hub {
        let k: int = match family {
            Family::Up => 0,
            Family::Online => 1,
            Family::Sessions => 2,
            Family::SessionsClient => 3,
            Family::SessionsBridge => 4,
            Family::Users => 5,
            Family::Groups => 6,
            Family::MacTables => 7,
            Family::IpTables => 8,
            Family::Logins => 9,
            Family::OutgoingUnicastPackets => 10,
            Family::OutgoingUnicastBytes => 11,
            Family::OutgoingBroadcastPackets => 12,
            Family::OutgoingBroadcastBytes => 13,
            Family::IncomingUnicastPackets => 14,
            Family::IncomingUnicastBytes => 15,
            Family::IncomingBroadcastPackets => 16,
            _ => 17,
        };
        assert(hub_families()[k] == family);
    }
}

} // verus!
