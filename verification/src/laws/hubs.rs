//! What holds of the hub gauges: after one status query, after a whole
//! refresh cycle, and over any number of cycles.

use crate::family::{Family, Labels};
use crate::hub::{
    failure_writes, gauge_of, hub_writes, lemma_failure_effect, lemma_status_effect,
    status_writes, HubStatus,
};
use crate::model::{
    apply, holds, last_write, lemma_apply, lemma_apply_idempotent, lemma_apply_well_formed,
    lemma_last_write_concat, lemma_last_write_none, read, well_formed, SeriesView,
};
use crate::refresh::{cycle_writes, reports_writes, HubReportView};
use crate::sample::Sample;
use crate::system::{lemma_system_writes_are_system, system_writes, SystemStatsView};
use vstd::prelude::*;
use vstd::set_lib::lemma_len_subset;

verus! {

/// What the last report of the list that names `hub` says, if any report
/// names it.
pub open spec fn last_report(reports: Seq<HubReportView>, hub: Seq<char>) -> Option<
    Result<HubStatus, Seq<char>>,
>
    decreases reports.len(),
{
    if reports.len() == 0 {
        None
    } else if reports.last().hub == hub {
        Some(reports.last().outcome)
    } else {
        last_report(reports.drop_last(), hub)
    }
}

/// The status of the last successful report of the list that names `hub`, if
/// there is one.
pub open spec fn last_status(reports: Seq<HubReportView>, hub: Seq<char>) -> Option<HubStatus>
    decreases reports.len(),
{
    if reports.len() == 0 {
        None
    } else if reports.last().hub == hub && reports.last().outcome is Ok {
        Some(reports.last().outcome->Ok_0)
    } else {
        last_status(reports.drop_last(), hub)
    }
}

/// What `up` of a hub reads after a list of reports, as far as the list
/// decides it: 1 or 0 as the last report that names the hub succeeded or
/// failed.
pub open spec fn up_of(report: Option<Result<HubStatus, Seq<char>>>) -> Option<Sample> {
    match report {
        Some(Ok(_)) => Some(Sample::Whole(1)),
        Some(Err(_)) => Some(Sample::Whole(0)),
        None => None,
    }
}

/// After a failed status query `up` of the hub reads 0, and every other gauge,
/// of this hub or of anything else, reads what it read before: nothing is
/// reset.
pub proof fn law_failed_query(
    before: Seq<SeriesView>,
    hub: Seq<char>,
    error: Seq<char>,
    family: Family,
    labels: Seq<Seq<char>>,
)
    requires
        well_formed(before),
    ensures
        read(apply(before, hub_writes(hub, Err(error))), Family::Up, seq![hub]) == Some(
            Sample::Whole(0),
        ),
        !(family == Family::Up && labels == seq![hub]) ==> read(
            apply(before, hub_writes(hub, Err(error))),
            family,
            labels,
        ) == read(before, family, labels),
{
    let writes = failure_writes(hub);
    lemma_failure_effect(hub, Family::Up, seq![hub]);
    lemma_apply(before, writes, Family::Up, seq![hub]);
    lemma_failure_effect(hub, family, labels);
    lemma_apply(before, writes, family, labels);
}

/// After a successful status query every gauge of the hub reads exactly the
/// value that the returned record gives it, and every gauge of anything else
/// reads what it read before.
pub proof fn law_successful_query(
    before: Seq<SeriesView>,
    hub: Seq<char>,
    status: HubStatus,
    family: Family,
    labels: Seq<Seq<char>>,
)
    requires
        well_formed(before),
    ensures
        family.labels() == Labels::Hub ==> read(
            apply(before, hub_writes(hub, Ok(status))),
            family,
            seq![hub],
        ) == gauge_of(status, family) && gauge_of(status, family) is Some,
        !(family.labels() == Labels::Hub && labels == seq![hub]) ==> read(
            apply(before, hub_writes(hub, Ok(status))),
            family,
            labels,
        ) == read(before, family, labels),
{
    let writes = status_writes(hub, status);
    lemma_status_effect(hub, status, family, seq![hub]);
    lemma_apply(before, writes, family, seq![hub]);
    lemma_status_effect(hub, status, family, labels);
    lemma_apply(before, writes, family, labels);
}

/// What a list of reports does to `up` of a hub.
pub proof fn lemma_reports_up(reports: Seq<HubReportView>, hub: Seq<char>)
    ensures
        last_write(reports_writes(reports), Family::Up, seq![hub]) == up_of(
            last_report(reports, hub),
        ),
    decreases reports.len(),
{
    if reports.len() > 0 {
        let last = reports.last();
        let tail = hub_writes(last.hub, last.outcome);
        lemma_reports_up(reports.drop_last(), hub);
        lemma_last_write_concat(
            reports_writes(reports.drop_last()),
            tail,
            Family::Up,
            seq![hub],
        );
        if last.hub != hub {
            assert(seq![last.hub][0] != seq![hub][0]);
        }
        match last.outcome {
            Ok(status) => lemma_status_effect(last.hub, status, Family::Up, seq![hub]),
            Err(_) => lemma_failure_effect(last.hub, Family::Up, seq![hub]),
        }
    }
}

/// What a list of reports does to a gauge of a hub other than `up`.
pub proof fn lemma_reports_gauge(reports: Seq<HubReportView>, hub: Seq<char>, family: Family)
    requires
        family.labels() == Labels::Hub,
        family != Family::Up,
    ensures
        last_write(reports_writes(reports), family, seq![hub]) == match last_status(reports, hub) {
            Some(status) => gauge_of(status, family),
            None => None,
        },
    decreases reports.len(),
{
    if reports.len() > 0 {
        let last = reports.last();
        let tail = hub_writes(last.hub, last.outcome);
        lemma_reports_gauge(reports.drop_last(), hub, family);
        lemma_last_write_concat(reports_writes(reports.drop_last()), tail, family, seq![hub]);
        if last.hub != hub {
            assert(seq![last.hub][0] != seq![hub][0]);
        }
        match last.outcome {
            Ok(status) => lemma_status_effect(last.hub, status, family, seq![hub]),
            Err(_) => lemma_failure_effect(last.hub, family, seq![hub]),
        }
    }
}

/// The system stats collector writes to no gauge of a hub.
pub proof fn lemma_system_spares_hubs(
    stats: SystemStatsView,
    family: Family,
    labels: Seq<Seq<char>>,
)
    requires
        !family.is_system(),
    ensures
        last_write(system_writes(stats), family, labels) is None,
{
    lemma_system_writes_are_system(stats);
    let ws = system_writes(stats);
    assert forall|k: int| 0 <= k < ws.len() implies !((#[trigger] ws[k]).fits() && ws[k].keyed(
        family,
        labels,
    )) by {
        assert(ws[k].family.is_system());
    }
    lemma_last_write_none(ws, family, labels);
}

/// After a refresh cycle, `up` of a hub that the cycle queried reads 1 if the
/// last query of it succeeded and 0 if it failed; `up` of a hub that the
/// cycle did not query reads what it read before.
pub proof fn law_cycle_up(
    before: Seq<SeriesView>,
    stats: SystemStatsView,
    reports: Seq<HubReportView>,
    hub: Seq<char>,
)
    requires
        well_formed(before),
    ensures
        read(apply(before, cycle_writes(stats, reports)), Family::Up, seq![hub]) == match up_of(
            last_report(reports, hub),
        ) {
            Some(value) => Some(value),
            None => read(before, Family::Up, seq![hub]),
        },
{
    lemma_system_spares_hubs(stats, Family::Up, seq![hub]);
    lemma_reports_up(reports, hub);
    lemma_last_write_concat(
        system_writes(stats),
        reports_writes(reports),
        Family::Up,
        seq![hub],
    );
    lemma_apply(before, cycle_writes(stats, reports), Family::Up, seq![hub]);
}

/// After a refresh cycle, every gauge of a hub other than `up` reads exactly
/// the value that the last successful query of the cycle gives it. Where the
/// cycle had no successful query of the hub, the gauge reads what it read
/// before: a failure resets nothing.
pub proof fn law_cycle_gauge(
    before: Seq<SeriesView>,
    stats: SystemStatsView,
    reports: Seq<HubReportView>,
    hub: Seq<char>,
    family: Family,
)
    requires
        well_formed(before),
        family.labels() == Labels::Hub,
        family != Family::Up,
    ensures
        read(apply(before, cycle_writes(stats, reports)), family, seq![hub]) == match last_status(
            reports,
            hub,
        ) {
            Some(status) => gauge_of(status, family),
            None => read(before, family, seq![hub]),
        },
        last_status(reports, hub) is Some ==> gauge_of(last_status(reports, hub)->0, family) is Some,
{
    lemma_system_spares_hubs(stats, family, seq![hub]);
    lemma_reports_gauge(reports, hub, family);
    lemma_last_write_concat(system_writes(stats), reports_writes(reports), family, seq![hub]);
    lemma_apply(before, cycle_writes(stats, reports), family, seq![hub]);
}

/// In a list that names a hub once, the report that names it is its last.
pub proof fn lemma_only_report(reports: Seq<HubReportView>, k: int)
    requires
        0 <= k < reports.len(),
        forall|j: int| 0 <= j < reports.len() && j != k ==> (#[trigger] reports[j]).hub != reports[k].hub,
    ensures
        last_report(reports, reports[k].hub) == Some(reports[k].outcome),
        last_status(reports, reports[k].hub) == match reports[k].outcome {
            Ok(status) => Some(status),
            Err(_) => None,
        },
    decreases reports.len(),
{
    let hub = reports[k].hub;
    let front = reports.drop_last();
    if k < reports.len() - 1 {
        assert(reports[reports.len() - 1].hub != hub);
        assert(front[k] == reports[k]);
        assert forall|j: int| 0 <= j < front.len() && j != k implies (#[trigger] front[j]).hub
            != front[k].hub by {
            assert(front[j] == reports[j]);
        }
        lemma_only_report(front, k);
    } else {
        lemma_never_reported(front, hub);
    }
}

/// A list that does not name a hub says nothing about it.
pub proof fn lemma_never_reported(reports: Seq<HubReportView>, hub: Seq<char>)
    requires
        forall|j: int| 0 <= j < reports.len() ==> (#[trigger] reports[j]).hub != hub,
    ensures
        last_report(reports, hub) is None,
        last_status(reports, hub) is None,
    decreases reports.len(),
{
    if reports.len() > 0 {
        let front = reports.drop_last();
        assert(reports[reports.len() - 1].hub != hub);
        assert forall|j: int| 0 <= j < front.len() implies (#[trigger] front[j]).hub != hub by {
            assert(front[j] == reports[j]);
        }
        lemma_never_reported(front, hub);
    }
}

/// A hub whose status query failed: after the refresh cycle its `up` reads 0,
/// and every other gauge of the hub reads what it read before the cycle. This
/// is stated of a hub that the cycle queried once.
pub proof fn law_cycle_failing_hub(
    before: Seq<SeriesView>,
    stats: SystemStatsView,
    reports: Seq<HubReportView>,
    k: int,
    family: Family,
)
    requires
        well_formed(before),
        0 <= k < reports.len(),
        reports[k].outcome is Err,
        forall|j: int| 0 <= j < reports.len() && j != k ==> (#[trigger] reports[j]).hub != reports[k].hub,
        family.labels() == Labels::Hub,
    ensures
        read(apply(before, cycle_writes(stats, reports)), Family::Up, seq![reports[k].hub]) == Some(
            Sample::Whole(0),
        ),
        family != Family::Up ==> read(
            apply(before, cycle_writes(stats, reports)),
            family,
            seq![reports[k].hub],
        ) == read(before, family, seq![reports[k].hub]),
{
    lemma_only_report(reports, k);
    law_cycle_up(before, stats, reports, reports[k].hub);
    if family != Family::Up {
        law_cycle_gauge(before, stats, reports, reports[k].hub, family);
    }
}

/// A hub whose status query succeeded: after the refresh cycle every gauge of
/// the hub reads exactly the value that the returned record gives it. This is
/// stated of a hub that the cycle queried once.
pub proof fn law_cycle_succeeding_hub(
    before: Seq<SeriesView>,
    stats: SystemStatsView,
    reports: Seq<HubReportView>,
    k: int,
    family: Family,
)
    requires
        well_formed(before),
        0 <= k < reports.len(),
        reports[k].outcome is Ok,
        forall|j: int| 0 <= j < reports.len() && j != k ==> (#[trigger] reports[j]).hub != reports[k].hub,
        family.labels() == Labels::Hub,
    ensures
        gauge_of(reports[k].outcome->Ok_0, family) is Some,
        read(apply(before, cycle_writes(stats, reports)), family, seq![reports[k].hub])
            == gauge_of(reports[k].outcome->Ok_0, family),
{
    lemma_only_report(reports, k);
    if family == Family::Up {
        law_cycle_up(before, stats, reports, reports[k].hub);
    } else {
        law_cycle_gauge(before, stats, reports, reports[k].hub, family);
    }
}

/// A second refresh cycle on the same reading of the host and the same
/// reports changes nothing: every exposed value, and the order of the series,
/// stay as the first cycle left them.
pub proof fn law_refresh_idempotent(
    before: Seq<SeriesView>,
    stats: SystemStatsView,
    reports: Seq<HubReportView>,
)
    requires
        well_formed(before),
    ensures
        apply(apply(before, cycle_writes(stats, reports)), cycle_writes(stats, reports)) == apply(
            before,
            cycle_writes(stats, reports),
        ),
{
    lemma_apply_idempotent(before, cycle_writes(stats, reports));
}

/// The label tuples of `up` that the state has a series for.
pub open spec fn up_labels(state: Seq<SeriesView>) -> Set<Seq<Seq<char>>> {
    Set::new(|labels: Seq<Seq<char>>| holds(state, Family::Up, labels))
}

/// The label tuples that stand for a list of hub names: one tuple of one
/// value per name.
pub open spec fn label_tuples(hubs: Seq<Seq<char>>) -> Seq<Seq<Seq<char>>> {
    hubs.map_values(|hub: Seq<char>| seq![hub])
}

/// The hub names of a list of reports, in list order.
pub open spec fn names_of(reports: Seq<HubReportView>) -> Seq<Seq<char>> {
    reports.map_values(|report: HubReportView| report.hub)
}

/// A list of reports writes `up` for exactly the hubs that it names.
pub proof fn lemma_reports_up_written(reports: Seq<HubReportView>, labels: Seq<Seq<char>>)
    ensures
        last_write(reports_writes(reports), Family::Up, labels) is Some <==> label_tuples(
            names_of(reports),
        ).contains(labels),
    decreases reports.len(),
{
    let tuples = label_tuples(names_of(reports));
    if reports.len() > 0 {
        let front = reports.drop_last();
        let last = reports.last();
        let front_tuples = label_tuples(names_of(front));
        let n = front.len() as int;
        lemma_reports_up_written(front, labels);
        lemma_last_write_concat(
            reports_writes(front),
            hub_writes(last.hub, last.outcome),
            Family::Up,
            labels,
        );
        match last.outcome {
            Ok(status) => lemma_status_effect(last.hub, status, Family::Up, labels),
            Err(_) => lemma_failure_effect(last.hub, Family::Up, labels),
        }
        assert(tuples[n] == seq![last.hub]);
        assert forall|k: int| 0 <= k < n implies front_tuples[k] == tuples[k] by {
            assert(front[k] == reports[k]);
        }
        if tuples.contains(labels) {
            let k = choose|k: int| 0 <= k < tuples.len() && tuples[k] == labels;
            if k < n {
                assert(front_tuples[k] == labels);
            }
        }
        if front_tuples.contains(labels) {
            let k = choose|k: int| 0 <= k < front_tuples.len() && front_tuples[k] == labels;
            assert(tuples[k] == labels);
        }
    }
}

/// A refresh cycle adds to the label tuples of `up` those of the hubs that it
/// queried, and no other; none is ever removed.
pub proof fn law_cycle_up_labels(
    before: Seq<SeriesView>,
    stats: SystemStatsView,
    reports: Seq<HubReportView>,
)
    requires
        well_formed(before),
    ensures
        up_labels(apply(before, cycle_writes(stats, reports))) == up_labels(before).union(
            label_tuples(names_of(reports)).to_set(),
        ),
{
    let after = apply(before, cycle_writes(stats, reports));
    assert forall|labels: Seq<Seq<char>>|
        up_labels(after).contains(labels) == up_labels(before).union(
            label_tuples(names_of(reports)).to_set(),
        ).contains(labels) by {
        lemma_system_spares_hubs(stats, Family::Up, labels);
        lemma_reports_up_written(reports, labels);
        lemma_last_write_concat(
            system_writes(stats),
            reports_writes(reports),
            Family::Up,
            labels,
        );
        lemma_apply(before, cycle_writes(stats, reports), Family::Up, labels);
    }
    assert(up_labels(after) =~= up_labels(before).union(
        label_tuples(names_of(reports)).to_set(),
    ));
}

/// Label cardinality: as long as every cycle queries configured hubs only,
/// `up` never has a label tuple that is not the name of a configured hub, so
/// it never has more series than hubs are configured. This holds of the empty
/// registry, and every refresh cycle keeps it.
pub proof fn law_up_labels_bounded(
    before: Seq<SeriesView>,
    stats: SystemStatsView,
    reports: Seq<HubReportView>,
    hubs: Seq<Seq<char>>,
)
    requires
        well_formed(before),
        up_labels(before).subset_of(label_tuples(hubs).to_set()),
        forall|k: int| 0 <= k < reports.len() ==> hubs.contains(#[trigger] reports[k].hub),
    ensures
        up_labels(apply(before, cycle_writes(stats, reports))).subset_of(
            label_tuples(hubs).to_set(),
        ),
        up_labels(apply(before, cycle_writes(stats, reports))).finite(),
        up_labels(apply(before, cycle_writes(stats, reports))).len() <= hubs.len(),
{
    let after = apply(before, cycle_writes(stats, reports));
    let allowed = label_tuples(hubs).to_set();
    let queried = label_tuples(names_of(reports));
    law_cycle_up_labels(before, stats, reports);
    assert forall|labels: Seq<Seq<char>>| queried.contains(labels) implies allowed.contains(
        labels,
    ) by {
        let k = choose|k: int| 0 <= k < queried.len() && queried[k] == labels;
        assert(hubs.contains(reports[k].hub));
        let j = choose|j: int| 0 <= j < hubs.len() && hubs[j] == reports[k].hub;
        assert(label_tuples(hubs)[j] == labels);
    }
    assert(up_labels(after).subset_of(allowed));
    vstd::seq_lib::seq_to_set_is_finite(label_tuples(hubs));
    label_tuples(hubs).lemma_cardinality_of_set();
    lemma_len_subset(up_labels(after), allowed);
}

/// Two scrapes of the same configuration, from an empty registry: however the
/// queries end, `up` has no more distinct hub labels than hubs are configured.
pub proof fn law_two_scrapes_up_labels(
    first_stats: SystemStatsView,
    first: Seq<HubReportView>,
    second_stats: SystemStatsView,
    second: Seq<HubReportView>,
    hubs: Seq<Seq<char>>,
)
    requires
        names_of(first) == hubs,
        names_of(second) == hubs,
    ensures
        up_labels(
            apply(
                apply(Seq::empty(), cycle_writes(first_stats, first)),
                cycle_writes(second_stats, second),
            ),
        ).len() <= hubs.len(),
{
    let empty = Seq::<SeriesView>::empty();
    let once = apply(empty, cycle_writes(first_stats, first));
    assert forall|k: int| 0 <= k < first.len() implies hubs.contains(#[trigger] first[k].hub) by {
        assert(names_of(first)[k] == first[k].hub);
    }
    assert forall|k: int| 0 <= k < second.len() implies hubs.contains(
        #[trigger] second[k].hub,
    ) by {
        assert(names_of(second)[k] == second[k].hub);
    }
    assert(up_labels(empty) =~= Set::empty());
    law_up_labels_bounded(empty, first_stats, first, hubs);
    lemma_apply_well_formed(empty, cycle_writes(first_stats, first));
    law_up_labels_bounded(once, second_stats, second, hubs);
}

} // verus!
