//! The refresh orchestrator: one refresh cycle is the system stats collector
//! followed by the hub status collector, hub by hub in configuration order.

use crate::family::Labels;
use crate::hub::{
    collect_hub, diagnostic_of, hub_writes, lemma_hub_families_have_gauges, outcome_view,
    HubStatus,
};
use crate::model::{all_labelled, apply, lemma_apply_concat, SeriesView};
use crate::registry::MetricRegistry;
use crate::system::{collect_system, system_writes, SystemStats, SystemStatsView};
use vstd::prelude::*;

verus! {

/// What the status reader returned for one hub.
#[derive(Debug, PartialEq, Eq)]
pub struct HubReport {
    /// The name of the hub.
    pub hub: String,
    /// The status, or the text of the error.
    pub outcome: Result<HubStatus, String>,
}

/// What the status reader returned for one hub, as a mathematical value.
pub struct HubReportView {
    pub hub: Seq<char>,
    pub outcome: Result<HubStatus, Seq<char>>,
}

impl View for HubReport {
    type V = HubReportView;

    open spec fn view(&self) -> HubReportView {
        HubReportView { hub: self.hub@, outcome: outcome_view(self.outcome) }
    }
}

impl DeepView for HubReport {
    type V = HubReportView;

    open spec fn deep_view(&self) -> HubReportView {
        self@
    }
}

/// The writes for a list of hub reports, in list order.
pub open spec fn reports_writes(reports: Seq<HubReportView>) -> Seq<SeriesView>
    decreases reports.len(),
{
    if reports.len() == 0 {
        seq![]
    } else {
        reports_writes(reports.drop_last()) + hub_writes(
            reports.last().hub,
            reports.last().outcome,
        )
    }
}

/// The diagnostic lines for a list of hub reports: one per failed query, in
/// list order.
pub open spec fn reports_lines(reports: Seq<HubReportView>) -> Seq<Seq<char>>
    decreases reports.len(),
{
    if reports.len() == 0 {
        seq![]
    } else {
        let earlier = reports_lines(reports.drop_last());
        match diagnostic_of(reports.last().hub, reports.last().outcome) {
            Some(line) => earlier.push(line),
            None => earlier,
        }
    }
}

/// The writes of one refresh cycle: the host first, then the hubs.
pub open spec fn cycle_writes(stats: SystemStatsView, reports: Seq<HubReportView>) -> Seq<
    SeriesView,
> {
    system_writes(stats) + reports_writes(reports)
}

/// Runs the hub status collector over a list of reports, in list order, and
/// returns the diagnostic lines of the failed queries. A failure of one hub
/// does not keep the later hubs from being recorded.
pub fn collect_hubs(registry: &mut MetricRegistry, reports: &Vec<HubReport>) -> (lines: Vec<String>)
    requires
        old(registry).wf(),
    ensures
        final(registry).wf(),
        final(registry)@ == apply(old(registry)@, reports_writes(reports.deep_view())),
        lines.deep_view() == reports_lines(reports.deep_view()),
{
    let mut lines: Vec<String> = Vec::new();
    let mut i: usize = 0;
    assert(lines.deep_view() =~= reports_lines(reports.deep_view().take(0)));
    while i < reports.len()
        invariant
            i <= reports.len(),
            registry.wf(),
            registry@ == apply(old(registry)@, reports_writes(reports.deep_view().take(i as int))),
            lines.deep_view() == reports_lines(reports.deep_view().take(i as int)),
        decreases reports.len() - i,
    {
        let report = &reports[i];
        let ghost earlier = reports.deep_view().take(i as int);
        let ghost next = reports.deep_view().take(i as int + 1);
        let ghost before = lines.deep_view();
        proof {
            assert(next.drop_last() =~= earlier);
            assert(next.last() == report@);
            lemma_apply_concat(
                old(registry)@,
                reports_writes(earlier),
                hub_writes(report@.hub, report@.outcome),
            );
        }
        let line = collect_hub(registry, report.hub.as_str(), &report.outcome);
        if let Some(text) = line {
            lines.push(text);
            assert(lines.deep_view() =~= before.push(text@));
        }
        i += 1;
    }
    assert(reports.deep_view().take(i as int) =~= reports.deep_view());
    lines
}

/// Runs one refresh cycle: the system stats collector, then the hub status
/// collector. The cycle never fails as a whole: an absent figure leaves its
/// gauge as it was, and a failed hub query is recorded as such. Returns the
/// diagnostic lines of the failed queries.
pub fn refresh(registry: &mut MetricRegistry, stats: &SystemStats, reports: &Vec<HubReport>) -> (lines:
    Vec<String>)
    requires
        old(registry).wf(),
    ensures
        final(registry).wf(),
        final(registry)@ == apply(old(registry)@, cycle_writes(stats@, reports.deep_view())),
        lines.deep_view() == reports_lines(reports.deep_view()),
{
    collect_system(registry, stats);
    let lines = collect_hubs(registry, reports);
    proof {
        lemma_apply_concat(
            old(registry)@,
            system_writes(stats@),
            reports_writes(reports.deep_view()),
        );
    }
    lines
}

/// The hub status collector writes to families keyed by a hub, and to no
/// other.
pub proof fn lemma_reports_writes_labelled(reports: Seq<HubReportView>)
    ensures
        all_labelled(reports_writes(reports), Labels::Hub),
    decreases reports.len(),
{
    if reports.len() > 0 {
        lemma_reports_writes_labelled(reports.drop_last());
        let last = reports.last();
        let tail = hub_writes(last.hub, last.outcome);
        assert forall|k: int| 0 <= k < tail.len() implies (#[trigger] tail[k]).family.labels()
            == Labels::Hub by {
            if last.outcome is Ok {
                lemma_hub_families_have_gauges(last.outcome->Ok_0, k);
            }
        }
    }
}

} // verus!
