//! What holds of the serving loop.

use crate::exporter::{next, respond, EventView, ExporterView, Phase};
use crate::http::{landing_response, METRICS_PATH};
use crate::hub::{hub_writes, HubStatus};
use crate::laws::hubs::{label_tuples, law_up_labels_bounded, up_labels};
use crate::model::{lemma_apply_concat, SeriesView};
use crate::refresh::{cycle_writes, reports_writes, HubReportView};
use crate::system::{system_writes, SystemStatsView};
use vstd::prelude::*;

verus! {

/// A request for any path but the metrics path is answered with the landing
/// page at once: no reading of the host and no status query is asked for, and
/// the exporter, its gauges included, stays as it was.
pub proof fn law_other_paths(state: ExporterView, path: Seq<char>)
    requires
        state.phase == Phase::Idle,
        path != METRICS_PATH@,
    ensures
        next(state, EventView::Request(path)) == Some(
            (state, respond(landing_response(), state.settings)),
        ),
{
}

/// The state that a list of events leads to, or nothing where one of them
/// comes out of turn.
pub open spec fn run(state: ExporterView, events: Seq<EventView>) -> Option<ExporterView>
    decreases events.len(),
{
    if events.len() == 0 {
        Some(state)
    } else {
        match run(state, events.drop_last()) {
            Some(reached) => match next(reached, events.last()) {
                Some((after, _)) => Some(after),
                None => None,
            },
            None => None,
        }
    }
}

/// The events of one scrape: the request, the reading of the host, and the
/// outcome of one status query per configured hub.
pub open spec fn scrape_events(
    stats: SystemStatsView,
    outcomes: Seq<Result<HubStatus, Seq<char>>>,
) -> Seq<EventView> {
    seq![EventView::Request(METRICS_PATH@), EventView::Stats(stats)] + outcomes.map_values(
        |outcome: Result<HubStatus, Seq<char>>| EventView::HubReply(outcome),
    )
}

/// The reports of one scrape: each configured hub with the outcome of its
/// query.
pub open spec fn reports_of(
    hubs: Seq<Seq<char>>,
    outcomes: Seq<Result<HubStatus, Seq<char>>>,
) -> Seq<HubReportView> {
    Seq::new(hubs.len(), |i: int| HubReportView { hub: hubs[i], outcome: outcomes[i] })
}

/// The phase of a scrape once `k` hubs are done.
pub open spec fn phase_after(hubs: Seq<Seq<char>>, k: int) -> Phase {
    if k < hubs.len() {
        Phase::Hub(k as usize)
    } else {
        Phase::Encoding
    }
}

/// Where a scrape stands once `k` hubs are done.
pub proof fn lemma_scrape_prefix(
    state: ExporterView,
    stats: SystemStatsView,
    outcomes: Seq<Result<HubStatus, Seq<char>>>,
    k: int,
)
    requires
        state.wf(),
        state.phase == Phase::Idle,
        state.settings.hubs.len() <= usize::MAX,
        outcomes.len() == state.settings.hubs.len(),
        0 <= k <= outcomes.len(),
    ensures
        run(state, scrape_events(stats, outcomes).take(2 + k)) == Some(
            state.after(
                system_writes(stats) + reports_writes(
                    reports_of(state.settings.hubs, outcomes).take(k),
                ),
            ).at(phase_after(state.settings.hubs, k)),
        ),
    decreases k,
{
    let hubs = state.settings.hubs;
    let events = scrape_events(stats, outcomes);
    let reports = reports_of(hubs, outcomes);
    if k == 0 {
        let two = events.take(2);
        let one = two.drop_last();
        assert(one.drop_last().len() == 0);
        assert(one.last() == EventView::Request(METRICS_PATH@));
        assert(two.last() == EventView::Stats(stats));
        assert(run(state, one.drop_last()) == Some(state));
        assert(run(state, one) == Some(state.at(Phase::Stats)));
        assert(reports_writes(reports.take(0)) =~= Seq::<SeriesView>::empty());
        assert(system_writes(stats) + reports_writes(reports.take(0)) =~= system_writes(stats));
    } else {
        let done = k - 1;
        lemma_scrape_prefix(state, stats, outcomes, done);
        let earlier = system_writes(stats) + reports_writes(reports.take(done));
        let reached = state.after(earlier).at(phase_after(hubs, done));
        let more = events.take(2 + k);
        assert(more.drop_last() =~= events.take(2 + done));
        assert(more.last() == EventView::HubReply(outcomes[done]));
        assert(reached.phase == Phase::Hub(done as usize));
        let this = hub_writes(hubs[done], outcomes[done]);
        assert(reports.take(k).drop_last() =~= reports.take(done));
        assert(reports.take(k).last() == reports[done]);
        assert(reports_writes(reports.take(k)) == reports_writes(reports.take(done)) + this);
        assert(earlier + this =~= system_writes(stats) + reports_writes(reports.take(k)));
        lemma_apply_concat(state.series, earlier, this);
    }
}

/// A scrape is a refresh cycle: from the request to the encoding, the serving
/// loop reads the host, queries every configured hub in configuration order,
/// and leaves the gauges exactly as one refresh cycle on that reading and
/// those outcomes leaves them.
pub proof fn law_scrape_is_refresh(
    state: ExporterView,
    stats: SystemStatsView,
    outcomes: Seq<Result<HubStatus, Seq<char>>>,
)
    requires
        state.wf(),
        state.phase == Phase::Idle,
        state.settings.hubs.len() <= usize::MAX,
        outcomes.len() == state.settings.hubs.len(),
    ensures
        run(state, scrape_events(stats, outcomes)) == Some(
            state.after(
                cycle_writes(stats, reports_of(state.settings.hubs, outcomes)),
            ).at(Phase::Encoding),
        ),
{
    let events = scrape_events(stats, outcomes);
    let reports = reports_of(state.settings.hubs, outcomes);
    lemma_scrape_prefix(state, stats, outcomes, outcomes.len() as int);
    assert(events.take(2 + outcomes.len() as int) =~= events);
    assert(reports.take(outcomes.len() as int) =~= reports);
}

/// Label cardinality over scrapes: if `up` has no label tuple but the names of
/// configured hubs before a scrape, as in an exporter that was just started,
/// it has none but those after the scrape, and so no more series than hubs
/// are configured, however the status queries end.
pub proof fn law_scrape_keeps_up_labels(
    state: ExporterView,
    stats: SystemStatsView,
    outcomes: Seq<Result<HubStatus, Seq<char>>>,
)
    requires
        state.wf(),
        state.phase == Phase::Idle,
        state.settings.hubs.len() <= usize::MAX,
        outcomes.len() == state.settings.hubs.len(),
        up_labels(state.series).subset_of(label_tuples(state.settings.hubs).to_set()),
    ensures
        run(state, scrape_events(stats, outcomes)) is Some,
        up_labels(run(state, scrape_events(stats, outcomes))->0.series).subset_of(
            label_tuples(state.settings.hubs).to_set(),
        ),
        up_labels(run(state, scrape_events(stats, outcomes))->0.series).len()
            <= state.settings.hubs.len(),
{
    let hubs = state.settings.hubs;
    let reports = reports_of(hubs, outcomes);
    law_scrape_is_refresh(state, stats, outcomes);
    assert forall|k: int| 0 <= k < reports.len() implies hubs.contains(
        #[trigger] reports[k].hub,
    ) by {
        assert(hubs[k] == reports[k].hub);
    }
    law_up_labels_bounded(state.series, stats, reports, hubs);
}

} // verus!
