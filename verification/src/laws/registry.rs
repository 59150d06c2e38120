//! What holds of the registry over any refresh cycle.

use crate::family::Family;
use crate::model::{apply, holds, lemma_apply_keeps, lemma_apply_well_formed, well_formed, SeriesView};
use crate::refresh::{cycle_writes, HubReportView};
use crate::system::SystemStatsView;
use vstd::prelude::*;

verus! {

/// No eviction: a series that the registry has before a refresh cycle is
/// still there after it, whatever the cycle found and whichever hubs it
/// queried.
pub proof fn law_series_stay(
    before: Seq<SeriesView>,
    stats: SystemStatsView,
    reports: Seq<HubReportView>,
    family: Family,
    labels: Seq<Seq<char>>,
)
    requires
        well_formed(before),
        holds(before, family, labels),
    ensures
        holds(apply(before, cycle_writes(stats, reports)), family, labels),
{
    lemma_apply_keeps(before, cycle_writes(stats, reports), family, labels);
}

/// After any refresh cycle every series has exactly the labels declared for
/// its family, and no label tuple occurs twice within a family.
pub proof fn law_cycle_well_formed(
    before: Seq<SeriesView>,
    stats: SystemStatsView,
    reports: Seq<HubReportView>,
)
    requires
        well_formed(before),
    ensures
        well_formed(apply(before, cycle_writes(stats, reports))),
{
    lemma_apply_well_formed(before, cycle_writes(stats, reports));
}

} // verus!
