//! The serving loop as a state machine: for every event, what the exporter
//! does next. Reading the host, querying a hub, encoding and answering are
//! left to the caller, which carries out each action and hands back what came
//! of it.

use crate::config::{Settings, SettingsView};
use crate::http::{
    failure_response, landing_response, metrics_response, route, route_of, Response,
    ResponseView, Route,
};
use crate::hub::{collect_hub, diagnostic_of, hub_writes, line_view, outcome_view, HubStatus};
use crate::model::{apply, well_formed, SeriesView};
use crate::registry::{MetricRegistry, Series};
use crate::system::{collect_system, system_writes, SystemStats, SystemStatsView};
use vstd::prelude::*;
use vstd::string::*;

verus! {

/// Where the exporter stands in the handling of a request.
#[derive(Clone, Copy, Debug, PartialEq, Eq, Structural)]
pub enum Phase {
    /// Between requests.
    Idle,
    /// A scrape has begun: the host is being read.
    Stats,
    /// The hub at this position of the configuration is being queried.
    Hub(usize),
    /// Every collector has run: the gauges are being encoded.
    Encoding,
}

/// The arguments of one call of the status reader.
#[derive(Debug, PartialEq, Eq)]
pub struct Query {
    pub vpncmd: String,
    pub server: String,
    pub hub: String,
    pub adminpassword: String,
}

/// What the caller is to do next.
#[derive(Debug, PartialEq, Eq)]
pub enum Action {
    /// Read the host, and hand back the reading.
    ReadStats,
    /// Call the status reader, and hand back its outcome.
    QueryHub(Query),
    /// Encode these series in the text exposition format, and hand back the
    /// bytes or the error.
    Encode(Vec<Series>),
    /// Write the response, then pause for the pacing interval. The request is
    /// done.
    Respond { response: Response, pause_millis: u64 },
}

/// What happened.
#[derive(Debug, PartialEq, Eq)]
pub enum Event {
    /// A request came in for this path.
    Request(String),
    /// The host was read.
    Stats(SystemStats),
    /// The status reader returned.
    HubReply(Result<HubStatus, String>),
    /// The encoder returned.
    Encoded(Result<Vec<u8>, String>),
}

/// One step of the exporter: the next action, and a diagnostic line to emit
/// if there is one.
#[derive(Debug, PartialEq, Eq)]
pub struct Step {
    pub action: Action,
    pub log: Option<String>,
}

/// The rejection of an event that does not answer the pending action.
#[derive(Clone, Copy, Debug, PartialEq, Eq, Structural)]
pub struct OutOfTurn;

/// A query as a mathematical value.
pub struct QueryView {
    pub vpncmd: Seq<char>,
    pub server: Seq<char>,
    pub hub: Seq<char>,
    pub adminpassword: Seq<char>,
}

/// An action as a mathematical value.
pub enum ActionView {
    ReadStats,
    QueryHub(QueryView),
    Encode(Seq<SeriesView>),
    Respond { response: ResponseView, pause_millis: u64 },
}

/// An event as a mathematical value.
pub enum EventView {
    Request(Seq<char>),
    Stats(SystemStatsView),
    HubReply(Result<HubStatus, Seq<char>>),
    Encoded(Result<Seq<u8>, Seq<char>>),
}

/// A step as a mathematical value.
pub struct StepView {
    pub action: ActionView,
    pub log: Option<Seq<char>>,
}

/// The exporter as a mathematical value: its settings, the gauge state, and
/// the phase it is in.
pub struct ExporterView {
    pub settings: SettingsView,
    pub series: Seq<SeriesView>,
    pub phase: Phase,
}

impl View for Query {
    type V = QueryView;

    open spec fn view(&self) -> QueryView {
        QueryView {
            vpncmd: self.vpncmd@,
            server: self.server@,
            hub: self.hub@,
            adminpassword: self.adminpassword@,
        }
    }
}

impl View for Action {
    type V = ActionView;

    open spec fn view(&self) -> ActionView {
        match self {
            Action::ReadStats => ActionView::ReadStats,
            Action::QueryHub(query) => ActionView::QueryHub(query@),
            Action::Encode(list) => ActionView::Encode(list.deep_view()),
            Action::Respond { response, pause_millis } => ActionView::Respond {
                response: response@,
                pause_millis: *pause_millis,
            },
        }
    }
}

impl View for Event {
    type V = EventView;

    open spec fn view(&self) -> EventView {
        match self {
            Event::Request(path) => EventView::Request(path@),
            Event::Stats(stats) => EventView::Stats(stats@),
            Event::HubReply(outcome) => EventView::HubReply(outcome_view(*outcome)),
            Event::Encoded(result) => EventView::Encoded(
                match result {
                    Ok(body) => Ok(body@),
                    Err(error) => Err(error@),
                },
            ),
        }
    }
}

impl View for Step {
    type V = StepView;

    open spec fn view(&self) -> StepView {
        StepView { action: self.action@, log: line_view(self.log) }
    }
}

impl ExporterView {
    /// The invariant of the exporter: the gauge state is well formed, and a
    /// hub that is being queried is one of the configured hubs.
    pub open spec fn wf(self) -> bool {
        &&& well_formed(self.series)
        &&& match self.phase {
            Phase::Hub(i) => i < self.settings.hubs.len(),
            _ => true,
        }
    }

    /// The same exporter in another phase.
    pub open spec fn at(self, phase: Phase) -> ExporterView {
        ExporterView { phase, ..self }
    }

    /// The same exporter after a list of writes.
    pub open spec fn after(self, writes: Seq<SeriesView>) -> ExporterView {
        ExporterView { series: apply(self.series, writes), ..self }
    }
}

/// The query for the hub at position `i` of the configuration.
pub open spec fn query_for(settings: SettingsView, i: int) -> QueryView {
    QueryView {
        vpncmd: settings.vpncmd,
        server: settings.server,
        hub: settings.hubs[i],
        adminpassword: settings.adminpassword,
    }
}

/// A step without a diagnostic line.
pub open spec fn quiet(action: ActionView) -> StepView {
    StepView { action, log: None }
}

/// The step that ends a request.
pub open spec fn respond(response: ResponseView, settings: SettingsView) -> StepView {
    quiet(ActionView::Respond { response, pause_millis: settings.sleep_millis })
}

/// How a scrape goes on once the hubs before position `i` are done: with the
/// query of hub `i`, or with the encoding of all current series if no hub is
/// left.
pub open spec fn proceed(state: ExporterView, i: int, log: Option<Seq<char>>) -> (
    ExporterView,
    StepView,
) {
    if 0 <= i < state.settings.hubs.len() {
        (
            state.at(Phase::Hub(i as usize)),
            StepView { action: ActionView::QueryHub(query_for(state.settings, i)), log },
        )
    } else {
        (state.at(Phase::Encoding), StepView { action: ActionView::Encode(state.series), log })
    }
}

/// The transition function of the exporter: the state and the step that
/// follow an event, or nothing where the event does not answer the pending
/// action.
///
/// - Between requests, a request for the metrics path begins a scrape with the
///   reading of the host; a request for any other path is answered with the
///   landing page and changes nothing.
/// - The reading of the host is recorded, then the hubs are queried one by one
///   in configuration order, each outcome being recorded as it arrives.
/// - When no hub is left, all current series are handed out for encoding.
/// - The encoded bytes are answered with; a failed encoding fails this request
///   only.
pub open spec fn next(state: ExporterView, event: EventView) -> Option<(ExporterView, StepView)> {
    match (state.phase, event) {
        (Phase::Idle, EventView::Request(path)) => if route_of(path) == Route::Metrics {
            Some((state.at(Phase::Stats), quiet(ActionView::ReadStats)))
        } else {
            Some((state, respond(landing_response(), state.settings)))
        },
        (Phase::Stats, EventView::Stats(stats)) => Some(
            proceed(state.after(system_writes(stats)), 0, None),
        ),
        (Phase::Hub(i), EventView::HubReply(outcome)) => {
            let hub = state.settings.hubs[i as int];
            Some(proceed(state.after(hub_writes(hub, outcome)), i + 1, diagnostic_of(hub, outcome)))
        },
        (Phase::Encoding, EventView::Encoded(result)) => Some(
            (
                state.at(Phase::Idle),
                respond(
                    match result {
                        Ok(body) => metrics_response(body),
                        Err(error) => failure_response(error),
                    },
                    state.settings,
                ),
            ),
        ),
        _ => None,
    }
}

/// The exporter: the settings, the registry, and the phase of the request in
/// hand.
#[derive(Debug)]
pub struct Exporter {
    settings: Settings,
    registry: MetricRegistry,
    phase: Phase,
}

impl View for Exporter {
    type V = ExporterView;

    closed spec fn view(&self) -> ExporterView {
        ExporterView { settings: self.settings@, series: self.registry@, phase: self.phase }
    }
}

impl Exporter {
    /// The invariant of the exporter.
    pub open spec fn wf(&self) -> bool {
        self@.wf()
    }

    /// An exporter between requests, with no gauge written yet.
    pub fn new(settings: Settings) -> (exporter: Exporter)
        ensures
            exporter.wf(),
            exporter@.settings == settings@,
            exporter@.series == Seq::<SeriesView>::empty(),
            exporter@.phase == Phase::Idle,
    {
        Exporter { settings, registry: MetricRegistry::new(), phase: Phase::Idle }
    }

    /// The settings.
    pub fn settings(&self) -> (settings: &Settings)
        ensures
            settings@ == self@.settings,
    {
        &self.settings
    }

    /// The registry.
    pub fn registry(&self) -> (registry: &MetricRegistry)
        ensures
            registry@ == self@.series,
            self.wf() ==> registry.wf(),
    {
        &self.registry
    }

    /// The phase.
    pub fn phase(&self) -> (phase: Phase)
        ensures
            phase == self@.phase,
    {
        self.phase
    }

    /// The query for the hub at position `i` of the configuration.
    fn query(&self, i: usize) -> (query: Query)
        requires
            i < self@.settings.hubs.len(),
        ensures
            query@ == query_for(self@.settings, i as int),
    {
        Query {
            vpncmd: self.settings.vpncmd.clone(),
            server: self.settings.server.clone(),
            hub: self.settings.hubs[i].clone(),
            adminpassword: self.settings.adminpassword.clone(),
        }
    }

    /// Goes on with the scrape once the hubs before position `i` are done.
    fn proceed(&mut self, i: usize, log: Option<String>) -> (step: Step)
        requires
            well_formed(old(self)@.series),
        ensures
            final(self).wf(),
            (final(self)@, step@) == proceed(old(self)@, i as int, line_view(log)),
    {
        if i < self.settings.hubs.len() {
            self.phase = Phase::Hub(i);
            Step { action: Action::QueryHub(self.query(i)), log }
        } else {
            self.phase = Phase::Encoding;
            Step { action: Action::Encode(self.registry.snapshot()), log }
        }
    }

    /// Takes one event and says what to do next. An event that does not answer
    /// the pending action is rejected and changes nothing.
    pub fn step(&mut self, event: Event) -> (r: Result<Step, OutOfTurn>)
        requires
            old(self).wf(),
        ensures
            final(self).wf(),
            match next(old(self)@, event@) {
                Some((state, step)) => r is Ok && final(self)@ == state && r->Ok_0@ == step,
                None => r is Err && final(self)@ == old(self)@,
            },
    {
        let phase = self.phase;
        match (phase, event) {
            (Phase::Idle, Event::Request(path)) => {
                match route(path.as_str()) {
                    Route::Metrics => {
                        self.phase = Phase::Stats;
                        Ok(Step { action: Action::ReadStats, log: None })
                    },
                    Route::Landing => Ok(
                        Step {
                            action: Action::Respond {
                                response: Response::landing(),
                                pause_millis: self.settings.sleep_millis,
                            },
                            log: None,
                        },
                    ),
                }
            },
            (Phase::Stats, Event::Stats(stats)) => {
                collect_system(&mut self.registry, &stats);
                Ok(self.proceed(0, None))
            },
            (Phase::Hub(i), Event::HubReply(outcome)) => {
                let configured = self.settings.hubs.len();
                assert(i < configured);
                let line = collect_hub(&mut self.registry, self.settings.hubs[i].as_str(), &outcome);
                Ok(self.proceed(i + 1, line))
            },
            (Phase::Encoding, Event::Encoded(result)) => {
                self.phase = Phase::Idle;
                let response = match result {
                    Ok(body) => Response::metrics(body),
                    Err(error) => Response::encoding_failure(error.as_str()),
                };
                Ok(
                    Step {
                        action: Action::Respond {
                            response,
                            pause_millis: self.settings.sleep_millis,
                        },
                        log: None,
                    },
                )
            },
            _ => Err(OutOfTurn),
        }
    }
}

} // verus!
