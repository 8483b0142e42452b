//! The per-fetch state of a dashboard session and the store that owns it.

use vstd::prelude::*;
use crate::error::FetchError;
use crate::forecast_codec::TemperatureForecast;
use crate::hazard::{HazardKind, RiskValue};
use crate::outlook::{OutlookSelection, OutlookVariant};

verus! {

/// The lifecycle of one fetch: pending until it resolves or fails, and then
/// terminal.
#[derive(Debug, PartialEq, Eq)]
pub enum FetchState<T> {
    Pending,
    Resolved(T),
    Failed(FetchError),
}

impl<T: Copy> Clone for FetchState<T> {
    fn clone(&self) -> (copy: FetchState<T>)
        ensures
            copy == *self,
    {
        match self {
            FetchState::Pending => FetchState::Pending,
            FetchState::Resolved(value) => FetchState::Resolved(*value),
            FetchState::Failed(reason) => FetchState::Failed(reason.clone()),
        }
    }
}

impl<T> FetchState<T> {
    /// Whether the fetch has ended, with a value or with a failure.
    pub open spec fn is_terminal(self) -> bool {
        !(self is Pending)
    }

    /// The state after the fetch has ended with `outcome`: a pending slot
    /// takes the outcome, a terminal slot keeps what it has.
    pub open spec fn settled(self, outcome: Result<T, FetchError>) -> FetchState<T> {
        match self {
            FetchState::Pending => match outcome {
                Ok(value) => FetchState::Resolved(value),
                Err(reason) => FetchState::Failed(reason),
            },
            _ => self,
        }
    }

    /// Tells whether the fetch is still under way.
    pub fn is_pending(&self) -> (pending: bool)
        ensures
            pending == (*self is Pending),
    {
        match self {
            FetchState::Pending => true,
            _ => false,
        }
    }

    /// Ends the fetch with `outcome`, unless it has ended before.
    pub fn settle(self, outcome: Result<T, FetchError>) -> (next: FetchState<T>)
        ensures
            next == self.settled(outcome),
            self.is_terminal() ==> next == self,
            next.is_terminal(),
    {
        match self {
            FetchState::Pending => match outcome {
                Ok(value) => FetchState::Resolved(value),
                Err(reason) => FetchState::Failed(reason),
            },
            FetchState::Resolved(value) => FetchState::Resolved(value),
            FetchState::Failed(reason) => FetchState::Failed(reason),
        }
    }
}

/// A fetch that the store asks its owner to launch.
#[derive(Clone, Copy, Debug, PartialEq, Eq, Structural, Hash)]
pub enum FetchTask {
    Hazard(HazardKind),
    Forecast,
}

/// Something that happened to a dashboard session.
#[derive(Debug, PartialEq, Eq)]
pub enum DashboardEvent {
    /// The fetch for a hazard kind ended.
    HazardSettled(HazardKind, Result<RiskValue, FetchError>),
    /// The forecast fetch ended.
    ForecastSettled(Result<TemperatureForecast, FetchError>),
    /// The user chose an outlook map.
    OutlookSelected(OutlookVariant),
}

/// The read model of a session: one slot per hazard kind, the forecast slot
/// and the selected outlook map.
pub struct Snapshot {
    pub hazards: Map<HazardKind, FetchState<RiskValue>>,
    pub forecast: FetchState<TemperatureForecast>,
    pub outlook: OutlookVariant,
}

impl Snapshot {
    /// The read model after an event. The end of a fetch touches its own slot
    /// only, and a selection touches no slot.
    pub open spec fn after(self, event: DashboardEvent) -> Snapshot {
        match event {
            DashboardEvent::HazardSettled(kind, outcome) => Snapshot {
                hazards: self.hazards.insert(kind, self.hazards[kind].settled(outcome)),
                ..self
            },
            DashboardEvent::ForecastSettled(outcome) => Snapshot {
                forecast: self.forecast.settled(outcome),
                ..self
            },
            DashboardEvent::OutlookSelected(variant) => Snapshot { outlook: variant, ..self },
        }
    }

    /// Whether there is exactly one slot for each hazard kind.
    pub open spec fn complete(self) -> bool {
        forall|kind: HazardKind| #[trigger] self.hazards.contains_key(kind)
    }

    /// The read model of a session in which every fetch is under way.
    pub open spec fn fresh(outlook: OutlookVariant) -> Snapshot {
        Snapshot {
            hazards: Map::new(|kind: HazardKind| true, |kind: HazardKind| FetchState::Pending),
            forecast: FetchState::Pending,
            outlook,
        }
    }
}

/// The tasks of one activation: the four hazard fetches and the forecast
/// fetch.
pub open spec fn activation_tasks() -> Seq<FetchTask> {
    seq![
        FetchTask::Hazard(HazardKind::Categorical),
        FetchTask::Hazard(HazardKind::Tornado),
        FetchTask::Hazard(HazardKind::Wind),
        FetchTask::Hazard(HazardKind::Hail),
        FetchTask::Forecast,
    ]
}

/// A copy of the read model that the presentation layer can keep.
#[derive(Debug, PartialEq, Eq)]
pub struct DashboardSnapshot {
    pub categorical: FetchState<RiskValue>,
    pub tornado: FetchState<RiskValue>,
    pub wind: FetchState<RiskValue>,
    pub hail: FetchState<RiskValue>,
    pub forecast: FetchState<TemperatureForecast>,
    pub outlook: OutlookVariant,
}

impl View for DashboardSnapshot {
    type V = Snapshot;

    open spec fn view(&self) -> Snapshot {
        Snapshot {
            hazards: Map::new(
                |kind: HazardKind| true,
                |kind: HazardKind|
                    match kind {
                        HazardKind::Categorical => self.categorical,
                        HazardKind::Tornado => self.tornado,
                        HazardKind::Wind => self.wind,
                        HazardKind::Hail => self.hail,
                    },
            ),
            forecast: self.forecast,
            outlook: self.outlook,
        }
    }
}

impl Clone for DashboardSnapshot {
    fn clone(&self) -> (copy: DashboardSnapshot)
        ensures
            copy == *self,
    {
        DashboardSnapshot {
            categorical: self.categorical.clone(),
            tornado: self.tornado.clone(),
            wind: self.wind.clone(),
            hail: self.hail.clone(),
            forecast: self.forecast.clone(),
            outlook: self.outlook,
        }
    }
}

impl DashboardSnapshot {
    /// The slot of a hazard kind.
    pub fn hazard(&self, kind: HazardKind) -> (slot: &FetchState<RiskValue>)
        ensures
            *slot == self@.hazards[kind],
    {
        match kind {
            HazardKind::Categorical => &self.categorical,
            HazardKind::Tornado => &self.tornado,
            HazardKind::Wind => &self.wind,
            HazardKind::Hail => &self.hail,
        }
    }
}

/// Owner of the slots of a dashboard session and of its outlook selection.
#[derive(Debug, PartialEq, Eq)]
pub struct DashboardStore {
    slots: DashboardSnapshot,
}

impl Clone for DashboardStore {
    fn clone(&self) -> (copy: DashboardStore)
        ensures
            copy@ == self@,
    {
        DashboardStore { slots: self.slots.clone() }
    }
}

impl View for DashboardStore {
    type V = Snapshot;

    closed spec fn view(&self) -> Snapshot {
        self.slots@
    }
}

impl DashboardStore {
    /// A store in which every fetch is pending and the categorical map is
    /// selected.
    pub fn new() -> (store: DashboardStore)
        ensures
            store@ == Snapshot::fresh(OutlookVariant::CategoricalMap),
            store@.complete(),
    {
        let store = DashboardStore {
            slots: DashboardSnapshot {
                categorical: FetchState::Pending,
                tornado: FetchState::Pending,
                wind: FetchState::Pending,
                hail: FetchState::Pending,
                forecast: FetchState::Pending,
                outlook: OutlookSelection::new().current(),
            },
        };
        proof {
            assert(store@.hazards =~= Snapshot::fresh(OutlookVariant::CategoricalMap).hazards);
        }
        store
    }

    /// At every moment the store has one slot for each hazard kind.
    pub proof fn lemma_always_complete(&self)
        ensures
            self@.complete(),
    {
    }

    /// Starts a fresh round: every slot is pending again, the selection
    /// stays, and the five fetches to launch are returned.
    pub fn activate(&mut self) -> (tasks: Vec<FetchTask>)
        ensures
            final(self)@ == Snapshot::fresh(old(self)@.outlook),
            final(self)@.complete(),
            tasks@ == activation_tasks(),
    {
        self.slots.categorical = FetchState::Pending;
        self.slots.tornado = FetchState::Pending;
        self.slots.wind = FetchState::Pending;
        self.slots.hail = FetchState::Pending;
        self.slots.forecast = FetchState::Pending;
        let mut tasks: Vec<FetchTask> = Vec::new();
        tasks.push(FetchTask::Hazard(HazardKind::Categorical));
        tasks.push(FetchTask::Hazard(HazardKind::Tornado));
        tasks.push(FetchTask::Hazard(HazardKind::Wind));
        tasks.push(FetchTask::Hazard(HazardKind::Hail));
        tasks.push(FetchTask::Forecast);
        proof {
            assert(self@.hazards =~= Snapshot::fresh(old(self)@.outlook).hazards);
            assert(tasks@ =~= activation_tasks());
        }
        tasks
    }

    /// Records the end of the fetch for `kind`. Only that kind's slot can
    /// change, and only if it was pending.
    pub fn settle_hazard(&mut self, kind: HazardKind, outcome: Result<RiskValue, FetchError>)
        ensures
            final(self)@ == old(self)@.after(DashboardEvent::HazardSettled(kind, outcome)),
            final(self)@.hazards[kind] == old(self)@.hazards[kind].settled(outcome),
            forall|other: HazardKind|
                other != kind ==> #[trigger] final(self)@.hazards[other] == old(
                    self,
                )@.hazards[other],
            final(self)@.forecast == old(self)@.forecast,
            final(self)@.outlook == old(self)@.outlook,
            final(self)@.complete(),
    {
        let next = self.slots.hazard(kind).clone().settle(outcome);
        match kind {
            HazardKind::Categorical => {
                self.slots.categorical = next;
            },
            HazardKind::Tornado => {
                self.slots.tornado = next;
            },
            HazardKind::Wind => {
                self.slots.wind = next;
            },
            HazardKind::Hail => {
                self.slots.hail = next;
            },
        }
        proof {
            assert(self@.hazards =~= old(self)@.after(
                DashboardEvent::HazardSettled(kind, outcome),
            ).hazards);
        }
    }

    /// Records the end of the forecast fetch. Only the forecast slot can
    /// change, and only if it was pending.
    pub fn settle_forecast(&mut self, outcome: Result<TemperatureForecast, FetchError>)
        ensures
            final(self)@ == old(self)@.after(DashboardEvent::ForecastSettled(outcome)),
            final(self)@.forecast == old(self)@.forecast.settled(outcome),
            final(self)@.hazards == old(self)@.hazards,
            final(self)@.outlook == old(self)@.outlook,
    {
        let next = self.slots.forecast.clone().settle(outcome);
        self.slots.forecast = next;
    }

    /// Selects an outlook map. No slot changes.
    pub fn select_outlook(&mut self, variant: OutlookVariant)
        ensures
            final(self)@ == old(self)@.after(DashboardEvent::OutlookSelected(variant)),
            final(self)@.outlook == variant,
            final(self)@.hazards == old(self)@.hazards,
            final(self)@.forecast == old(self)@.forecast,
    {
        let mut selection = OutlookSelection { variant: self.slots.outlook };
        selection.select(variant);
        self.slots.outlook = selection.current();
    }

    /// Applies an event to the store.
    pub fn apply(&mut self, event: DashboardEvent)
        ensures
            final(self)@ == old(self)@.after(event),
    {
        match event {
            DashboardEvent::HazardSettled(kind, outcome) => self.settle_hazard(kind, outcome),
            DashboardEvent::ForecastSettled(outcome) => self.settle_forecast(outcome),
            DashboardEvent::OutlookSelected(variant) => self.select_outlook(variant),
        }
    }

    /// The slot of a hazard kind.
    pub fn hazard(&self, kind: HazardKind) -> (slot: &FetchState<RiskValue>)
        ensures
            *slot == self@.hazards[kind],
    {
        self.slots.hazard(kind)
    }

    /// The forecast slot.
    pub fn forecast(&self) -> (slot: &FetchState<TemperatureForecast>)
        ensures
            *slot == self@.forecast,
    {
        &self.slots.forecast
    }

    /// The selected outlook map.
    pub fn outlook(&self) -> (variant: OutlookVariant)
        ensures
            variant == self@.outlook,
    {
        self.slots.outlook
    }

    /// A copy of the read model as it is now.
    pub fn snapshot(&self) -> (snapshot: DashboardSnapshot)
        ensures
            snapshot@ == self@,
    {
        self.slots.clone()
    }
}

/// Selection and fetch state are independent: a selection changes no slot,
/// and it makes no difference to any slot or to the selection whether a fetch
/// ends before the selection or after it.
pub proof fn lemma_selection_independent_of_fetches(
    model: Snapshot,
    variant: OutlookVariant,
    kind: HazardKind,
    risk: Result<RiskValue, FetchError>,
    temps: Result<TemperatureForecast, FetchError>,
)
    ensures
        model.after(DashboardEvent::OutlookSelected(variant)).hazards == model.hazards,
        model.after(DashboardEvent::OutlookSelected(variant)).forecast == model.forecast,
        model.after(DashboardEvent::OutlookSelected(variant)).after(
            DashboardEvent::HazardSettled(kind, risk),
        ) == model.after(DashboardEvent::HazardSettled(kind, risk)).after(
            DashboardEvent::OutlookSelected(variant),
        ),
        model.after(DashboardEvent::OutlookSelected(variant)).after(
            DashboardEvent::ForecastSettled(temps),
        ) == model.after(DashboardEvent::ForecastSettled(temps)).after(
            DashboardEvent::OutlookSelected(variant),
        ),
{
}

/// The order in which fetches end makes no difference: the ends of the
/// fetches for two different hazard kinds commute, and so do the end of a
/// hazard fetch and that of the forecast fetch.
pub proof fn lemma_completion_order_irrelevant(
    model: Snapshot,
    first: HazardKind,
    first_risk: Result<RiskValue, FetchError>,
    second: HazardKind,
    second_risk: Result<RiskValue, FetchError>,
    temps: Result<TemperatureForecast, FetchError>,
)
    requires
        first != second,
    ensures
        model.after(DashboardEvent::HazardSettled(first, first_risk)).after(
            DashboardEvent::HazardSettled(second, second_risk),
        ) == model.after(DashboardEvent::HazardSettled(second, second_risk)).after(
            DashboardEvent::HazardSettled(first, first_risk),
        ),
        model.after(DashboardEvent::HazardSettled(first, first_risk)).after(
            DashboardEvent::ForecastSettled(temps),
        ) == model.after(DashboardEvent::ForecastSettled(temps)).after(
            DashboardEvent::HazardSettled(first, first_risk),
        ),
{
    let left = model.after(DashboardEvent::HazardSettled(first, first_risk)).after(
        DashboardEvent::HazardSettled(second, second_risk),
    );
    let right = model.after(DashboardEvent::HazardSettled(second, second_risk)).after(
        DashboardEvent::HazardSettled(first, first_risk),
    );
    assert(left.hazards =~= right.hazards);
}

/// A slot that has ended stays as it is: no later end of a fetch changes a
/// resolved or failed slot.
pub proof fn lemma_terminal_slots_stay(model: Snapshot, event: DashboardEvent)
    requires
        model.complete(),
    ensures
        model.after(event).complete(),
        forall|kind: HazardKind|
            model.hazards[kind].is_terminal() ==> #[trigger] model.after(event).hazards[kind]
                == model.hazards[kind],
        model.forecast.is_terminal() ==> model.after(event).forecast == model.forecast,
        forall|kind: HazardKind|
            model.hazards[kind] is Pending && !(event matches DashboardEvent::HazardSettled(k, _)
                && k == kind) ==> #[trigger] model.after(event).hazards[kind] is Pending,
{
}

} // verus!
