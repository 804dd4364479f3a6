//! The per-request aggregation: a state machine that resolves the locations
//! of a postal code, fans one availability probe out per location and
//! collects the probes' outcomes.
//!
//! The machine makes no network call. Each step returns an [`Action`] that
//! tells the caller what to do next, and the caller reports what happened as
//! the next [`Event`].
use vstd::prelude::*;
use crate::cache::LocationCache;
use crate::error::{AggregationError, UpstreamError, UpstreamErrorView};
use crate::location::{clone_locations, location_views, Location, LocationView};
use crate::record::{
    clone_records, record_of, record_views, AvailabilityRecord, AvailabilityRecordView,
};
use crate::slots::{availability_rule, SlotMap};

verus! {

/// Where one aggregation stands.
#[derive(Debug, Clone, Copy, PartialEq, Eq, Structural)]
pub enum Phase {
    /// Nothing was asked yet.
    Idle,
    /// The store locator was asked and has not answered.
    ResolvingLocations,
    /// The store locator failed: the aggregation failed.
    ResolveFailed,
    /// Probes are out and at least one has not reported.
    ProbingAvailability,
    /// A probe failed: the aggregation failed.
    AnyProbeFailed,
    /// Every probe succeeded: the result is complete.
    AllProbesSucceeded,
}

/// What happened outside the machine.
pub enum Event {
    /// The aggregation was requested.
    Requested,
    /// The store locator answered with this list.
    StoresResolved(Vec<Location>),
    /// The store locator failed.
    StoresFailed(UpstreamError),
    /// The probe of the location at this index answered with this mapping.
    ProbeSucceeded(usize, SlotMap),
    /// The probe of the location at this index failed.
    ProbeFailed(usize, UpstreamError),
}

/// Mathematical value of an [`Event`].
pub ghost enum EventView {
    Requested,
    StoresResolved(Seq<LocationView>),
    StoresFailed(UpstreamErrorView),
    ProbeSucceeded(usize, Map<Seq<char>, bool>),
    ProbeFailed(usize, UpstreamErrorView),
}

impl View for Event {
    type V = EventView;

    open spec fn view(&self) -> EventView {
        match self {
            Event::Requested => EventView::Requested,
            Event::StoresResolved(list) => EventView::StoresResolved(location_views(list@)),
            Event::StoresFailed(error) => EventView::StoresFailed(error@),
            Event::ProbeSucceeded(index, slots) => EventView::ProbeSucceeded(*index, slots@),
            Event::ProbeFailed(index, error) => EventView::ProbeFailed(*index, error@),
        }
    }
}

/// What the caller is to do after a step.
#[derive(Debug, PartialEq, Eq)]
pub enum Action {
    /// Ask the store locator for the locations near the postal code.
    LookupStores,
    /// Probe each of these store identifiers; the probe of the identifier at
    /// index `i` reports under index `i`.
    LaunchProbes(Vec<i32>),
    /// Wait for the probes that have not reported.
    AwaitProbes,
    /// Answer the request with this failure.
    Fail(AggregationError),
    /// Answer the request with these records.
    Respond(Vec<AvailabilityRecord>),
    /// The event did not apply in this phase and changed nothing.
    Ignored,
}

/// Mathematical value of an [`Action`].
pub ghost enum ActionView {
    LookupStores,
    LaunchProbes(Seq<int>),
    AwaitProbes,
    Fail(UpstreamErrorView),
    Respond(Seq<AvailabilityRecordView>),
    Ignored,
}

/// The store identifiers as mathematical integers.
pub open spec fn identifier_views(identifiers: Seq<i32>) -> Seq<int> {
    Seq::new(identifiers.len(), |i: int| identifiers[i] as int)
}

impl View for Action {
    type V = ActionView;

    open spec fn view(&self) -> ActionView {
        match self {
            Action::LookupStores => ActionView::LookupStores,
            Action::LaunchProbes(identifiers) => ActionView::LaunchProbes(
                identifier_views(identifiers@),
            ),
            Action::AwaitProbes => ActionView::AwaitProbes,
            Action::Fail(error) => ActionView::Fail(error@),
            Action::Respond(records) => ActionView::Respond(record_views(records@)),
            Action::Ignored => ActionView::Ignored,
        }
    }
}

/// Mathematical value of an [`Aggregation`].
#[verifier::ext_equal]
pub ghost struct AggregationView {
    /// The postal code asked for.
    pub postal_code: Seq<char>,
    pub phase: Phase,
    /// The resolved locations; empty until they are resolved.
    pub locations: Seq<LocationView>,
    /// Indices of the locations whose probes succeeded, in the order in
    /// which they reported.
    pub reported: Seq<usize>,
    /// The records of those locations, in the same order.
    pub records: Seq<AvailabilityRecordView>,
    /// The failure that ended the aggregation, if one did.
    pub failure: Option<UpstreamErrorView>,
}

/// Contents of the location cache: each cached postal code with its list.
pub type CacheView = Map<Seq<char>, Seq<LocationView>>;

/// A machine's state, the cache and the action after one step.
pub ghost struct Transition {
    pub state: AggregationView,
    pub cache: CacheView,
    pub action: ActionView,
}

/// The state of a machine that was not yet asked anything.
pub open spec fn initial(postal_code: Seq<char>) -> AggregationView {
    AggregationView {
        postal_code,
        phase: Phase::Idle,
        locations: Seq::empty(),
        reported: Seq::empty(),
        records: Seq::empty(),
        failure: None,
    }
}

/// The identifiers of `locations`, in their order.
pub open spec fn identifiers_of(locations: Seq<LocationView>) -> Seq<int> {
    Seq::new(locations.len(), |i: int| locations[i].id)
}

/// The state once `locations` are resolved: probing, or complete at once
/// where there is nothing to probe.
pub open spec fn resolved_state(s: AggregationView, locations: Seq<LocationView>) -> AggregationView {
    AggregationView {
        postal_code: s.postal_code,
        phase: if locations.len() == 0 {
            Phase::AllProbesSucceeded
        } else {
            Phase::ProbingAvailability
        },
        locations,
        reported: Seq::empty(),
        records: Seq::empty(),
        failure: None,
    }
}

/// The action once `locations` are resolved: one probe per location, or the
/// empty response where there is nothing to probe.
pub open spec fn resolved_action(locations: Seq<LocationView>) -> ActionView {
    if locations.len() == 0 {
        ActionView::Respond(Seq::empty())
    } else {
        ActionView::LaunchProbes(identifiers_of(locations))
    }
}

/// The state after a failure.
pub open spec fn failed_state(s: AggregationView, phase: Phase, error: UpstreamErrorView) -> AggregationView {
    AggregationView {
        postal_code: s.postal_code,
        phase,
        locations: s.locations,
        reported: Seq::empty(),
        records: Seq::empty(),
        failure: Some(error),
    }
}

/// Whether a report for the probe at `index` is due: probes are out, the
/// index names a location, and that location has not reported.
pub open spec fn awaits(s: AggregationView, index: usize) -> bool {
    &&& s.phase == Phase::ProbingAvailability
    &&& index < s.locations.len()
    &&& !s.reported.contains(index)
}

/// The state after the probe at `index` answered with `slots`.
pub open spec fn reported_state(s: AggregationView, index: usize, slots: Map<Seq<char>, bool>) -> AggregationView {
    AggregationView {
        postal_code: s.postal_code,
        phase: if s.reported.len() + 1 == s.locations.len() {
            Phase::AllProbesSucceeded
        } else {
            Phase::ProbingAvailability
        },
        locations: s.locations,
        reported: s.reported.push(index),
        records: s.records.push(record_of(s.locations[index as int], availability_rule(slots))),
        failure: None,
    }
}

/// One step of the machine: the state, the cache and the action that follow
/// from a state, a cache and an event.
///
/// - `Idle`, on `Requested`: a cached list resolves the locations at once;
///   otherwise the store locator is to be asked.
/// - `ResolvingLocations`, on `StoresResolved`: the list is cached under the
///   postal code and resolves the locations; on `StoresFailed`: the
///   aggregation fails and the cache stays as it was.
/// - `ProbingAvailability`, on `ProbeSucceeded` for a location that has not
///   reported: its record is added, and the response is complete once every
///   location has one; on `ProbeFailed` for such a location: the aggregation
///   fails and the records collected so far are dropped.
/// - Anything else is ignored and changes nothing.
pub open spec fn transition(s: AggregationView, c: CacheView, e: EventView) -> Transition {
    match e {
        EventView::Requested => if s.phase != Phase::Idle {
            Transition { state: s, cache: c, action: ActionView::Ignored }
        } else if c.contains_key(s.postal_code) {
            Transition {
                state: resolved_state(s, c[s.postal_code]),
                cache: c,
                action: resolved_action(c[s.postal_code]),
            }
        } else {
            Transition {
                state: AggregationView { phase: Phase::ResolvingLocations, ..s },
                cache: c,
                action: ActionView::LookupStores,
            }
        },
        EventView::StoresResolved(locations) => if s.phase != Phase::ResolvingLocations {
            Transition { state: s, cache: c, action: ActionView::Ignored }
        } else {
            Transition {
                state: resolved_state(s, locations),
                cache: c.insert(s.postal_code, locations),
                action: resolved_action(locations),
            }
        },
        EventView::StoresFailed(error) => if s.phase != Phase::ResolvingLocations {
            Transition { state: s, cache: c, action: ActionView::Ignored }
        } else {
            Transition {
                state: failed_state(s, Phase::ResolveFailed, error),
                cache: c,
                action: ActionView::Fail(error),
            }
        },
        EventView::ProbeSucceeded(index, slots) => if !awaits(s, index) {
            Transition { state: s, cache: c, action: ActionView::Ignored }
        } else {
            Transition {
                state: reported_state(s, index, slots),
                cache: c,
                action: if s.reported.len() + 1 == s.locations.len() {
                    ActionView::Respond(reported_state(s, index, slots).records)
                } else {
                    ActionView::AwaitProbes
                },
            }
        },
        EventView::ProbeFailed(index, error) => if !awaits(s, index) {
            Transition { state: s, cache: c, action: ActionView::Ignored }
        } else {
            Transition {
                state: failed_state(s, Phase::AnyProbeFailed, error),
                cache: c,
                action: ActionView::Fail(error),
            }
        },
    }
}

/// Whether the records collected so far belong to distinct locations of the
/// resolved list, each record describing the location it was made for.
pub open spec fn collected(s: AggregationView) -> bool {
    &&& s.reported.len() == s.records.len()
    &&& s.reported.no_duplicates()
    &&& forall|k: int| 0 <= k < s.reported.len() ==> (#[trigger] s.reported[k]) < s.locations.len()
    &&& forall|k: int|
        0 <= k < s.records.len() ==> (#[trigger] s.records[k]) == record_of(
            s.locations[s.reported[k] as int],
            s.records[k].possible_availability,
        )
}

/// What holds of every state that a machine can reach.
pub open spec fn well_formed(s: AggregationView) -> bool {
    match s.phase {
        Phase::Idle | Phase::ResolvingLocations => {
            &&& s.locations.len() == 0
            &&& s.reported.len() == 0
            &&& s.records.len() == 0
            &&& s.failure is None
        },
        Phase::ResolveFailed => {
            &&& s.locations.len() == 0
            &&& s.reported.len() == 0
            &&& s.records.len() == 0
            &&& s.failure is Some
        },
        Phase::ProbingAvailability => {
            &&& s.reported.len() < s.locations.len()
            &&& collected(s)
            &&& s.failure is None
        },
        Phase::AnyProbeFailed => {
            &&& s.reported.len() == 0
            &&& s.records.len() == 0
            &&& s.failure is Some
        },
        Phase::AllProbesSucceeded => {
            &&& s.reported.len() == s.locations.len()
            &&& collected(s)
            &&& s.failure is None
        },
    }
}

/// A machine that was not yet asked anything is well formed, and a step
/// keeps a machine well formed.
pub proof fn steps_keep_machines_well_formed(s: AggregationView, c: CacheView, e: EventView)
    requires
        well_formed(s),
    ensures
        well_formed(initial(s.postal_code)),
        well_formed(transition(s, c, e).state),
        transition(s, c, e).state.postal_code == s.postal_code,
{
    let t = transition(s, c, e);
    match e {
        EventView::ProbeSucceeded(index, slots) => {
            if awaits(s, index) {
                let n = reported_state(s, index, slots);
                assert(n.reported.no_duplicates()) by {
                    assert forall|i: int, j: int|
                        0 <= i < n.reported.len() && 0 <= j < n.reported.len() && i != j implies n.reported[i]
                        != n.reported[j] by {
                        if i < s.reported.len() {
                            assert(s.reported.contains(s.reported[i]));
                        }
                        if j < s.reported.len() {
                            assert(s.reported.contains(s.reported[j]));
                        }
                    }
                }
                assert(collected(n));
            }
        },
        _ => {},
    }
}

/// The failure that a state remembers, as a mathematical value.
pub open spec fn failure_view(failure: Option<UpstreamError>) -> Option<UpstreamErrorView> {
    match failure {
        Some(error) => Some(error@),
        None => None,
    }
}

/// One request's aggregation.
pub struct Aggregation {
    postal_code: String,
    phase: Phase,
    locations: Vec<Location>,
    reported: Vec<usize>,
    records: Vec<AvailabilityRecord>,
    failure: Option<UpstreamError>,
}

impl View for Aggregation {
    type V = AggregationView;

    closed spec fn view(&self) -> AggregationView {
        AggregationView {
            postal_code: self.postal_code@,
            phase: self.phase,
            locations: location_views(self.locations@),
            reported: self.reported@,
            records: record_views(self.records@),
            failure: failure_view(self.failure),
        }
    }
}

/// Whether `index` occurs in `reported`.
fn has_reported(reported: &Vec<usize>, index: usize) -> (found: bool)
    ensures
        found == reported@.contains(index),
{
    let mut k: usize = 0;
    while k < reported.len()
        invariant
            k <= reported.len(),
            forall|j: int| 0 <= j < k ==> reported[j] != index,
        decreases reported.len() - k,
    {
        if reported[k] == index {
            return true;
        }
        k += 1;
    }
    false
}

/// The store identifiers of `locations`, in their order.
fn collect_identifiers(locations: &Vec<Location>) -> (identifiers: Vec<i32>)
    ensures
        identifier_views(identifiers@) == identifiers_of(location_views(locations@)),
{
    let mut identifiers: Vec<i32> = Vec::new();
    let mut i: usize = 0;
    while i < locations.len()
        invariant
            i <= locations.len(),
            identifiers.len() == i,
            forall|k: int| 0 <= k < i ==> identifiers[k] == locations[k].id,
        decreases locations.len() - i,
    {
        identifiers.push(locations[i].id);
        i += 1;
    }
    assert(identifier_views(identifiers@) =~= identifiers_of(location_views(locations@)));
    identifiers
}

impl Aggregation {
    #[verifier::type_invariant]
    spec fn holds_together(self) -> bool {
        well_formed(self@)
    }

    /// A machine for `postal_code` that was not yet asked anything.
    pub fn new(postal_code: String) -> (machine: Aggregation)
        ensures
            machine@ == initial(postal_code@),
            well_formed(machine@),
    {
        let machine = Aggregation {
            postal_code,
            phase: Phase::Idle,
            locations: Vec::new(),
            reported: Vec::new(),
            records: Vec::new(),
            failure: None,
        };
        assert(machine@ =~= initial(postal_code@));
        machine
    }

    /// The machine and the action once `locations` are resolved.
    fn resolved(postal_code: String, locations: Vec<Location>) -> (out: (Aggregation, Action))
        ensures
            out.0@ == resolved_state(initial(postal_code@), location_views(locations@)),
            out.1@ == resolved_action(location_views(locations@)),
    {
        let ghost list = location_views(locations@);
        if locations.len() == 0 {
            let machine = Aggregation {
                postal_code,
                phase: Phase::AllProbesSucceeded,
                locations,
                reported: Vec::new(),
                records: Vec::new(),
                failure: None,
            };
            let action = Action::Respond(Vec::new());
            assert(machine@ =~= resolved_state(initial(postal_code@), list));
            assert(action@ =~= resolved_action(list));
            (machine, action)
        } else {
            let identifiers = collect_identifiers(&locations);
            let machine = Aggregation {
                postal_code,
                phase: Phase::ProbingAvailability,
                locations,
                reported: Vec::new(),
                records: Vec::new(),
                failure: None,
            };
            assert(machine@ =~= resolved_state(initial(postal_code@), list));
            (machine, Action::LaunchProbes(identifiers))
        }
    }

    /// Takes one step: consumes the event, updates the cache where the step
    /// says so, and returns the machine after the step with the action that
    /// the caller is to perform.
    pub fn step(self, cache: &mut LocationCache, event: Event) -> (out: (Aggregation, Action))
        ensures
            out.0@ == transition(self@, old(cache)@, event@).state,
            final(cache)@ == transition(self@, old(cache)@, event@).cache,
            out.1@ == transition(self@, old(cache)@, event@).action,
            well_formed(self@),
            well_formed(out.0@),
    {
        proof {
            use_type_invariant(&self);
            steps_keep_machines_well_formed(self@, cache@, event@);
        }
        let ghost before = self@;
        let Aggregation { postal_code, phase, locations, reported, records, failure } = self;
        match event {
            Event::Requested => {
                if phase == Phase::Idle {
                    match cache.get(postal_code.as_str()) {
                        Some(list) => {
                            let out = Aggregation::resolved(postal_code, list);
                            assert(out.0@ =~= resolved_state(before, cache@[before.postal_code]));
                            out
                        },
                        None => {
                            let machine = Aggregation {
                                postal_code,
                                phase: Phase::ResolvingLocations,
                                locations,
                                reported,
                                records,
                                failure,
                            };
                            (machine, Action::LookupStores)
                        },
                    }
                } else {
                    (
                        Aggregation { postal_code, phase, locations, reported, records, failure },
                        Action::Ignored,
                    )
                }
            },
            Event::StoresResolved(list) => {
                if phase == Phase::ResolvingLocations {
                    cache.put(postal_code.clone(), clone_locations(&list));
                    let out = Aggregation::resolved(postal_code, list);
                    assert(out.0@ =~= resolved_state(before, location_views(list@)));
                    out
                } else {
                    (
                        Aggregation { postal_code, phase, locations, reported, records, failure },
                        Action::Ignored,
                    )
                }
            },
            Event::StoresFailed(error) => {
                if phase == Phase::ResolvingLocations {
                    let machine = Aggregation {
                        postal_code,
                        phase: Phase::ResolveFailed,
                        locations,
                        reported: Vec::new(),
                        records: Vec::new(),
                        failure: Some(error.clone()),
                    };
                    assert(machine@ =~= failed_state(before, Phase::ResolveFailed, error@));
                    (machine, Action::Fail(AggregationError::wrap(error)))
                } else {
                    (
                        Aggregation { postal_code, phase, locations, reported, records, failure },
                        Action::Ignored,
                    )
                }
            },
            Event::ProbeSucceeded(index, slots) => {
                if phase == Phase::ProbingAvailability && index < locations.len() && !has_reported(
                    &reported,
                    index,
                ) {
                    let mut reported = reported;
                    let mut records = records;
                    let available = slots.possible_availability();
                    records.push(AvailabilityRecord::for_location(&locations[index], available));
                    reported.push(index);
                    let ghost after = reported_state(before, index, slots@);
                    assert(record_views(records@) =~= after.records);
                    if reported.len() == locations.len() {
                        let response = clone_records(&records);
                        let machine = Aggregation {
                            postal_code,
                            phase: Phase::AllProbesSucceeded,
                            locations,
                            reported,
                            records,
                            failure: None,
                        };
                        assert(machine@ =~= after);
                        (machine, Action::Respond(response))
                    } else {
                        let machine = Aggregation {
                            postal_code,
                            phase: Phase::ProbingAvailability,
                            locations,
                            reported,
                            records,
                            failure: None,
                        };
                        assert(machine@ =~= after);
                        (machine, Action::AwaitProbes)
                    }
                } else {
                    (
                        Aggregation { postal_code, phase, locations, reported, records, failure },
                        Action::Ignored,
                    )
                }
            },
            Event::ProbeFailed(index, error) => {
                if phase == Phase::ProbingAvailability && index < locations.len() && !has_reported(
                    &reported,
                    index,
                ) {
                    let machine = Aggregation {
                        postal_code,
                        phase: Phase::AnyProbeFailed,
                        locations,
                        reported: Vec::new(),
                        records: Vec::new(),
                        failure: Some(error.clone()),
                    };
                    assert(machine@ =~= failed_state(before, Phase::AnyProbeFailed, error@));
                    (machine, Action::Fail(AggregationError::wrap(error)))
                } else {
                    (
                        Aggregation { postal_code, phase, locations, reported, records, failure },
                        Action::Ignored,
                    )
                }
            },
        }
    }
    /// The phase the machine is in.
    pub fn phase(&self) -> (phase: Phase)
        ensures
            phase == self@.phase,
    {
        self.phase
    }

    /// The postal code the machine was made for.
    pub fn postal_code(&self) -> (code: String)
        ensures
            code@ == self@.postal_code,
    {
        self.postal_code.clone()
    }

    /// The resolved locations; empty until they are resolved.
    pub fn locations(&self) -> (list: Vec<Location>)
        ensures
            location_views(list@) == self@.locations,
    {
        clone_locations(&self.locations)
    }

    /// How the aggregation ended: the complete response once every probe
    /// succeeded, the failure once the store locator or a probe failed, and
    /// `None` while the aggregation is still under way.
    pub fn outcome(&self) -> (outcome: Option<Result<Vec<AvailabilityRecord>, AggregationError>>)
        ensures
            well_formed(self@),
            match outcome {
                Some(Ok(records)) => self@.phase == Phase::AllProbesSucceeded && record_views(
                    records@,
                ) == self@.records,
                Some(Err(error)) => (self@.phase == Phase::ResolveFailed || self@.phase
                    == Phase::AnyProbeFailed) && self@.failure == Some(error@),
                None => self@.phase == Phase::Idle || self@.phase == Phase::ResolvingLocations
                    || self@.phase == Phase::ProbingAvailability,
            },
    {
        proof {
            use_type_invariant(self);
        }
        match self.phase {
            Phase::AllProbesSucceeded => Some(Ok(clone_records(&self.records))),
            Phase::ResolveFailed | Phase::AnyProbeFailed => match &self.failure {
                Some(error) => Some(Err(AggregationError::wrap(error.clone()))),
                None => None,
            },
            _ => None,
        }
    }
}

} // verus!
