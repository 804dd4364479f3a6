//! What holds of every aggregation, stated over the machine's transition
//! function and proved once and for all.
use vstd::prelude::*;
use vstd::set_lib::{lemma_int_range, lemma_len_subset, lemma_subset_equality, set_int_range};
use crate::aggregator::{
    awaits, collected, identifiers_of, initial, resolved_action, transition, well_formed,
    ActionView, AggregationView, CacheView, EventView, Phase, Transition,
};
use crate::error::UpstreamErrorView;
use crate::location::LocationView;
use crate::record::{record_of, AvailabilityRecordView};
use crate::slots::availability_rule;

verus! {

/// Whether `i` is one of `indices`.
spec fn occurs(indices: Seq<usize>, i: int) -> bool {
    exists|k: int| 0 <= k < indices.len() && (#[trigger] indices[k]) == i
}

/// Distinct indices below `n`, `n` of them, are all the indices below `n`.
proof fn distinct_indices_cover_the_range(indices: Seq<usize>, n: nat)
    requires
        indices.no_duplicates(),
        indices.len() == n,
        forall|k: int| 0 <= k < indices.len() ==> (#[trigger] indices[k]) < n,
    ensures
        forall|i: int| 0 <= i < n ==> #[trigger] occurs(indices, i),
{
    let numbers = indices.map_values(|x: usize| x as int);
    assert(numbers.no_duplicates()) by {
        assert forall|i: int, j: int|
            0 <= i < numbers.len() && 0 <= j < numbers.len() && i != j implies numbers[i]
            != numbers[j] by {
            assert(indices[i] != indices[j]);
        }
    }
    numbers.unique_seq_to_set();
    lemma_int_range(0, n as int);
    let range = set_int_range(0, n as int);
    assert(numbers.to_set().subset_of(range)) by {
        assert forall|x: int| numbers.to_set().contains(x) implies range.contains(x) by {
            let k = choose|k: int| 0 <= k < numbers.len() && numbers[k] == x;
            assert(indices[k] < n);
        }
    }
    lemma_len_subset(numbers.to_set(), range);
    lemma_subset_equality(numbers.to_set(), range);
    assert forall|i: int| 0 <= i < n implies #[trigger] occurs(indices, i) by {
        assert(range.contains(i));
        assert(numbers.to_set().contains(i));
        let k = choose|k: int| 0 <= k < numbers.len() && numbers[k] == i;
        assert(indices[k] == i);
    }
}

/// Resolving `n` locations launches exactly `n` probes, one per location and
/// in the locations' order, whether the list came from the store locator or
/// from the cache; with no location there is nothing to probe and the empty
/// response is complete at once.
pub proof fn one_probe_per_location(s: AggregationView, c: CacheView, locations: Seq<LocationView>)
    requires
        well_formed(s),
    ensures
        s.phase == Phase::ResolvingLocations ==> transition(
            s,
            c,
            EventView::StoresResolved(locations),
        ).action == resolved_action(locations),
        s.phase == Phase::Idle && c.contains_key(s.postal_code) && c[s.postal_code] == locations
            ==> transition(s, c, EventView::Requested).action == resolved_action(locations),
        locations.len() > 0 ==> resolved_action(locations) == ActionView::LaunchProbes(
            identifiers_of(locations),
        ),
        identifiers_of(locations).len() == locations.len(),
        forall|i: int|
            0 <= i < locations.len() ==> (#[trigger] identifiers_of(locations)[i])
                == locations[i].id,
        locations.len() == 0 ==> resolved_action(locations) == ActionView::Respond(Seq::empty()),
{
}

/// Whether the location at `index` has a record among the collected ones:
/// a record that was made for that location and describes it.
pub open spec fn has_record(s: AggregationView, index: int) -> bool {
    exists|k: int|
        0 <= k < s.records.len() && (#[trigger] s.reported[k]) == index && s.records[k]
            == record_of(s.locations[index], s.records[k].possible_availability)
}

/// A response is given only by the step that collects the last outstanding
/// probe, and it is complete: it holds as many records as there are resolved
/// locations, and every location has exactly one record, which describes
/// that location. The record added by the step carries the flag that the
/// availability rule reads off the reported slot mapping.
pub proof fn response_covers_every_location(s: AggregationView, c: CacheView, e: EventView)
    requires
        well_formed(s),
        transition(s, c, e).action is Respond,
    ensures
        ({
            let t = transition(s, c, e);
            let records = t.action->Respond_0;
            &&& t.state.phase == Phase::AllProbesSucceeded
            &&& records == t.state.records
            &&& records.len() == t.state.locations.len()
            &&& forall|i: int| 0 <= i < t.state.locations.len() ==> #[trigger] has_record(t.state, i)
            &&& forall|k: int, l: int|
                0 <= k < records.len() && 0 <= l < records.len() && k != l
                    ==> t.state.reported[k] != t.state.reported[l]
            &&& e matches EventView::ProbeSucceeded(index, slots) ==> records.len() > 0
                && records.last() == record_of(s.locations[index as int], availability_rule(slots))
        }),
{
    let t = transition(s, c, e);
    crate::aggregator::steps_keep_machines_well_formed(s, c, e);
    let records = t.action->Respond_0;
    assert(records == t.state.records);
    assert(collected(t.state));
    distinct_indices_cover_the_range(t.state.reported, t.state.locations.len());
    assert forall|i: int| 0 <= i < t.state.locations.len() implies #[trigger] has_record(
        t.state,
        i,
    ) by {
        assert(occurs(t.state.reported, i));
        let k = choose|k: int|
            0 <= k < t.state.reported.len() && (#[trigger] t.state.reported[k]) == i;
        assert(records[k] == record_of(
            t.state.locations[t.state.reported[k] as int],
            records[k].possible_availability,
        ));
    }
}

/// A failed probe fails the whole aggregation: the step answers with the
/// probe's failure, keeps none of the records collected so far, and leaves
/// the cache as it was.
pub proof fn failed_probe_fails_the_aggregation(
    s: AggregationView,
    c: CacheView,
    index: usize,
    error: UpstreamErrorView,
)
    requires
        well_formed(s),
        awaits(s, index),
    ensures
        ({
            let t = transition(s, c, EventView::ProbeFailed(index, error));
            &&& t.action == ActionView::Fail(error)
            &&& t.state.phase == Phase::AnyProbeFailed
            &&& t.state.failure == Some(error)
            &&& t.state.records.len() == 0
            &&& t.cache == c
        }),
{
}

/// A failed store lookup fails the aggregation before any probe is
/// launched, and nothing is cached for the postal code.
pub proof fn failed_lookup_fails_the_aggregation(
    s: AggregationView,
    c: CacheView,
    error: UpstreamErrorView,
)
    requires
        well_formed(s),
        s.phase == Phase::ResolvingLocations,
    ensures
        ({
            let t = transition(s, c, EventView::StoresFailed(error));
            &&& t.action == ActionView::Fail(error)
            &&& t.state.phase == Phase::ResolveFailed
            &&& t.state.failure == Some(error)
            &&& t.state.locations.len() == 0
            &&& t.cache == c
        }),
{
}

/// Whether the aggregation has ended, in success or in failure.
pub open spec fn ended(s: AggregationView) -> bool {
    s.phase == Phase::ResolveFailed || s.phase == Phase::AnyProbeFailed || s.phase
        == Phase::AllProbesSucceeded
}

/// An aggregation that has ended stays as it is: every later event is
/// ignored and changes neither the machine nor the cache.
pub proof fn ended_machines_ignore_events(s: AggregationView, c: CacheView, e: EventView)
    requires
        ended(s),
    ensures
        transition(s, c, e) == (Transition { state: s, cache: c, action: ActionView::Ignored }),
{
}

/// The actions of a machine that is fed `events` one after the other.
pub open spec fn actions_of(s: AggregationView, c: CacheView, events: Seq<EventView>) -> Seq<ActionView>
    decreases events.len(),
{
    if events.len() == 0 {
        Seq::empty()
    } else {
        let t = transition(s, c, events.first());
        seq![t.action] + actions_of(t.state, t.cache, events.drop_first())
    }
}

/// Whichever events a machine is fed, it never both fails and responds, and
/// it gives at most one answer: after a `Fail` or a `Respond` every action is
/// `Ignored`. So an aggregation in which a probe failed returns no records,
/// neither all nor some.
pub proof fn one_answer_per_aggregation(s: AggregationView, c: CacheView, events: Seq<EventView>)
    requires
        well_formed(s),
    ensures
        actions_of(s, c, events).len() == events.len(),
        forall|i: int, j: int|
            #![trigger actions_of(s, c, events)[i], actions_of(s, c, events)[j]]
            0 <= i < j < events.len() && (actions_of(s, c, events)[i] is Fail || actions_of(
                s,
                c,
                events,
            )[i] is Respond) ==> actions_of(s, c, events)[j] == ActionView::Ignored,
        ended(s) ==> forall|i: int|
            0 <= i < events.len() ==> (#[trigger] actions_of(s, c, events)[i])
                == ActionView::Ignored,
    decreases events.len(),
{
    if events.len() > 0 {
        let t = transition(s, c, events.first());
        let rest = events.drop_first();
        crate::aggregator::steps_keep_machines_well_formed(s, c, events.first());
        one_answer_per_aggregation(t.state, t.cache, rest);
        let all = actions_of(s, c, events);
        let tail = actions_of(t.state, t.cache, rest);
        assert(all == seq![t.action] + tail);
        assert forall|i: int, j: int|
            #![trigger all[i], all[j]]
            0 <= i < j < events.len() && (all[i] is Fail || all[i] is Respond) implies all[j]
            == ActionView::Ignored by {
            assert(all[j] == tail[j - 1]);
            if i == 0 {
                assert(all[0] == t.action);
                assert(ended(t.state));
            } else {
                assert(all[i] == tail[i - 1]);
            }
        }
        if ended(s) {
            assert forall|i: int| 0 <= i < events.len() implies (#[trigger] all[i])
                == ActionView::Ignored by {
                if i > 0 {
                    assert(all[i] == tail[i - 1]);
                }
            }
        }
    }
}

/// The events of probes that succeed one after the other: the probe of the
/// location at `order[j]` answers with `answers[j]`.
pub open spec fn successes(order: Seq<usize>, answers: Seq<Map<Seq<char>, bool>>) -> Seq<EventView> {
    Seq::new(order.len(), |j: int| EventView::ProbeSucceeded(order[j], answers[j]))
}

/// The records of those probes, in the order in which they reported.
pub open spec fn records_for(
    locations: Seq<LocationView>,
    order: Seq<usize>,
    answers: Seq<Map<Seq<char>, bool>>,
) -> Seq<AvailabilityRecordView> {
    Seq::new(
        order.len(),
        |j: int| record_of(locations[order[j] as int], availability_rule(answers[j])),
    )
}

/// Success is owed when every probe succeeds. Once probes are out, let each
/// location that has not reported report a success, once and in any order:
/// the machine waits until the last report and then responds, with one
/// record per resolved location, in the order of the reports.
pub proof fn every_probe_succeeding_completes_the_response(
    s: AggregationView,
    c: CacheView,
    order: Seq<usize>,
    answers: Seq<Map<Seq<char>, bool>>,
)
    requires
        well_formed(s),
        s.phase == Phase::ProbingAvailability,
        order.len() == answers.len(),
        (s.reported + order).no_duplicates(),
        forall|j: int| 0 <= j < order.len() ==> (#[trigger] order[j]) < s.locations.len(),
        s.reported.len() + order.len() == s.locations.len(),
    ensures
        ({
            let actions = actions_of(s, c, successes(order, answers));
            let response = s.records + records_for(s.locations, order, answers);
            &&& actions.len() == order.len()
            &&& order.len() > 0
            &&& forall|j: int|
                0 <= j < order.len() - 1 ==> (#[trigger] actions[j]) == ActionView::AwaitProbes
            &&& actions.last() == ActionView::Respond(response)
            &&& response.len() == s.locations.len()
        }),
    decreases order.len(),
{
    let events = successes(order, answers);
    let first = events.first();
    let t = transition(s, c, first);
    let whole = s.reported + order;
    assert(!s.reported.contains(order[0])) by {
        if s.reported.contains(order[0]) {
            let k = choose|k: int| 0 <= k < s.reported.len() && s.reported[k] == order[0];
            assert(whole[k] == whole[s.reported.len() as int]);
        }
    }
    assert(awaits(s, order[0]));
    crate::aggregator::steps_keep_machines_well_formed(s, c, first);
    let rest = events.drop_first();
    let actions = actions_of(s, c, events);
    let response = s.records + records_for(s.locations, order, answers);
    assert(actions == seq![t.action] + actions_of(t.state, t.cache, rest));
    if order.len() == 1 {
        assert(rest.len() == 0);
        assert(actions =~= seq![t.action]);
        assert(t.state.records =~= response);
    } else {
        let later = order.drop_first();
        let later_answers = answers.drop_first();
        assert(rest =~= successes(later, later_answers));
        assert(t.state.reported + later =~= whole);
        every_probe_succeeding_completes_the_response(t.state, t.cache, later, later_answers);
        let tail = actions_of(t.state, t.cache, rest);
        assert(t.state.records + records_for(t.state.locations, later, later_answers)
            =~= response);
        assert(actions.last() == tail.last());
        assert forall|j: int| 0 <= j < order.len() - 1 implies (#[trigger] actions[j])
            == ActionView::AwaitProbes by {
            if j > 0 {
                assert(actions[j] == tail[j - 1]);
            }
        }
    }
}

/// A step touches the cache under the machine's own postal code only:
/// whatever is cached for any other postal code stays as it was, whichever
/// event arrives. Nothing is ever removed, and only a successful store
/// lookup adds or replaces an entry: the whole list that the store locator
/// returned, and never a failure.
pub proof fn steps_touch_their_own_postal_code_only(
    s: AggregationView,
    c: CacheView,
    e: EventView,
    other: Seq<char>,
)
    requires
        other != s.postal_code,
    ensures
        transition(s, c, e).cache.contains_key(other) == c.contains_key(other),
        transition(s, c, e).cache[other] == c[other],
        c.contains_key(s.postal_code) ==> transition(s, c, e).cache.contains_key(s.postal_code),
        transition(s, c, e).cache != c ==> s.phase == Phase::ResolvingLocations
            && e is StoresResolved,
        s.phase == Phase::ResolvingLocations ==> (e matches EventView::StoresResolved(locations)
            ==> transition(s, c, e).cache == c.insert(s.postal_code, locations)),
        transition(s, c, e).action is Fail ==> transition(s, c, e).cache == c,
{
}

/// The cache masks a later outage of the store locator. Take a postal code
/// that is not cached, let a first aggregation for it ask the store locator,
/// and let a second aggregation for it start on the cache that the first one
/// left. The second resolves its locations from the cache, without asking
/// the store locator, exactly when the first lookup succeeded, and it then
/// works on the very list that the first lookup returned. Where the first
/// lookup failed, the second has to ask again, and fails if the store
/// locator fails again.
pub proof fn cache_masks_a_later_outage(
    postal_code: Seq<char>,
    c: CacheView,
    first_lookup: Result<Seq<LocationView>, UpstreamErrorView>,
    later_failure: UpstreamErrorView,
)
    requires
        !c.contains_key(postal_code),
    ensures
        ({
            let asked = transition(initial(postal_code), c, EventView::Requested);
            let answered = transition(
                asked.state,
                asked.cache,
                match first_lookup {
                    Ok(locations) => EventView::StoresResolved(locations),
                    Err(error) => EventView::StoresFailed(error),
                },
            );
            let second = transition(initial(postal_code), answered.cache, EventView::Requested);
            &&& asked.action == ActionView::LookupStores
            &&& second.action != ActionView::LookupStores <==> first_lookup is Ok
            &&& first_lookup matches Ok(locations) ==> {
                &&& answered.cache == c.insert(postal_code, locations)
                &&& second.action == resolved_action(locations)
                &&& second.state.locations == locations
                &&& second.cache == answered.cache
            }
            &&& first_lookup is Err ==> {
                &&& answered.cache == c
                &&& second.action == ActionView::LookupStores
                &&& transition(
                    second.state,
                    second.cache,
                    EventView::StoresFailed(later_failure),
                ).action == ActionView::Fail(later_failure)
            }
        }),
{
}

/// Populating the cache for one postal code does not affect a lookup for
/// another: after a list is cached under `populated`, a machine for `other`
/// takes the same first step as before.
pub proof fn cache_entries_are_isolated(
    c: CacheView,
    populated: Seq<char>,
    locations: Seq<LocationView>,
    other: Seq<char>,
)
    requires
        populated != other,
    ensures
        c.insert(populated, locations).contains_key(other) == c.contains_key(other),
        c.insert(populated, locations)[other] == c[other],
        transition(initial(other), c.insert(populated, locations), EventView::Requested).state
            == transition(initial(other), c, EventView::Requested).state,
        transition(initial(other), c.insert(populated, locations), EventView::Requested).action
            == transition(initial(other), c, EventView::Requested).action,
{
}

} // verus!
