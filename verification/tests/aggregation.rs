use vaccine_slots::aggregator::{Action, Aggregation, Event, Phase};
use vaccine_slots::cache::LocationCache;
use vaccine_slots::error::{AggregationError, FailureKind, UpstreamError};
use vaccine_slots::location::Location;
use vaccine_slots::record::AvailabilityRecord;
use vaccine_slots::slots::SlotMap;

fn location(id: i32, address: &str, postal_code: &str, phone: &str) -> Location {
    Location {
        id,
        address: address.to_string(),
        postal_code: postal_code.to_string(),
        phone: phone.to_string(),
    }
}

fn slots(entries: &[(&str, bool)]) -> SlotMap {
    let mut map = SlotMap::new();
    for (slot, open) in entries {
        map.insert(slot.to_string(), *open);
    }
    map
}

fn record(id: i32, address: &str, postal_code: &str, phone: &str, available: bool) -> AvailabilityRecord {
    AvailabilityRecord {
        location_id: id,
        address: address.to_string(),
        postal_code: postal_code.to_string(),
        phone: phone.to_string(),
        possible_availability: available,
    }
}

fn main_street() -> Vec<Location> {
    vec![
        location(100, "1 Main St", "10001", "555-0001"),
        location(200, "2 Main St", "10001", "555-0002"),
    ]
}

fn sorted_by_id(mut records: Vec<AvailabilityRecord>) -> Vec<AvailabilityRecord> {
    records.sort_by_key(|r| r.location_id);
    records
}

#[test]
fn two_locations_with_mixed_availability() {
    let mut cache = LocationCache::new();
    let machine = Aggregation::new("10001".to_string());
    let (machine, action) = machine.step(&mut cache, Event::Requested);
    assert_eq!(action, Action::LookupStores);
    assert_eq!(machine.phase(), Phase::ResolvingLocations);
    let (machine, action) = machine.step(&mut cache, Event::StoresResolved(main_street()));
    assert_eq!(action, Action::LaunchProbes(vec![100, 200]));
    assert_eq!(machine.phase(), Phase::ProbingAvailability);
    let (machine, action) =
        machine.step(&mut cache, Event::ProbeSucceeded(0, slots(&[("1", true), ("2", true)])));
    assert_eq!(action, Action::AwaitProbes);
    assert!(machine.outcome().is_none());
    let (machine, action) =
        machine.step(&mut cache, Event::ProbeSucceeded(1, slots(&[("1", false), ("2", true)])));
    let expected = vec![
        record(100, "1 Main St", "10001", "555-0001", true),
        record(200, "2 Main St", "10001", "555-0002", false),
    ];
    assert_eq!(action, Action::Respond(expected.clone()));
    assert_eq!(machine.phase(), Phase::AllProbesSucceeded);
    assert_eq!(machine.outcome(), Some(Ok(expected)));
}

#[test]
fn completion_order_does_not_change_the_records() {
    let mut cache = LocationCache::new();
    let machine = Aggregation::new("10001".to_string());
    let (machine, _) = machine.step(&mut cache, Event::Requested);
    let (machine, _) = machine.step(&mut cache, Event::StoresResolved(main_street()));
    let (machine, action) =
        machine.step(&mut cache, Event::ProbeSucceeded(1, slots(&[("1", false), ("2", true)])));
    assert_eq!(action, Action::AwaitProbes);
    let (machine, action) =
        machine.step(&mut cache, Event::ProbeSucceeded(0, slots(&[("1", true), ("2", true)])));
    let in_completion_order = vec![
        record(200, "2 Main St", "10001", "555-0002", false),
        record(100, "1 Main St", "10001", "555-0001", true),
    ];
    assert_eq!(action, Action::Respond(in_completion_order));
    let records = match machine.outcome() {
        Some(Ok(records)) => records,
        other => panic!("unexpected outcome {:?}", other),
    };
    assert_eq!(
        sorted_by_id(records),
        vec![
            record(100, "1 Main St", "10001", "555-0001", true),
            record(200, "2 Main St", "10001", "555-0002", false),
        ]
    );
}

#[test]
fn single_entry_mapping_gives_no_availability() {
    let mut cache = LocationCache::new();
    let machine = Aggregation::new("10001".to_string());
    let (machine, _) = machine.step(&mut cache, Event::Requested);
    let (machine, action) = machine.step(
        &mut cache,
        Event::StoresResolved(vec![location(100, "1 Main St", "10001", "555-0001")]),
    );
    assert_eq!(action, Action::LaunchProbes(vec![100]));
    let (_, action) = machine.step(&mut cache, Event::ProbeSucceeded(0, slots(&[("1", true)])));
    assert_eq!(
        action,
        Action::Respond(vec![record(100, "1 Main St", "10001", "555-0001", false)])
    );
}

#[test]
fn second_request_is_resolved_from_the_cache() {
    let mut cache = LocationCache::new();
    let first = Aggregation::new("10001".to_string());
    let (first, _) = first.step(&mut cache, Event::Requested);
    let (first, _) = first.step(&mut cache, Event::StoresResolved(main_street()));
    assert_eq!(first.phase(), Phase::ProbingAvailability);

    let second = Aggregation::new("10001".to_string());
    let (second, action) = second.step(&mut cache, Event::Requested);
    assert_eq!(action, Action::LaunchProbes(vec![100, 200]));
    assert_eq!(second.phase(), Phase::ProbingAvailability);
    assert_eq!(second.locations(), main_street());
    // The store locator is out by now: its failure no longer matters.
    let outage = UpstreamError::network("connection refused".to_string());
    let (second, action) = second.step(&mut cache, Event::StoresFailed(outage));
    assert_eq!(action, Action::Ignored);
    assert_eq!(second.phase(), Phase::ProbingAvailability);
    let (second, _) =
        second.step(&mut cache, Event::ProbeSucceeded(0, slots(&[("1", true), ("2", false)])));
    let (second, action) =
        second.step(&mut cache, Event::ProbeSucceeded(1, slots(&[("1", true), ("2", true)])));
    let expected = vec![
        record(100, "1 Main St", "10001", "555-0001", true),
        record(200, "2 Main St", "10001", "555-0002", true),
    ];
    assert_eq!(action, Action::Respond(expected.clone()));
    assert_eq!(second.outcome(), Some(Ok(expected)));
}

#[test]
fn cache_is_populated_even_if_a_probe_fails_later() {
    let mut cache = LocationCache::new();
    let first = Aggregation::new("10001".to_string());
    let (first, _) = first.step(&mut cache, Event::Requested);
    let (first, _) = first.step(&mut cache, Event::StoresResolved(main_street()));
    let (first, action) = first.step(
        &mut cache,
        Event::ProbeFailed(0, UpstreamError::decode("unexpected body".to_string())),
    );
    assert!(matches!(action, Action::Fail(_)));
    assert_eq!(first.phase(), Phase::AnyProbeFailed);
    assert_eq!(cache.get("10001"), Some(main_street()));
    let (_, action) = Aggregation::new("10001".to_string()).step(&mut cache, Event::Requested);
    assert_eq!(action, Action::LaunchProbes(vec![100, 200]));
}

#[test]
fn failed_lookup_is_not_cached_and_the_next_request_asks_again() {
    let mut cache = LocationCache::new();
    let first = Aggregation::new("10001".to_string());
    let (first, action) = first.step(&mut cache, Event::Requested);
    assert_eq!(action, Action::LookupStores);
    let failure = UpstreamError::network("timed out".to_string());
    let (first, action) = first.step(&mut cache, Event::StoresFailed(failure));
    assert_eq!(
        action,
        Action::Fail(AggregationError::wrap(UpstreamError::network("timed out".to_string())))
    );
    assert_eq!(first.phase(), Phase::ResolveFailed);
    assert_eq!(
        first.outcome(),
        Some(Err(AggregationError::wrap(UpstreamError::network("timed out".to_string()))))
    );
    assert!(first.locations().is_empty());
    assert_eq!(cache.get("10001"), None);

    let second = Aggregation::new("10001".to_string());
    let (second, action) = second.step(&mut cache, Event::Requested);
    assert_eq!(action, Action::LookupStores);
    let (second, action) = second.step(
        &mut cache,
        Event::StoresFailed(UpstreamError::decode("missing field `stores`".to_string())),
    );
    match action {
        Action::Fail(error) => {
            assert_eq!(error.kind(), FailureKind::Decode);
            assert_eq!(error.message(), "missing field `stores`");
        }
        other => panic!("unexpected action {:?}", other),
    }
    assert_eq!(second.phase(), Phase::ResolveFailed);
}

#[test]
fn one_probe_is_launched_per_location() {
    let mut cache = LocationCache::new();
    let three = vec![
        location(7, "7 Elm St", "90210", "555-0007"),
        location(8, "8 Elm St", "90210", "555-0008"),
        location(9, "9 Elm St", "90211", "555-0009"),
    ];
    let machine = Aggregation::new("90210".to_string());
    let (machine, _) = machine.step(&mut cache, Event::Requested);
    let (machine, action) = machine.step(&mut cache, Event::StoresResolved(three));
    assert_eq!(action, Action::LaunchProbes(vec![7, 8, 9]));
    let (machine, action) = machine.step(&mut cache, Event::ProbeSucceeded(2, slots(&[])));
    assert_eq!(action, Action::AwaitProbes);
    let (machine, action) =
        machine.step(&mut cache, Event::ProbeSucceeded(0, slots(&[("1", true), ("9", false)])));
    assert_eq!(action, Action::AwaitProbes);
    let (machine, action) = machine.step(
        &mut cache,
        Event::ProbeSucceeded(1, slots(&[("1", true), ("2", true), ("3", true)])),
    );
    let records = match action {
        Action::Respond(records) => records,
        other => panic!("unexpected action {:?}", other),
    };
    assert_eq!(records.len(), 3);
    assert_eq!(
        records,
        vec![
            record(9, "9 Elm St", "90211", "555-0009", false),
            record(7, "7 Elm St", "90210", "555-0007", true),
            record(8, "8 Elm St", "90210", "555-0008", false),
        ]
    );
    assert_eq!(machine.outcome().map(|o| o.map(|r| r.len())), Some(Ok(3)));
}

#[test]
fn no_location_gives_the_empty_response_at_once() {
    let mut cache = LocationCache::new();
    let machine = Aggregation::new("00000".to_string());
    let (machine, _) = machine.step(&mut cache, Event::Requested);
    let (machine, action) = machine.step(&mut cache, Event::StoresResolved(Vec::new()));
    assert_eq!(action, Action::Respond(Vec::new()));
    assert_eq!(machine.phase(), Phase::AllProbesSucceeded);
    assert_eq!(machine.outcome(), Some(Ok(Vec::new())));
    assert_eq!(cache.get("00000"), Some(Vec::new()));
    let (again, action) = Aggregation::new("00000".to_string()).step(&mut cache, Event::Requested);
    assert_eq!(action, Action::Respond(Vec::new()));
    assert_eq!(again.phase(), Phase::AllProbesSucceeded);
}

#[test]
fn one_failed_probe_fails_the_whole_aggregation() {
    let mut cache = LocationCache::new();
    let machine = Aggregation::new("10001".to_string());
    let (machine, _) = machine.step(&mut cache, Event::Requested);
    let (machine, _) = machine.step(&mut cache, Event::StoresResolved(main_street()));
    let (machine, _) =
        machine.step(&mut cache, Event::ProbeSucceeded(0, slots(&[("1", true), ("2", true)])));
    let (machine, action) = machine.step(
        &mut cache,
        Event::ProbeFailed(1, UpstreamError::network("connection reset".to_string())),
    );
    let failure = AggregationError::wrap(UpstreamError::network("connection reset".to_string()));
    assert_eq!(action, Action::Fail(failure.clone()));
    assert_eq!(machine.phase(), Phase::AnyProbeFailed);
    assert_eq!(machine.outcome(), Some(Err(failure.clone())));
    // A sibling that completes afterwards is discarded.
    let (machine, action) =
        machine.step(&mut cache, Event::ProbeSucceeded(1, slots(&[("1", true), ("2", true)])));
    assert_eq!(action, Action::Ignored);
    assert_eq!(machine.outcome(), Some(Err(failure)));
}

#[test]
fn first_failure_is_the_one_reported() {
    let mut cache = LocationCache::new();
    let machine = Aggregation::new("10001".to_string());
    let (machine, _) = machine.step(&mut cache, Event::Requested);
    let (machine, _) = machine.step(&mut cache, Event::StoresResolved(main_street()));
    let (machine, _) = machine.step(
        &mut cache,
        Event::ProbeFailed(1, UpstreamError::decode("first".to_string())),
    );
    let (machine, action) = machine.step(
        &mut cache,
        Event::ProbeFailed(0, UpstreamError::network("second".to_string())),
    );
    assert_eq!(action, Action::Ignored);
    let error = match machine.outcome() {
        Some(Err(error)) => error,
        other => panic!("unexpected outcome {:?}", other),
    };
    assert_eq!(error.kind(), FailureKind::Decode);
    assert_eq!(error.message(), "first");
}

#[test]
fn events_that_do_not_apply_are_ignored() {
    let mut cache = LocationCache::new();
    let machine = Aggregation::new("10001".to_string());
    assert_eq!(machine.phase(), Phase::Idle);
    assert_eq!(machine.postal_code(), "10001");
    assert!(machine.outcome().is_none());
    let (machine, action) = machine.step(&mut cache, Event::StoresResolved(main_street()));
    assert_eq!(action, Action::Ignored);
    assert_eq!(machine.phase(), Phase::Idle);
    assert_eq!(cache.get("10001"), None);
    let (machine, action) = machine.step(&mut cache, Event::ProbeSucceeded(0, slots(&[])));
    assert_eq!(action, Action::Ignored);
    let (machine, _) = machine.step(&mut cache, Event::Requested);
    let (machine, action) = machine.step(&mut cache, Event::Requested);
    assert_eq!(action, Action::Ignored);
    assert_eq!(machine.phase(), Phase::ResolvingLocations);
    let (machine, action) = machine.step(
        &mut cache,
        Event::ProbeFailed(0, UpstreamError::network("early".to_string())),
    );
    assert_eq!(action, Action::Ignored);
    let (machine, _) = machine.step(&mut cache, Event::StoresResolved(main_street()));
    // An index that names no location, and a location that reports twice.
    let (machine, action) =
        machine.step(&mut cache, Event::ProbeSucceeded(2, slots(&[("1", true), ("2", true)])));
    assert_eq!(action, Action::Ignored);
    let (machine, action) =
        machine.step(&mut cache, Event::ProbeSucceeded(0, slots(&[("1", true), ("2", true)])));
    assert_eq!(action, Action::AwaitProbes);
    let (machine, action) =
        machine.step(&mut cache, Event::ProbeSucceeded(0, slots(&[("1", false), ("2", true)])));
    assert_eq!(action, Action::Ignored);
    let (machine, action) = machine.step(
        &mut cache,
        Event::ProbeFailed(0, UpstreamError::network("late".to_string())),
    );
    assert_eq!(action, Action::Ignored);
    assert_eq!(machine.phase(), Phase::ProbingAvailability);
    let (machine, action) =
        machine.step(&mut cache, Event::ProbeSucceeded(1, slots(&[("1", true), ("2", true)])));
    assert_eq!(
        action,
        Action::Respond(vec![
            record(100, "1 Main St", "10001", "555-0001", true),
            record(200, "2 Main St", "10001", "555-0002", true),
        ])
    );
    let (machine, action) = machine.step(&mut cache, Event::Requested);
    assert_eq!(action, Action::Ignored);
    assert_eq!(machine.phase(), Phase::AllProbesSucceeded);
}

#[test]
fn a_later_lookup_overwrites_the_cached_list() {
    let mut cache = LocationCache::new();
    let first = Aggregation::new("10001".to_string());
    let second = Aggregation::new("10001".to_string());
    // Both requests miss the cache before either lookup returns.
    let (first, _) = first.step(&mut cache, Event::Requested);
    let (second, action) = second.step(&mut cache, Event::Requested);
    assert_eq!(action, Action::LookupStores);
    let (_, _) = first.step(&mut cache, Event::StoresResolved(main_street()));
    let newer = vec![location(300, "3 Main St", "10001", "555-0003")];
    let (_, action) = second.step(
        &mut cache,
        Event::StoresResolved(vec![location(300, "3 Main St", "10001", "555-0003")]),
    );
    assert_eq!(action, Action::LaunchProbes(vec![300]));
    assert_eq!(cache.get("10001"), Some(newer));
}
