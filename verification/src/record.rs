//! Per-location availability records.
use vstd::prelude::*;
use crate::location::{Location, LocationView};

verus! {

/// What one aggregation reports of one location.
#[derive(Debug, PartialEq, Eq)]
pub struct AvailabilityRecord {
    pub location_id: i32,
    pub address: String,
    pub postal_code: String,
    pub phone: String,
    /// Whether the location may have open appointments.
    pub possible_availability: bool,
}

/// Mathematical value of an [`AvailabilityRecord`].
pub ghost struct AvailabilityRecordView {
    pub location_id: int,
    pub address: Seq<char>,
    pub postal_code: Seq<char>,
    pub phone: Seq<char>,
    pub possible_availability: bool,
}

impl View for AvailabilityRecord {
    type V = AvailabilityRecordView;

    open spec fn view(&self) -> AvailabilityRecordView {
        AvailabilityRecordView {
            location_id: self.location_id as int,
            address: self.address@,
            postal_code: self.postal_code@,
            phone: self.phone@,
            possible_availability: self.possible_availability,
        }
    }
}

/// Element-wise view of a list of records.
pub open spec fn record_views(records: Seq<AvailabilityRecord>) -> Seq<AvailabilityRecordView> {
    Seq::new(records.len(), |i: int| records[i]@)
}

/// The record of `location` with the given availability flag.
pub open spec fn record_of(location: LocationView, available: bool) -> AvailabilityRecordView {
    AvailabilityRecordView {
        location_id: location.id,
        address: location.address,
        postal_code: location.postal_code,
        phone: location.phone,
        possible_availability: available,
    }
}

impl Clone for AvailabilityRecord {
    fn clone(&self) -> (copy: AvailabilityRecord)
        ensures
            copy@ == self@,
    {
        AvailabilityRecord {
            location_id: self.location_id,
            address: self.address.clone(),
            postal_code: self.postal_code.clone(),
            phone: self.phone.clone(),
            possible_availability: self.possible_availability,
        }
    }
}

impl AvailabilityRecord {
    /// Builds the record of `location` with the given availability flag.
    pub fn for_location(location: &Location, available: bool) -> (record: AvailabilityRecord)
        ensures
            record@ == record_of(location@, available),
    {
        AvailabilityRecord {
            location_id: location.id,
            address: location.address.clone(),
            postal_code: location.postal_code.clone(),
            phone: location.phone.clone(),
            possible_availability: available,
        }
    }
}

/// Copies a list of records, element by element.
pub fn clone_records(records: &Vec<AvailabilityRecord>) -> (copy: Vec<AvailabilityRecord>)
    ensures
        record_views(copy@) == record_views(records@),
{
    let mut copy: Vec<AvailabilityRecord> = Vec::new();
    let mut i: usize = 0;
    while i < records.len()
        invariant
            i <= records.len(),
            copy.len() == i,
            forall|k: int| 0 <= k < i ==> copy[k]@ == records[k]@,
        decreases records.len() - i,
    {
        copy.push(records[i].clone());
        i += 1;
    }
    assert(record_views(copy@) =~= record_views(records@));
    copy
}

} // verus!
