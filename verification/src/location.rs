//! Pharmacy locations as decoded from the store locator.
use vstd::prelude::*;

verus! {

/// One pharmacy location returned by the store locator.
#[derive(Debug, PartialEq, Eq)]
pub struct Location {
    /// Numeric store identifier.
    pub id: i32,
    /// Free-text street address.
    pub address: String,
    /// Postal code of the store itself.
    pub postal_code: String,
    /// Formatted phone number.
    pub phone: String,
}

/// Mathematical value of a [`Location`].
pub ghost struct LocationView {
    pub id: int,
    pub address: Seq<char>,
    pub postal_code: Seq<char>,
    pub phone: Seq<char>,
}

impl View for Location {
    type V = LocationView;

    open spec fn view(&self) -> LocationView {
        LocationView {
            id: self.id as int,
            address: self.address@,
            postal_code: self.postal_code@,
            phone: self.phone@,
        }
    }
}

/// Element-wise view of a list of locations.
pub open spec fn location_views(locations: Seq<Location>) -> Seq<LocationView> {
    Seq::new(locations.len(), |i: int| locations[i]@)
}

impl Clone for Location {
    fn clone(&self) -> (copy: Location)
        ensures
            copy@ == self@,
    {
        Location {
            id: self.id,
            address: self.address.clone(),
            postal_code: self.postal_code.clone(),
            phone: self.phone.clone(),
        }
    }
}

/// Copies a list of locations, element by element.
pub fn clone_locations(locations: &Vec<Location>) -> (copy: Vec<Location>)
    ensures
        location_views(copy@) == location_views(locations@),
{
    let mut copy: Vec<Location> = Vec::new();
    let mut i: usize = 0;
    while i < locations.len()
        invariant
            i <= locations.len(),
            copy.len() == i,
            forall|k: int| 0 <= k < i ==> copy[k]@ == locations[k]@,
        decreases locations.len() - i,
    {
        copy.push(locations[i].clone());
        i += 1;
    }
    assert(location_views(copy@) =~= location_views(locations@));
    copy
}

} // verus!
