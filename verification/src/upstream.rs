//! The requests that are sent to the two upstream services.
//!
//! A request is described here and sent by the caller. The endpoints and the
//! fixed parameters are configuration: they are passed through unmodified.
use vstd::prelude::*;

verus! {

/// Endpoints and fixed parameters of the two upstream services.
#[derive(Debug, PartialEq, Eq)]
pub struct UpstreamConfig {
    /// Endpoint of the store locator.
    pub store_endpoint: String,
    /// Endpoint of the slot service.
    pub slot_endpoint: String,
    /// Category filter of a store lookup.
    pub category_filter: String,
    /// Protocol version flag of a store lookup.
    pub mechanism_version: String,
    /// Search radius of a store lookup.
    pub radius: String,
}

/// Mathematical value of an [`UpstreamConfig`].
pub ghost struct UpstreamConfigView {
    pub store_endpoint: Seq<char>,
    pub slot_endpoint: Seq<char>,
    pub category_filter: Seq<char>,
    pub mechanism_version: Seq<char>,
    pub radius: Seq<char>,
}

impl View for UpstreamConfig {
    type V = UpstreamConfigView;

    open spec fn view(&self) -> UpstreamConfigView {
        UpstreamConfigView {
            store_endpoint: self.store_endpoint@,
            slot_endpoint: self.slot_endpoint@,
            category_filter: self.category_filter@,
            mechanism_version: self.mechanism_version@,
            radius: self.radius@,
        }
    }
}

/// The configuration of the production services.
pub open spec fn standard_config() -> UpstreamConfigView {
    UpstreamConfigView {
        store_endpoint: "https://www.riteaid.com/services/ext/v2/stores/getStores"@,
        slot_endpoint: "https://www.riteaid.com/services/ext/v2/vaccine/checkSlots"@,
        category_filter: "PREF-112"@,
        mechanism_version: "2"@,
        radius: "50"@,
    }
}

impl UpstreamConfig {
    /// The configuration of the production services.
    pub fn standard() -> (config: UpstreamConfig)
        ensures
            config@ == standard_config(),
    {
        UpstreamConfig {
            store_endpoint: "https://www.riteaid.com/services/ext/v2/stores/getStores".to_owned(),
            slot_endpoint: "https://www.riteaid.com/services/ext/v2/vaccine/checkSlots".to_owned(),
            category_filter: "PREF-112".to_owned(),
            mechanism_version: "2".to_owned(),
            radius: "50".to_owned(),
        }
    }
}

/// One query parameter with a textual value.
#[derive(Debug, PartialEq, Eq)]
pub struct QueryParameter {
    pub name: String,
    pub value: String,
}

impl View for QueryParameter {
    type V = (Seq<char>, Seq<char>);

    open spec fn view(&self) -> (Seq<char>, Seq<char>) {
        (self.name@, self.value@)
    }
}

/// A store lookup: a `GET` of `endpoint` with `parameters` as its query.
#[derive(Debug, PartialEq, Eq)]
pub struct StoreLookupRequest {
    pub endpoint: String,
    pub parameters: Vec<QueryParameter>,
}

/// Mathematical value of a [`StoreLookupRequest`].
pub ghost struct StoreLookupRequestView {
    pub endpoint: Seq<char>,
    pub parameters: Seq<(Seq<char>, Seq<char>)>,
}

impl View for StoreLookupRequest {
    type V = StoreLookupRequestView;

    open spec fn view(&self) -> StoreLookupRequestView {
        StoreLookupRequestView {
            endpoint: self.endpoint@,
            parameters: Seq::new(self.parameters@.len(), |i: int| self.parameters@[i]@),
        }
    }
}

/// The store lookup for `postal_code`: the postal code under the key
/// `address`, followed by the three fixed parameters.
pub open spec fn store_lookup(config: UpstreamConfigView, postal_code: Seq<char>) -> StoreLookupRequestView {
    StoreLookupRequestView {
        endpoint: config.store_endpoint,
        parameters: seq![
            ("address"@, postal_code),
            ("attrFilter"@, config.category_filter),
            ("fetchMechanismVersion"@, config.mechanism_version),
            ("radius"@, config.radius),
        ],
    }
}

/// Describes the single request that resolves the locations near
/// `postal_code`.
pub fn store_lookup_request(config: &UpstreamConfig, postal_code: &str) -> (request:
    StoreLookupRequest)
    ensures
        request@ == store_lookup(config@, postal_code@),
{
    let mut parameters: Vec<QueryParameter> = Vec::new();
    parameters.push(QueryParameter { name: "address".to_owned(), value: postal_code.to_owned() });
    parameters.push(
        QueryParameter { name: "attrFilter".to_owned(), value: config.category_filter.clone() },
    );
    parameters.push(
        QueryParameter {
            name: "fetchMechanismVersion".to_owned(),
            value: config.mechanism_version.clone(),
        },
    );
    parameters.push(QueryParameter { name: "radius".to_owned(), value: config.radius.clone() });
    let request = StoreLookupRequest { endpoint: config.store_endpoint.clone(), parameters };
    assert(request@.parameters =~= store_lookup(config@, postal_code@).parameters);
    request
}

/// A slot check: a `GET` of `endpoint` whose query holds the store's number
/// under the key `parameter`.
#[derive(Debug, PartialEq, Eq)]
pub struct SlotCheckRequest {
    pub endpoint: String,
    pub parameter: String,
    pub store_number: i32,
}

/// Mathematical value of a [`SlotCheckRequest`].
pub ghost struct SlotCheckRequestView {
    pub endpoint: Seq<char>,
    pub parameter: Seq<char>,
    pub store_number: int,
}

impl View for SlotCheckRequest {
    type V = SlotCheckRequestView;

    open spec fn view(&self) -> SlotCheckRequestView {
        SlotCheckRequestView {
            endpoint: self.endpoint@,
            parameter: self.parameter@,
            store_number: self.store_number as int,
        }
    }
}

/// The slot check for the store with the given number.
pub open spec fn slot_check(config: UpstreamConfigView, store_number: int) -> SlotCheckRequestView {
    SlotCheckRequestView {
        endpoint: config.slot_endpoint,
        parameter: "storeNumber"@,
        store_number,
    }
}

/// Describes the single request that probes the store with the given number.
pub fn slot_check_request(config: &UpstreamConfig, store_number: i32) -> (request: SlotCheckRequest)
    ensures
        request@ == slot_check(config@, store_number as int),
{
    SlotCheckRequest {
        endpoint: config.slot_endpoint.clone(),
        parameter: "storeNumber".to_owned(),
        store_number,
    }
}

} // verus!
