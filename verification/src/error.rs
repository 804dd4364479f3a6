//! Failures of the upstream services and of an aggregation.
use vstd::prelude::*;

verus! {

/// How a call to an upstream service failed.
#[derive(Debug, Clone, Copy, PartialEq, Eq, Structural)]
pub enum FailureKind {
    /// The call itself failed: connection, timeout or transport.
    Network,
    /// A response arrived but did not have the expected shape.
    Decode,
}

/// A failed call to the store locator or to the slot service.
#[derive(Debug, PartialEq, Eq)]
pub struct UpstreamError {
    pub kind: FailureKind,
    pub message: String,
}

/// Mathematical value of an [`UpstreamError`].
pub ghost struct UpstreamErrorView {
    pub kind: FailureKind,
    pub message: Seq<char>,
}

impl View for UpstreamError {
    type V = UpstreamErrorView;

    open spec fn view(&self) -> UpstreamErrorView {
        UpstreamErrorView { kind: self.kind, message: self.message@ }
    }
}

impl Clone for UpstreamError {
    fn clone(&self) -> (copy: UpstreamError)
        ensures
            copy@ == self@,
    {
        UpstreamError { kind: self.kind, message: self.message.clone() }
    }
}

impl UpstreamError {
    /// A failure of the call itself.
    pub fn network(message: String) -> (error: UpstreamError)
        ensures
            error@ == (UpstreamErrorView { kind: FailureKind::Network, message: message@ }),
    {
        UpstreamError { kind: FailureKind::Network, message }
    }

    /// A response of unexpected shape.
    pub fn decode(message: String) -> (error: UpstreamError)
        ensures
            error@ == (UpstreamErrorView { kind: FailureKind::Decode, message: message@ }),
    {
        UpstreamError { kind: FailureKind::Decode, message }
    }
}

/// The failure of one aggregation: the upstream failure that ended it.
#[derive(Debug, PartialEq, Eq)]
pub struct AggregationError {
    pub cause: UpstreamError,
}

impl View for AggregationError {
    type V = UpstreamErrorView;

    open spec fn view(&self) -> UpstreamErrorView {
        self.cause@
    }
}

impl Clone for AggregationError {
    fn clone(&self) -> (copy: AggregationError)
        ensures
            copy@ == self@,
    {
        AggregationError { cause: self.cause.clone() }
    }
}

impl AggregationError {
    /// Wraps the upstream failure that ended the aggregation.
    pub fn wrap(cause: UpstreamError) -> (error: AggregationError)
        ensures
            error@ == cause@,
    {
        AggregationError { cause }
    }

    /// The failure's kind.
    pub fn kind(&self) -> (kind: FailureKind)
        ensures
            kind == self@.kind,
    {
        self.cause.kind
    }

    /// The failure's message.
    pub fn message(&self) -> (message: String)
        ensures
            message@ == self@.message,
    {
        self.cause.message.clone()
    }
}

} // verus!
