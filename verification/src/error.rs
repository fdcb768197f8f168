//! How a start-up fails.
use vstd::prelude::*;

verus! {

/// Why a node did not start. `E` is whatever the parts of the node report their own failures in;
/// a start-up passes such a report on as it came.
#[derive(Debug)]
pub enum ServiceError<E> {
    /// A part of the node could not be made or started.
    Service(E),
    /// Any other reason, in words.
    Other(String),
}

/// What a [`ServiceError`] says.
pub enum ServiceErrorView<E> {
    Service(E),
    Other(Seq<char>),
}

impl<E> View for ServiceError<E> {
    type V = ServiceErrorView<E>;

    open spec fn view(&self) -> ServiceErrorView<E> {
        match *self {
            ServiceError::Service(e) => ServiceErrorView::Service(e),
            ServiceError::Other(words) => ServiceErrorView::Other(words@),
        }
    }
}

/// Why a relay chain full node did not start.
#[derive(Debug)]
pub enum RelayChainError<E> {
    /// A failure of the service under the relay chain node.
    Sub(E),
    /// A failure of the relay chain node's own, as it words it.
    Own(String),
}

/// What a failure of the relay chain node makes of the whole start-up: a failure of the service
/// under it is the service's failure, anything else is told in words.
pub open spec fn relay_chain_failure<E>(error: RelayChainError<E>) -> ServiceErrorView<E> {
    match error {
        RelayChainError::Sub(e) => ServiceErrorView::Service(e),
        RelayChainError::Own(words) => ServiceErrorView::Other(words@),
    }
}

impl<E> RelayChainError<E> {
    /// Turns a failure of the relay chain node into one of the start-up.
    pub fn into_service_error(self) -> (error: ServiceError<E>)
        ensures
            error@ == relay_chain_failure(self),
    {
        match self {
            RelayChainError::Sub(e) => ServiceError::Service(e),
            RelayChainError::Own(words) => ServiceError::Other(words),
        }
    }
}

} // verus!
