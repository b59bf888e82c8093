//! The readiness handlers of a socket, kept by `virtual_mio`.
use virtual_mio::{FilteredHandler, FilteredHandlerSubscriptions, StatefulHandlerState};
use vstd::prelude::*;

verus! {

/// The set of interests that a socket's handler has seen.
#[verifier::external_type_specification]
#[verifier::external_body]
pub struct ExStatefulHandlerState(StatefulHandlerState);

/// A handler that passes each interest on to the subscriber for it.
#[verifier::external_type_specification]
#[verifier::external_body]
pub struct ExFilteredHandler(FilteredHandler);

/// The subscribers of a `FilteredHandler`; copies share them.
#[verifier::external_type_specification]
#[verifier::external_body]
pub struct ExFilteredHandlerSubscriptions(FilteredHandlerSubscriptions);

/// What a handler can be told of a socket.
#[derive(Debug, Clone, Copy, PartialEq, Eq, Structural)]
pub enum InterestType {
    Readable,
    Writable,
    Closed,
    Error,
}

/// The interests that a handler state holds. The state keeps them behind a
/// lock that its copies share; the name speaks of a state that has no copies.
pub uninterp spec fn seen_interests(state: StatefulHandlerState) -> Set<InterestType>;

/// The subscribers that belong to a `FilteredHandler`.
pub uninterp spec fn subscribers_of(handler: FilteredHandler) -> FilteredHandlerSubscriptions;

/// `StatefulHandlerState::default`: a fresh state, which holds no interest.
#[verifier::external_body]
pub(crate) fn new_handler_state() -> (state: StatefulHandlerState)
    ensures
        seen_interests(state) == Set::<InterestType>::empty(),
{
    StatefulHandlerState::default()
}

/// `StatefulHandlerState::set`: adds one interest to those that the state
/// holds, and removes none.
#[verifier::external_body]
pub(crate) fn set_interest(state: &mut StatefulHandlerState, interest: InterestType)
    ensures
        seen_interests(*final(state)) == seen_interests(*old(state)).insert(interest),
{
    state.set(match interest {
        InterestType::Readable => virtual_mio::InterestType::Readable,
        InterestType::Writable => virtual_mio::InterestType::Writable,
        InterestType::Closed => virtual_mio::InterestType::Closed,
        InterestType::Error => virtual_mio::InterestType::Error,
    })
}

/// `FilteredHandler::new`: a handler of its own, without subscribers. That it
/// has none yet is not stated, since subscribers are added behind a shared
/// reference.
#[verifier::external_body]
pub(crate) fn new_filtered_handler() -> (handler: Box<FilteredHandler>) {
    FilteredHandler::new()
}

/// `FilteredHandler::subscriptions` and the copy of what it returns: the
/// result is the handler's own set of subscribers, shared with it.
#[verifier::external_body]
pub(crate) fn handler_subscriptions(handler: &FilteredHandler) -> (subscribers:
    FilteredHandlerSubscriptions)
    ensures
        subscribers == subscribers_of(*handler),
{
    handler.subscriptions().clone()
}

} // verus!
