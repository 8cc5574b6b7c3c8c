use vstd::prelude::*;
use crate::destination::{MessageDestination, MessageSendError};
use crate::message::Message;
use crate::message_router::{spec_applies, RoutingInfo};

verus! {

/// How messages are routed to a destination, and whether it takes part in
/// failure escalation.
#[derive(Debug, Clone, Copy, PartialEq, Eq, Structural)]
pub enum MessageRoutingBehaviour {
    /// Receives every message it matches, and additionally every escalated
    /// failure report.  It is wise to have at least one root destination,
    /// serving as a log that is unlikely to fail.
    Root,
    /// Receives a message only when no other non-root destination took it: a
    /// last resort for otherwise-unhandled messages, never a duplicate
    /// channel.
    Drain,
    /// The default: receives every message it matches, and never receives
    /// escalated failure reports.
    Additive,
}

/// Whether this behaviour takes part in the primary delivery pass.
pub open spec fn spec_always_send(b: MessageRoutingBehaviour) -> bool {
    b is Root || b is Additive
}

/// Whether this behaviour receives escalated failure reports.
pub open spec fn spec_receives_errors(b: MessageRoutingBehaviour) -> bool {
    b is Root
}

impl MessageRoutingBehaviour {
    /// Whether destinations with this behaviour are attempted in the primary
    /// pass, independent of other destinations' outcomes.
    pub fn always_send_messages(&self) -> (r: bool)
        ensures
            r == spec_always_send(*self),
    {
        match self {
            MessageRoutingBehaviour::Root => true,
            MessageRoutingBehaviour::Additive => true,
            MessageRoutingBehaviour::Drain => false,
        }
    }

    /// Whether destinations with this behaviour receive escalated failure
    /// reports.
    pub fn always_receives_errors(&self) -> (r: bool)
        ensures
            r == spec_receives_errors(*self),
    {
        match self {
            MessageRoutingBehaviour::Root => true,
            MessageRoutingBehaviour::Drain => false,
            MessageRoutingBehaviour::Additive => false,
        }
    }
}

impl Default for MessageRoutingBehaviour {
    fn default() -> (b: Self)
        ensures
            b is Additive,
    {
        MessageRoutingBehaviour::Additive
    }
}

/// A destination registered with the router: an id used in diagnostics, the
/// sending capability, and the routing policy.
#[derive(Debug)]
pub struct RoutedDestinationBase<D> {
    pub id: String,
    pub destination: D,
    pub routing_info: RoutingInfo,
}

impl<D: MessageDestination> RoutedDestinationBase<D> {
    pub fn new(id: String, destination: D, routing_info: RoutingInfo) -> (r: Self)
        ensures
            r == (RoutedDestinationBase { id, destination, routing_info }),
    {
        RoutedDestinationBase { id, destination, routing_info }
    }

    /// Builds a routed destination from its parts; a convenience twin of
    /// [`new`](Self::new).
    pub fn create(id: String, destination: D, routing_info: RoutingInfo) -> (r: Self)
        ensures
            r == (RoutedDestinationBase { id, destination, routing_info }),
    {
        RoutedDestinationBase { id, destination, routing_info }
    }

    /// The identifier used for this destination in diagnostics.
    pub fn get_id(&self) -> (r: &str)
        ensures
            r@ == self.id@,
    {
        self.id.as_str()
    }

    pub fn get_destination(&self) -> (d: &D)
        ensures
            d == &self.destination,
    {
        &self.destination
    }

    pub fn get_routing_info(&self) -> (r: &RoutingInfo)
        ensures
            r == &self.routing_info,
    {
        &self.routing_info
    }

    /// Attempts delivery of the message to this destination.  The outcome is
    /// the destination's to decide; an error is final for this attempt.
    pub fn send(&self, message: &Message) -> Result<(), MessageSendError> {
        self.destination.send(message)
    }

    /// Whether this destination receives escalated failure reports.
    pub fn is_root(&self) -> (r: bool)
        ensures
            r == spec_receives_errors(self.routing_info.routing_type),
    {
        self.routing_info.routing_type.always_receives_errors()
    }

    pub fn get_routing_type(&self) -> (r: &MessageRoutingBehaviour)
        ensures
            r == &self.routing_info.routing_type,
    {
        &self.routing_info.routing_type
    }

    /// Whether this destination's condition admits the message.
    pub fn should_receive(&self, m: &Message) -> (r: bool)
        ensures
            r == spec_applies(&self.routing_info, m),
    {
        self.routing_info.applies_to(m)
    }
}

} // verus!
