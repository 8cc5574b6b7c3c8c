//! A structured-notification routing library.
//!
//! A caller builds a [`message::Message`], registers destinations with a
//! [`message_router::MessageRouter`], and calls `route`: the router decides
//! which destinations receive the message, attempts each delivery
//! independently, and escalates failures to root destinations.

pub mod destination;
pub mod message;
pub mod message_router;
pub mod send_error;
pub mod util;
