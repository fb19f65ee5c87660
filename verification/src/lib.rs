//! A client that registers an NMEA-0183 TCP service with the Avahi daemon.
//!
//! Publishing takes three method calls on the message bus: ask the daemon's
//! server object for a new entry group, add the service record to the group,
//! and commit the group. This library decides which calls are made, with
//! which arguments and in which order, and what a reply means. It never
//! touches the bus itself: it describes each call as a value, and takes what
//! came back as a value.

pub mod avahi;
pub mod message;
pub mod naming;
pub mod publication;
