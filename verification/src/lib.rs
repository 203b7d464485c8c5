//! Envelopes and response correlation for a JSON-RPC 2.0 transport.
//!
//! The crate has two halves. The first describes the three envelopes of the
//! protocol (request, notification, response) as ordered lists of typed wire
//! members and decides, member by member, whether an incoming object is a
//! well-formed envelope for a given method. The second is the table that
//! pairs each response with the caller that has waited longest for its
//! identifier, together with the lifecycle gates of the loopback socket.

pub mod error;
pub mod field;
pub mod id;
pub mod notification;
pub mod pending;
pub mod request;
pub mod response;
mod scan;
pub mod socket;
pub mod text;
pub mod version;
