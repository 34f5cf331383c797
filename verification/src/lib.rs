//! Client-side control plane for a BlueZ-style device-management service
//! reached over a message bus.
//!
//! The crate models the data that travels over the bus as plain values
//! ([`value::BusValue`]), and verifies the logic that works on them: decoding
//! dynamically typed property dictionaries into typed snapshots, walking the
//! managed-object tree that an enumeration call returns, deriving and
//! comparing object paths, and the discovery-session state machine that
//! classifies live signals.  The transport itself (connecting, sending a
//! method call, polling signals) is a collaborator outside this crate: a
//! caller performs each [`common::Request`] this crate builds and hands the
//! replies and signals back as plain values.

use vstd::prelude::*;

pub mod adapter;
pub mod agent;
pub mod common;
pub mod device;
pub mod error;
pub mod path;
pub mod session;
pub mod value;

verus! {

/// A shared handle to one bus connection.
///
/// The transport that actually owns the socket lives outside this crate; the
/// library only ever threads the handle through to the remote-object handles
/// it constructs.  All that the logic reads of a connection is its identity:
/// clones carry the same identifier and refer to the same transport.
#[derive(Clone, Copy, Debug)]
pub struct Connection {
    pub id: u64,
}

impl Connection {
    /// Wraps the identity of an already established transport connection.
    pub fn new(id: u64) -> (r: Self)
        ensures
            r.id == id,
    {
        Connection { id }
    }

    /// The identity of the underlying transport connection.
    pub fn id(&self) -> (r: u64)
        ensures
            r == self.id,
    {
        self.id
    }
}

} // verus!
