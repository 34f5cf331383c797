//! The error taxonomy of the library.

use vstd::prelude::*;

verus! {

/// An error reported by a fallible bus operation.
///
/// `DBus` carries the text of an error that the transport itself reported
/// (a timeout, a lost connection, a service-side failure).  `DBusInternal`
/// carries a message produced on this side of the transport before a call
/// was sent.  `MalformedResponse` reports a reply whose shape or types did
/// not match what the protocol promises; a required field that fails to
/// decode is reported this way rather than silently defaulted.
#[derive(Clone, Debug)]
pub enum BtError {
    DBus(String),
    DBusInternal(String),
    MalformedResponse(String),
}

impl BtError {
    /// The human-readable text carried by this error.
    pub fn message(&self) -> (r: &String)
        ensures
            r@ == self.text(),
    {
        match self {
            BtError::DBus(m) => m,
            BtError::DBusInternal(m) => m,
            BtError::MalformedResponse(m) => m,
        }
    }

    /// The text carried by an error, whichever class it belongs to.
    pub open spec fn text(&self) -> Seq<char> {
        match self {
            BtError::DBus(m) => m@,
            BtError::DBusInternal(m) => m@,
            BtError::MalformedResponse(m) => m@,
        }
    }
}

} // verus!
