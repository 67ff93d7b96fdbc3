//! The event pump of a connection: the background task that takes the
//! connection's events off its stream, one after another.
//!
//! The pump is not told to stop. It stops by itself when the stream ends,
//! which it does once the connection is closed, or when the stream gives
//! a fault.

use vstd::prelude::*;

verus! {

/// What the stream gave when it was asked for its next item.
#[derive(Debug, Clone, Copy, PartialEq, Eq, Structural)]
pub enum Polled {
    /// An event, which is dropped.
    Event,
    /// A fault of the connection.
    Fault,
    /// Nothing more: the stream has ended.
    Ended,
}

/// Whether the pump asks the stream again after `polled`: it goes on after
/// an event and after nothing else.
pub fn keeps_pumping(polled: Polled) -> (goes_on: bool)
    ensures
        goes_on == (polled == Polled::Event),
{
    match polled {
        Polled::Event => true,
        _ => false,
    }
}

} // verus!
