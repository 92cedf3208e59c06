//! Identifier types for the message-passing model.
//!
//! The coordinator never fabricates identities itself: actor addresses and
//! message identifiers are always supplied by the inbound transport.  They
//! are modelled here as plain 64-bit values, which is all the state machine
//! ever reads of them (equality, and whether an address is the zero
//! address).

use vstd::prelude::*;

verus! {

/// The address of an actor: a player, the coordinator itself, or the
/// word-checking service.
#[derive(Clone, Copy, PartialEq, Eq, Structural, Debug, Hash)]
pub struct ActorId(pub u64);

impl ActorId {
    /// Whether this is the zero address, which is never a valid
    /// destination.
    pub fn is_zero(&self) -> (r: bool)
        ensures
            r == (self.0 == 0),
    {
        self.0 == 0
    }
}

/// The identifier of one message, used to correlate an outbound request
/// with the reply that answers it and to name a suspended handler.
#[derive(Clone, Copy, PartialEq, Eq, Structural, Debug, Hash)]
pub struct MessageId(pub u64);

impl MessageId {
    /// The zero identifier, used as the initial value of a fresh record's
    /// correlation fields before any request has been sent.
    pub fn zero() -> (r: MessageId)
        ensures
            r.0 == 0,
    {
        MessageId(0)
    }
}

} // verus!
