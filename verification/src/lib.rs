//! A session coordinator for a multi-round word-guessing game.
//!
//! The coordinator mediates between players and a separate word-checking
//! service over asynchronous message passing.  It tracks one session record
//! per player, forwards derived requests to the service, correlates the
//! service's replies with the request each session is waiting on, and
//! force-terminates sessions whose reply never arrives before a scheduled
//! deadline.  All decisions are made by the pure state machine in
//! [`session`]; message transport, suspension and wake-up are left to the
//! caller, which is told through [`session::HandleOutcome`] exactly what to
//! perform.

pub mod ids;
pub mod protocol;
pub mod session;
