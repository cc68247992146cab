//! Turn-synchronization protocol and deterministic tick-replay scheduler for a
//! lockstep, turn-based battle client.
//!
//! Each turn spans a fixed real-time window. The local plan is transmitted at a
//! fixed elapsed-time threshold, a strictly ordered set of inbound messages is
//! drained without blocking the host's render loop, wall-clock time is mapped
//! to a fixed-rate simulation tick counter, and roster deltas are reconciled
//! between turns. Protocol violations are fatal and surfaced to the host.

use vstd::prelude::*;

pub mod clock;
pub mod msg;
pub mod roster;
pub mod scheduler;
pub mod sequencer;
pub mod shield;
pub mod ship;
pub mod sprite;

verus! {

/// Why the scheduler stopped driving the battle session.
#[derive(Clone, Copy, Debug, PartialEq, Eq, Structural)]
pub enum ExitMode {
    /// The local player's ship left the battle by jumping away.
    Jump,
    /// The session ended for any other reason: the host asked to close, or the
    /// server sent the final tick marker of the battle.
    Logout,
}

/// A fatal, unrecoverable protocol violation. The server is the sole source of
/// truth in a lockstep session, so none of these can be repaired locally: the
/// host must abort the battle and report the cause.
#[derive(Clone, Copy, Debug, PartialEq, Eq, Structural)]
pub enum ProtocolError {
    /// An inbound message arrived outside the strict per-turn order.
    OutOfOrderMessage,
    /// A roster delta removed a ship identity that is not present.
    UnknownIdentity,
    /// A roster delta added a ship whose identity is already present and still
    /// alive (a respawn of a living ship, or a duplicate add).
    DuplicateIdentity,
    /// A blocking receive on the transport failed.
    TransportFailure,
}

} // verus!
