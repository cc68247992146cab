//! The typed messages of the per-turn protocol. The wire-level byte encoding
//! is the transport's business; this core works on typed payloads.

use vstd::prelude::*;
use crate::ship::{ModulePlan, Ship, ShipId};

verus! {

/// One inbound message of a turn. Exactly four are expected, in strict order:
/// a ship delta before the results, the simulation results, a ship delta after
/// the results, then one or more tick markers.
pub enum InboundMessage {
    /// Ships that joined or left the battle since the last delta.
    ShipDelta {
        /// Ships to insert into the roster.
        added: Vec<Ship>,
        /// Identities to delete from the roster.
        removed: Vec<ShipId>,
    },
    /// The authoritative per-turn outcome data, opaque to this core; it is
    /// handed through to the simulation collaborator unread.
    SimResults {
        /// The encoded outcome data.
        payload: Vec<u8>,
    },
    /// The server's turn boundary marker.
    TickMarker {
        /// True on the marker that ends the whole battle session; false on the
        /// marker that merely ends the current turn.
        is_final: bool,
    },
}

/// The one outbound message of a turn: the local player's plan.
pub struct PlanMessage {
    /// The sector the player's ship is ordered to jump to.
    pub target_sector: u64,
    /// What each module of the player's ship shall do next turn.
    pub module_plans: Vec<ModulePlan>,
}

} // verus!
