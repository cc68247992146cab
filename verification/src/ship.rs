//! Plain-value model of the battle entities the protocol core reads: ships,
//! module placement data, and the per-module plan entries the player submits.

use vstd::prelude::*;

verus! {

/// Stable identity of a ship for the duration of a battle.
pub type ShipId = u64;

/// The parts of a ship's state that the turn-synchronization core reads and
/// updates. Combat resolution itself is the simulation collaborator's job; it
/// reports outcomes back as plain values.
#[derive(Clone, Copy, Debug, PartialEq, Eq, Structural)]
pub struct Ship {
    /// Stable identity; the roster never holds two ships with the same id.
    pub id: ShipId,
    /// Hit points; a ship at zero is dead and is marked exploding at turn end.
    pub hp: u32,
    /// Current shield points.
    pub shields: u32,
    /// Shield capacity; grows and shrinks as shield modules are switched.
    pub max_shields: u32,
    /// Set at turn end for ships whose hit points reached zero; an exploding
    /// player ship suppresses plan transmission.
    pub exploding: bool,
    /// Set when the ship is leaving the battle; a jumping player ship ends the
    /// session with [`crate::ExitMode::Jump`].
    pub jumping: bool,
    /// The sector the ship is ordered to jump to, transmitted with the plan.
    pub target_sector: u64,
}

impl Ship {
    /// Raises the shield capacity by `amount`, leaving current shields as they
    /// are (they charge back one point per turn while the module is powered).
    pub fn add_shields(&mut self, amount: u32)
        requires
            old(self).max_shields + amount <= u32::MAX,
        ensures
            *final(self) == (Ship { max_shields: (old(self).max_shields + amount) as u32, ..*old(self) }),
    {
        self.max_shields = self.max_shields + amount;
    }

    /// Lowers the shield capacity by `amount` and clamps current shields to the
    /// new capacity.
    pub fn remove_shields(&mut self, amount: u32)
        requires
            amount <= old(self).max_shields,
        ensures
            final(self).max_shields == old(self).max_shields - amount,
            final(self).shields == if old(self).shields <= final(self).max_shields {
                old(self).shields as int
            } else {
                final(self).max_shields as int
            },
            *final(self) == (Ship {
                max_shields: final(self).max_shields,
                shields: final(self).shields,
                ..*old(self)
            }),
    {
        self.max_shields = self.max_shields - amount;
        if self.shields > self.max_shields {
            self.shields = self.max_shields;
        }
    }
}

/// Static description of a module mounted on a ship: its footprint on the
/// ship's grid, its power draw, and its hit points.
#[derive(Clone, Copy, Debug, PartialEq, Eq, Structural)]
pub struct ModuleBase {
    /// Footprint width on the ship's module grid.
    pub width: u32,
    /// Footprint height on the ship's module grid.
    pub height: u32,
    /// Power the module draws while activated.
    pub power: u32,
    /// Hit points below which the module stops working.
    pub min_hp: u32,
    /// Current hit points of the module.
    pub hp: u32,
    /// Whether the module currently receives power.
    pub powered: bool,
    /// Whether the player has the module switched on.
    pub active: bool,
}

impl ModuleBase {
    /// A freshly mounted module: not yet powered, not yet activated.
    pub fn new(width: u32, height: u32, power: u32, min_hp: u32, hp: u32) -> (b: Self)
        ensures
            b == (ModuleBase {
                width,
                height,
                power,
                min_hp,
                hp,
                powered: false,
                active: false,
            }),
    {
        ModuleBase { width, height, power, min_hp, hp, powered: false, active: false }
    }

    /// Whether the module is switched on by the player.
    pub fn is_active(&self) -> (r: bool)
        ensures
            r == self.active,
    {
        self.active
    }
}

/// A module: the shared base description plus the kind-specific part.
#[derive(Clone, Copy, Debug, PartialEq, Eq, Structural)]
pub struct Module<M> {
    /// Placement, power and hit-point data shared by every module kind.
    pub base: ModuleBase,
    /// The kind-specific part of the module.
    pub module: M,
}

/// One entry of the player's per-turn plan: what a single module is ordered to
/// do next turn.
#[derive(Clone, Copy, Debug, PartialEq, Eq, Structural)]
pub struct ModulePlan {
    /// Index of the module on the player's ship.
    pub module_index: u32,
    /// Whether the module shall be active next turn.
    pub active: bool,
}

} // verus!
