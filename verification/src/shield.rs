//! The shield module: raises shield capacity while activated and charges one
//! shield point per turn while powered.

use vstd::prelude::*;
use crate::ship::{Module, ModuleBase, Ship};

verus! {

/// How much shield capacity one shield module grants while activated.
pub const SHIELD_CAPACITY_PER_MODULE: u32 = 2;

/// The kind-specific part of a shield module. All its state lives in the
/// module base and the owning ship.
#[derive(Clone, Copy, Debug, PartialEq, Eq, Structural)]
pub struct ShieldModule;

impl ShieldModule {
    /// A freshly mounted shield module: a one-by-one module drawing two power,
    /// with three hit points of which two must remain for it to work.
    pub fn new() -> (m: Module<ShieldModule>)
        ensures
            m.base == (ModuleBase {
                width: 1,
                height: 1,
                power: 2,
                min_hp: 2,
                hp: 3,
                powered: false,
                active: false,
            }),
            m.module == ShieldModule,
    {
        Module { base: ModuleBase::new(1, 1, 2, 2, 3), module: ShieldModule }
    }

    /// Post-turn effect: while the module is powered and the ship's shields are
    /// below capacity, one shield point is restored; otherwise nothing changes.
    pub fn after_simulation(&self, base: &ModuleBase, ship: &mut Ship)
        ensures
            *final(ship) == if base.powered && old(ship).shields < old(ship).max_shields {
                Ship { shields: (old(ship).shields + 1) as u32, ..*old(ship) }
            } else {
                *old(ship)
            },
    {
        if base.powered && ship.shields < ship.max_shields {
            ship.shields = ship.shields + 1;
        }
    }

    /// Switching the module on grants its shield capacity to the ship.
    pub fn on_activated(&self, ship: &mut Ship)
        requires
            old(ship).max_shields + SHIELD_CAPACITY_PER_MODULE <= u32::MAX,
        ensures
            *final(ship) == (Ship {
                max_shields: (old(ship).max_shields + SHIELD_CAPACITY_PER_MODULE) as u32,
                ..*old(ship)
            }),
    {
        ship.add_shields(SHIELD_CAPACITY_PER_MODULE);
    }

    /// Switching the module off withdraws its shield capacity and clamps the
    /// ship's current shields to the lowered capacity.
    pub fn on_deactivated(&self, ship: &mut Ship)
        requires
            old(ship).max_shields >= SHIELD_CAPACITY_PER_MODULE,
        ensures
            final(ship).max_shields == old(ship).max_shields - SHIELD_CAPACITY_PER_MODULE,
            final(ship).shields == if old(ship).shields <= final(ship).max_shields {
                old(ship).shields as int
            } else {
                final(ship).max_shields as int
            },
            *final(ship) == (Ship {
                max_shields: final(ship).max_shields,
                shields: final(ship).shields,
                ..*old(ship)
            }),
    {
        ship.remove_shields(SHIELD_CAPACITY_PER_MODULE);
    }
}

} // verus!
