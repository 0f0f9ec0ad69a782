//! Control-and-physics core of a local multiplayer dueling game.
//!
//! The library binds input devices (a keyboard that is always present, and
//! gamepads that connect and disconnect at any time) to combatant entities,
//! translates per-tick device samples into movement forces and dash impulses,
//! wraps combatant positions at the arena boundary, and models a melee weapon
//! as a separate rigid body tethered to its wielder by a bounded distance
//! constraint.
//!
//! The physics integrator, rendering and the host input subsystem are external
//! collaborators: the core receives plain device samples and window sizes from
//! the host, and emits force, impulse and teleport requests for the host to
//! submit to its physics service.
//!
//! All scalar quantities are fixed-point integers. World lengths (positions,
//! radii, constraint limits) and dimensionless coefficients (friction,
//! restitution, compliance) are in thousandths of a unit; axis deflections and
//! force magnitudes are in whatever linear unit the host samples, since every
//! formula of the core is linear in them.

pub mod control;
pub mod player;
pub mod weapon;

use vstd::prelude::*;

verus! {

/// A 2D vector of fixed-point coordinates.
#[derive(Clone, Copy, Debug, PartialEq, Eq)]
pub struct Vec2 {
    pub x: i64,
    pub y: i64,
}

/// Parameters of a dynamic circular rigid body, as handed to the physics
/// service. Lengths and coefficients are in thousandths.
#[derive(Clone, Copy, Debug, PartialEq, Eq)]
pub struct BodyParams {
    /// Collider radius, thousandths of a world unit.
    pub radius: i64,
    /// Friction coefficient, thousandths (700 = 0.7).
    pub friction: i64,
    /// Restitution coefficient, thousandths (200 = 0.2).
    pub restitution: i64,
}

/// The body parameters every dynamic object of the duel is created with:
/// the given radius, friction 0.7 and restitution 0.2.
pub open spec fn spec_dynamic_obj(radius: i64) -> BodyParams {
    BodyParams { radius: radius, friction: 700, restitution: 200 }
}

/// Builds the rigid-body parameters for a dynamic circular object of the
/// given radius (thousandths of a world unit).
pub fn dynamic_obj(radius: i64) -> (b: BodyParams)
    ensures
        b == spec_dynamic_obj(radius),
{
    BodyParams { radius: radius, friction: 700, restitution: 200 }
}

} // verus!
