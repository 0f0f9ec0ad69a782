//! Combatants: identity, speed, creation, and the arena position wrap.

use vstd::prelude::*;
use crate::Vec2;
use crate::control::{InputMap, spec_default_input_map, default_input_map};

verus! {

/// A combatant's slot index, 0-based and stable for the match.
#[derive(Clone, Copy, Debug, PartialEq, Eq)]
pub struct PlayerID(pub usize);

/// A combatant's move-force magnitude: the force applied at full stick
/// deflection, per axis unit.
#[derive(Clone, Copy, Debug, PartialEq, Eq)]
pub struct Speed(pub i64);

/// A combatant: identity, input mapping, move-force magnitude, and the
/// gamepad currently assigned to it (if any).
#[derive(Clone, Copy, Debug, PartialEq, Eq)]
pub struct Player {
    pub id: PlayerID,
    pub input_map: InputMap,
    pub speed: Speed,
    /// Forward link of the assignment relation; always equal to
    /// `input_map.gamepad`.
    pub assigned_gamepad: Option<u64>,
}

/// A freshly created combatant: the given slot, the default bindings,
/// speed 5000, and no gamepad assigned.
pub open spec fn spec_player(id: usize) -> Player {
    Player {
        id: PlayerID(id),
        input_map: spec_default_input_map(),
        speed: Speed(5000),
        assigned_gamepad: None,
    }
}

/// Builds the combatant occupying the given slot, with the default input
/// bindings and the default move-force magnitude.
pub fn player(id: usize) -> (p: Player)
    ensures
        p == spec_player(id),
{
    Player {
        id: PlayerID(id),
        input_map: default_input_map(),
        speed: Speed(5000),
        assigned_gamepad: None,
    }
}

/// Appends a new combatant to the roster, occupying the next free slot.
pub fn spawn_player(roster: &mut Vec<Player>)
    ensures
        final(roster)@ == old(roster)@.push(spec_player(old(roster)@.len() as usize)),
{
    let id: usize = roster.len();
    roster.push(player(id));
}

/// One coordinate after the toroidal arena wrap: a coordinate strictly
/// beyond `half` on either side is teleported to the opposite boundary;
/// a coordinate exactly at the boundary is left where it is.
pub open spec fn spec_wrap_coord(pos: i64, half: i64) -> i64 {
    if pos > half {
        (-half) as i64
    } else if pos < -half {
        half
    } else {
        pos
    }
}

/// Wraps one position coordinate at the arena boundary `half` (half the
/// window extent on that axis).
pub fn wrap_coord(pos: i64, half: i64) -> (r: i64)
    requires
        0 <= half,
    ensures
        r == spec_wrap_coord(pos, half),
{
    if pos > half {
        -half
    } else if pos < -half {
        half
    } else {
        pos
    }
}

/// The wrap is exact at the boundary: a coordinate at or within the
/// half-extent — including exactly at it — is left unchanged; one strictly
/// beyond it lands exactly on the opposite boundary; and every wrapped
/// coordinate lies within the arena.
pub proof fn lemma_wrap_boundary(pos: i64, half: i64)
    requires
        0 <= half,
    ensures
        -half <= pos <= half ==> spec_wrap_coord(pos, half) == pos,
        pos > half ==> spec_wrap_coord(pos, half) == -half,
        pos < -half ==> spec_wrap_coord(pos, half) == half,
        -half <= spec_wrap_coord(pos, half) <= half,
{
}

/// A position after the wrap on both axes, for a window of the given size.
pub open spec fn spec_wrap_position(pos: Vec2, width: i64, height: i64) -> Vec2 {
    Vec2 {
        x: spec_wrap_coord(pos.x, (width / 2) as i64),
        y: spec_wrap_coord(pos.y, (height / 2) as i64),
    }
}

/// Wraps every combatant position at the boundaries of a window of the
/// given size: each axis independently, strictly-exceeding coordinates
/// only.
pub fn wrap_player_position(positions: &mut Vec<Vec2>, width: i64, height: i64)
    requires
        0 <= width,
        0 <= height,
    ensures
        final(positions)@.len() == old(positions)@.len(),
        forall|i: int| 0 <= i < old(positions)@.len()
            ==> final(positions)@[i] == spec_wrap_position(old(positions)@[i], width, height),
{
    let half_x: i64 = width / 2;
    let half_y: i64 = height / 2;
    let n: usize = positions.len();
    let mut i: usize = 0;
    while i < n
        invariant
            0 <= half_x,
            0 <= half_y,
            half_x == width / 2,
            half_y == height / 2,
            i <= n,
            n == positions@.len(),
            positions@.len() == old(positions)@.len(),
            forall|j: int| 0 <= j < i
                ==> positions@[j] == spec_wrap_position(old(positions)@[j], width, height),
            forall|j: int| i <= j < n ==> positions@[j] == old(positions)@[j],
        decreases n - i,
    {
        let p = positions[i];
        let wrapped = Vec2 { x: wrap_coord(p.x, half_x), y: wrap_coord(p.y, half_y) };
        positions[i] = wrapped;
        i = i + 1;
    }
}

} // verus!
