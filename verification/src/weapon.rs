//! Weapon bodies and the tether constraint.
//!
//! A weapon is a small independent rigid body coupled to its combatant only
//! by a bounded distance constraint, so its swing is an emergent property of
//! the constraint plus the combatant's own acceleration.

use vstd::prelude::*;
use crate::{Vec2, BodyParams, spec_dynamic_obj, dynamic_obj};

verus! {

/// Marker for a weapon body.
#[derive(Clone, Copy, Debug, PartialEq, Eq)]
pub struct Weapon;

/// A compliant distance constraint between a weapon body and its combatant.
/// Lengths are in thousandths of a world unit; compliance in thousandths
/// (0 = rigid rod).
#[derive(Clone, Copy, Debug, PartialEq, Eq)]
pub struct TetherJoint {
    /// Index of the weapon body the joint constrains.
    pub weapon: usize,
    /// Index of the combatant the weapon is tethered to.
    pub player: usize,
    /// Minimum separation, thousandths (1 = 0.001 units).
    pub min: i64,
    /// Maximum separation, thousandths (200_000 = 200 units).
    pub max: i64,
    /// Compliance, thousandths (0 = rigid).
    pub compliance: i64,
}

/// The tether joint every weapon is created with: separation bounded in
/// [0.001, 200] world units, enforced rigidly.
pub open spec fn spec_weapon_joint(player: usize, weapon: usize) -> TetherJoint {
    TetherJoint { weapon: weapon, player: player, min: 1, max: 200_000, compliance: 0 }
}

/// Builds the distance joint tethering the given weapon to the given
/// combatant.
pub fn weapon_joint(player: usize, weapon: usize) -> (j: TetherJoint)
    ensures
        j == spec_weapon_joint(player, weapon),
{
    TetherJoint { weapon: weapon, player: player, min: 1, max: 200_000, compliance: 0 }
}

/// A weapon rigid body: its wielder, its position, and its collider
/// parameters once it has been given a body.
#[derive(Clone, Copy, Debug, PartialEq, Eq)]
pub struct WeaponBody {
    /// Index of the combatant wielding this weapon.
    pub player: usize,
    /// Position, thousandths of a world unit.
    pub pos: Vec2,
    /// Collider parameters; `None` until the body is fleshed out.
    pub body: Option<BodyParams>,
}

/// Creates a bare weapon record for the given combatant and the joint that
/// tethers it, and returns the new weapon's index.
pub fn weapon(bodies: &mut Vec<WeaponBody>, joints: &mut Vec<TetherJoint>, player: usize) -> (w:
    usize)
    ensures
        w == old(bodies)@.len(),
        final(bodies)@ == old(bodies)@.push(
            WeaponBody { player: player, pos: Vec2 { x: 0, y: 0 }, body: None },
        ),
        final(joints)@ == old(joints)@.push(spec_weapon_joint(player, w)),
{
    let w: usize = bodies.len();
    bodies.push(WeaponBody { player: player, pos: Vec2 { x: 0, y: 0 }, body: None });
    joints.push(weapon_joint(player, w));
    w
}

/// Spawns the weapon of the given combatant: a dynamic circular body of
/// radius 20 units, placed 50 units along the combatant's forward axis,
/// tethered by the standard joint.
pub fn spawn_weapon(bodies: &mut Vec<WeaponBody>, joints: &mut Vec<TetherJoint>, player: usize)
    ensures
        final(bodies)@ == old(bodies)@.push(
            WeaponBody {
                player: player,
                pos: Vec2 { x: 50_000, y: 0 },
                body: Some(spec_dynamic_obj(20_000)),
            },
        ),
        final(joints)@ == old(joints)@.push(spec_weapon_joint(player, old(bodies)@.len() as usize)),
{
    let w: usize = weapon(bodies, joints, player);
    let b = dynamic_obj(20_000);
    bodies[w] = WeaponBody { player: player, pos: Vec2 { x: 50_000, y: 0 }, body: Some(b) };
    assert(bodies@ =~= old(bodies)@.push(
        WeaponBody { player: player, pos: Vec2 { x: 50_000, y: 0 }, body: Some(spec_dynamic_obj(20_000)) },
    ));
}

/// Largest coordinate magnitude the tether arithmetic admits.
pub const COORD_MAX: i64 = 1_000_000_000;

/// Whether a position lies within the admitted coordinate range.
pub open spec fn coord_bounded(v: Vec2) -> bool {
    -COORD_MAX <= v.x <= COORD_MAX && -COORD_MAX <= v.y <= COORD_MAX
}

/// The maximum-separation bound of the tether: the weapon's squared
/// distance from its combatant is at most the square of the bound.
pub open spec fn tether_satisfied(p: Vec2, w: Vec2, max: int) -> bool {
    (w.x - p.x) * (w.x - p.x) + (w.y - p.y) * (w.y - p.y) <= max * max
}

/// Decides whether the weapon at `w` respects the maximum separation `max`
/// from the combatant at `p`.
pub fn tether_holds(p: Vec2, w: Vec2, max: i64) -> (r: bool)
    requires
        coord_bounded(p),
        coord_bounded(w),
        0 <= max <= 2 * COORD_MAX,
    ensures
        r == tether_satisfied(p, w, max as int),
{
    let dx: i64 = w.x - p.x;
    let dy: i64 = w.y - p.y;
    proof {
        lemma_square_bounds(dx as int, dy as int, max as int);
    }
    dx * dx + dy * dy <= max * max
}

/// For coordinates within range, the squared distances and bounds all fit
/// comfortably in 64 bits.
proof fn lemma_square_bounds(dx: int, dy: int, max: int)
    requires
        -2_000_000_000 <= dx <= 2_000_000_000,
        -2_000_000_000 <= dy <= 2_000_000_000,
        0 <= max <= 2_000_000_000,
    ensures
        0 <= dx * dx <= 4_000_000_000_000_000_000,
        0 <= dy * dy <= 4_000_000_000_000_000_000,
        0 <= max * max <= 4_000_000_000_000_000_000,
{
    assert(0 <= dx * dx <= 4_000_000_000_000_000_000) by (nonlinear_arith)
        requires
            -2_000_000_000 <= dx <= 2_000_000_000,
    ;
    assert(0 <= dy * dy <= 4_000_000_000_000_000_000) by (nonlinear_arith)
        requires
            -2_000_000_000 <= dy <= 2_000_000_000,
    ;
    assert(0 <= max * max <= 4_000_000_000_000_000_000) by (nonlinear_arith)
        requires
            0 <= max <= 2_000_000_000,
    ;
}

/// The integer square root: the largest integer whose square does not
/// exceed `n`.
pub fn isqrt(n: u64) -> (r: u64)
    ensures
        r * r <= n < (r + 1) * (r + 1),
{
    let mut lo: u64 = 0;
    let mut hi: u64 = 0xFFFF_FFFF;
    assert(n < (hi + 1) * (hi + 1)) by (nonlinear_arith)
        requires
            n <= u64::MAX,
            hi == 0xFFFF_FFFFu64,
    ;
    while lo < hi
        invariant
            lo <= hi <= 0xFFFF_FFFF,
            lo * lo <= n,
            n < (hi + 1) * (hi + 1),
        decreases hi - lo,
    {
        let mid: u64 = lo + (hi - lo + 1) / 2;
        proof {
            assert(mid * mid <= 0xFFFF_FFFF * 0xFFFF_FFFF) by (nonlinear_arith)
                requires
                    0 <= mid <= 0xFFFF_FFFFu64,
            ;
        }
        if mid * mid <= n {
            lo = mid;
        } else {
            hi = mid - 1;
        }
    }
    lo
}

/// Rigid enforcement of the tether's maximum-separation bound: a weapon
/// within the bound is left exactly where it is; one beyond it is pulled
/// radially back toward the combatant onto (or just inside, from integer
/// rounding) the bounding circle. In every case the returned position
/// satisfies the bound.
pub fn enforce_tether(p: Vec2, w: Vec2, max: i64) -> (r: Vec2)
    requires
        coord_bounded(p),
        coord_bounded(w),
        0 <= max <= 2 * COORD_MAX,
    ensures
        tether_satisfied(p, r, max as int),
        tether_satisfied(p, w, max as int) ==> r == w,
{
    let dx: i64 = w.x - p.x;
    let dy: i64 = w.y - p.y;
    proof {
        lemma_square_bounds(dx as int, dy as int, max as int);
    }
    let d2: i64 = dx * dx + dy * dy;
    let m2: i64 = max * max;
    if d2 <= m2 {
        return w;
    }
    let s: u64 = isqrt(d2 as u64);
    proof {
        assert(s < 0x1_0000_0000) by (nonlinear_arith)
            requires
                s * s <= d2 as u64,
                d2 as u64 <= 8_000_000_000_000_000_000u64,
        ;
    }
    let l: u64 = if s * s == d2 as u64 {
        s
    } else {
        s + 1
    };
    proof {
        assert(1 <= l <= 0x1_0000_0000);
        assert(d2 <= l * l) by (nonlinear_arith)
            requires
                s * s <= d2 < (s + 1) * (s + 1),
                l == s || l == s + 1,
                l == s ==> s * s == d2,
        ;
    }
    let adx: i64 = if dx < 0 {
        -dx
    } else {
        dx
    };
    let ady: i64 = if dy < 0 {
        -dy
    } else {
        dy
    };
    proof {
        assert((adx as u64) * (max as u64) <= 4_000_000_000_000_000_000u64 && (ady as u64) * (
        max as u64) <= 4_000_000_000_000_000_000u64) by (nonlinear_arith)
            requires
                adx as u64 <= 2_000_000_000u64,
                ady as u64 <= 2_000_000_000u64,
                max as u64 <= 2_000_000_000u64,
        ;
    }
    let qx: u64 = ((adx as u64) * (max as u64)) / l;
    let qy: u64 = ((ady as u64) * (max as u64)) / l;
    proof {
        assert(adx as int * adx as int == dx as int * dx as int && ady as int * ady as int
            == dy as int * dy as int) by (nonlinear_arith)
            requires
                adx as int == dx as int || adx as int == -(dx as int),
                ady as int == dy as int || ady as int == -(dy as int),
        ;
        lemma_square_bounds(dx as int, dy as int, max as int);
        lemma_scaled_component_bounds(adx as int, ady as int, max as int, l as int, d2 as int);
        assert(qx == (adx * max) as int / (l as int));
        assert(qy == (ady * max) as int / (l as int));
        lemma_projection_in_bound(adx as int, ady as int, max as int, l as int, d2 as int);
    }
    let nx: i64 = if dx < 0 {
        p.x - (qx as i64)
    } else {
        p.x + (qx as i64)
    };
    let ny: i64 = if dy < 0 {
        p.y - (qy as i64)
    } else {
        p.y + (qy as i64)
    };
    let r = Vec2 { x: nx, y: ny };
    proof {
        let qxi = (adx as int * max as int) / (l as int);
        let qyi = (ady as int * max as int) / (l as int);
        assert((r.x - p.x) * (r.x - p.x) == qxi * qxi) by (nonlinear_arith)
            requires
                r.x - p.x == qxi || r.x - p.x == -qxi,
        ;
        assert((r.y - p.y) * (r.y - p.y) == qyi * qyi) by (nonlinear_arith)
            requires
                r.y - p.y == qyi || r.y - p.y == -qyi,
        ;
    }
    r
}

/// The scaled components stay within the separation bound: each quotient
/// `|d| * max / L` is at most `max`, because `|d|` never exceeds `L`.
proof fn lemma_scaled_component_bounds(a: int, b: int, m: int, l: int, d2: int)
    requires
        0 <= a,
        0 <= b,
        0 <= m,
        1 <= l,
        a * a <= d2,
        b * b <= d2,
        d2 <= l * l,
    ensures
        0 <= (a * m) / l <= m,
        0 <= (b * m) / l <= m,
{
    vstd::arithmetic::div_mod::lemma_fundamental_div_mod(a * m, l);
    vstd::arithmetic::div_mod::lemma_mod_bound(a * m, l);
    vstd::arithmetic::div_mod::lemma_fundamental_div_mod(b * m, l);
    vstd::arithmetic::div_mod::lemma_mod_bound(b * m, l);
    assert(a <= l) by (nonlinear_arith)
        requires
            0 <= a,
            1 <= l,
            a * a <= l * l,
    ;
    assert(b <= l) by (nonlinear_arith)
        requires
            0 <= b,
            1 <= l,
            b * b <= l * l,
    ;
    let qa = (a * m) / l;
    let qb = (b * m) / l;
    assert(0 <= qa <= m) by (nonlinear_arith)
        requires
            a * m == l * qa + (a * m) % l,
            0 <= (a * m) % l < l,
            0 <= a <= l,
            0 <= m,
            1 <= l,
    ;
    assert(0 <= qb <= m) by (nonlinear_arith)
        requires
            b * m == l * qb + (b * m) % l,
            0 <= (b * m) % l < l,
            0 <= b <= l,
            0 <= m,
            1 <= l,
    ;
}

/// The radial pull-back lands inside the bounding circle: with `L` at
/// least the true separation, the scaled components' squares sum to at
/// most `max` squared.
proof fn lemma_projection_in_bound(a: int, b: int, m: int, l: int, d2: int)
    requires
        0 <= a,
        0 <= b,
        0 <= m,
        1 <= l,
        a * a + b * b == d2,
        d2 <= l * l,
    ensures
        ((a * m) / l) * ((a * m) / l) + ((b * m) / l) * ((b * m) / l) <= m * m,
{
    let qa = (a * m) / l;
    let qb = (b * m) / l;
    vstd::arithmetic::div_mod::lemma_fundamental_div_mod(a * m, l);
    vstd::arithmetic::div_mod::lemma_mod_bound(a * m, l);
    vstd::arithmetic::div_mod::lemma_fundamental_div_mod(b * m, l);
    vstd::arithmetic::div_mod::lemma_mod_bound(b * m, l);
    assert(0 <= qa && l * qa <= a * m) by (nonlinear_arith)
        requires
            a * m == l * qa + (a * m) % l,
            0 <= (a * m) % l < l,
            0 <= a,
            0 <= m,
            1 <= l,
    ;
    assert(0 <= qb && l * qb <= b * m) by (nonlinear_arith)
        requires
            b * m == l * qb + (b * m) % l,
            0 <= (b * m) % l < l,
            0 <= b,
            0 <= m,
            1 <= l,
    ;
    assert((qa * qa + qb * qb) * (l * l) <= (a * a + b * b) * (m * m)) by (nonlinear_arith)
        requires
            0 <= qa,
            0 <= qb,
            l * qa <= a * m,
            l * qb <= b * m,
            0 <= a,
            0 <= b,
            0 <= m,
            1 <= l,
    ;
    assert(qa * qa + qb * qb <= m * m) by (nonlinear_arith)
        requires
            (qa * qa + qb * qb) * (l * l) <= (a * a + b * b) * (m * m),
            a * a + b * b <= l * l,
            0 <= qa * qa + qb * qb,
            0 <= m * m,
            1 <= l,
    ;
}

} // verus!
