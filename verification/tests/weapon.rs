use duel_core::weapon::{
    enforce_tether, isqrt, spawn_weapon, tether_holds, weapon, weapon_joint, TetherJoint,
    WeaponBody,
};
use duel_core::{dynamic_obj, Vec2};

#[test]
fn dynamic_obj_fixes_friction_and_restitution() {
    let b = dynamic_obj(20_000);
    assert_eq!(b.radius, 20_000);
    assert_eq!(b.friction, 700);
    assert_eq!(b.restitution, 200);
}

#[test]
fn weapon_joint_bounds_separation_rigidly() {
    let j = weapon_joint(4, 9);
    assert_eq!(j.player, 4);
    assert_eq!(j.weapon, 9);
    assert_eq!(j.min, 1);
    assert_eq!(j.max, 200_000);
    assert_eq!(j.compliance, 0);
}

#[test]
fn weapon_spawns_with_its_joint() {
    let mut bodies: Vec<WeaponBody> = Vec::new();
    let mut joints: Vec<TetherJoint> = Vec::new();
    let w = weapon(&mut bodies, &mut joints, 0);
    assert_eq!(w, 0);
    assert_eq!(bodies.len(), 1);
    assert_eq!(bodies[0].player, 0);
    assert_eq!(bodies[0].body, None);
    assert_eq!(joints[0], weapon_joint(0, 0));
}

#[test]
fn spawn_weapon_places_the_body_on_the_forward_axis() {
    let mut bodies: Vec<WeaponBody> = Vec::new();
    let mut joints: Vec<TetherJoint> = Vec::new();
    spawn_weapon(&mut bodies, &mut joints, 1);
    assert_eq!(bodies.len(), 1);
    assert_eq!(bodies[0].player, 1);
    assert_eq!(bodies[0].pos, Vec2 { x: 50_000, y: 0 });
    assert_eq!(bodies[0].body, Some(dynamic_obj(20_000)));
    assert_eq!(joints[0], weapon_joint(1, 0));
}

#[test]
fn isqrt_is_exact_on_squares_and_floors_otherwise() {
    assert_eq!(isqrt(0), 0);
    assert_eq!(isqrt(1), 1);
    assert_eq!(isqrt(3), 1);
    assert_eq!(isqrt(4), 2);
    assert_eq!(isqrt(8), 2);
    assert_eq!(isqrt(9), 3);
    assert_eq!(isqrt(10_000_000_000), 100_000);
    assert_eq!(isqrt(u64::MAX), 0xFFFF_FFFF);
}

#[test]
fn tether_holds_exactly_at_the_bound() {
    // a 50-unit tether: 50_000 thousandths
    let p = Vec2 { x: 0, y: 0 };
    assert!(tether_holds(p, Vec2 { x: 50_000, y: 0 }, 50_000));
    assert!(!tether_holds(p, Vec2 { x: 50_001, y: 0 }, 50_000));
    assert!(tether_holds(p, Vec2 { x: 30_000, y: 40_000 }, 50_000));
    assert!(!tether_holds(p, Vec2 { x: 30_001, y: 40_000 }, 50_000));
}

#[test]
fn weapon_inside_the_bound_is_left_in_place() {
    let p = Vec2 { x: 1000, y: -2000 };
    let w = Vec2 { x: 21_000, y: -2000 };
    assert_eq!(enforce_tether(p, w, 50_000), w);
}

#[test]
fn weapon_beyond_the_bound_is_pulled_back_onto_it() {
    let p = Vec2 { x: 0, y: 0 };
    let w = Vec2 { x: 100_000, y: 0 };
    let r = enforce_tether(p, w, 50_000);
    assert_eq!(r, Vec2 { x: 50_000, y: 0 });
    assert!(tether_holds(p, r, 50_000));
}

#[test]
fn pull_back_is_radial() {
    let p = Vec2 { x: 10_000, y: 20_000 };
    let w = Vec2 { x: 40_000, y: 60_000 };
    // separation (30000, 40000), length 50000, bound 25000: halve it
    let r = enforce_tether(p, w, 25_000);
    assert_eq!(r, Vec2 { x: 25_000, y: 40_000 });
    assert!(tether_holds(p, r, 25_000));
}

#[test]
fn pull_back_handles_negative_components() {
    let p = Vec2 { x: 0, y: 0 };
    let w = Vec2 { x: -30_000, y: -40_000 };
    let r = enforce_tether(p, w, 25_000);
    assert_eq!(r, Vec2 { x: -15_000, y: -20_000 });
    assert!(tether_holds(p, r, 25_000));
}

#[test]
fn accelerating_away_never_escapes_the_tether() {
    // drag the combatant away tick after tick; after each integration step
    // the enforced weapon position stays within the 50-unit bound
    let max = 50_000;
    let mut p = Vec2 { x: 0, y: 0 };
    let mut w = Vec2 { x: 0, y: 0 };
    let mut step = 1000;
    for _ in 0..20 {
        p = Vec2 { x: p.x + step, y: p.y - step / 2 };
        step += 2000;
        w = enforce_tether(p, w, max);
        assert!(tether_holds(p, w, max));
    }
}
