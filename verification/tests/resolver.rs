use duel_core::control::{handle_inputs, ActionState};
use duel_core::player::Speed;

fn action(move_x: i64, move_y: i64, dash: bool, guard: bool) -> ActionState {
    ActionState { move_x, move_y, dash_just_pressed: dash, guard_just_pressed: guard }
}

#[test]
fn dash_at_full_deflection_scenario() {
    // move vector (1, 0) at speed 5000: force (5000, 0), impulse (25000, 0)
    let actions = vec![action(1, 0, true, false)];
    let speeds = vec![Speed(5000)];
    let out = handle_inputs(&actions, &speeds);
    assert_eq!(out.len(), 1);
    assert_eq!(out[0].force_x, 5000);
    assert_eq!(out[0].force_y, 0);
    assert_eq!(out[0].impulse_x, 25000);
    assert_eq!(out[0].impulse_y, 0);
    assert!(out[0].dashed);
    assert!(!out[0].guarded);
}

#[test]
fn dash_with_neutral_move_vector_has_zero_impulse() {
    let actions = vec![action(0, 0, true, false)];
    let speeds = vec![Speed(5000)];
    let out = handle_inputs(&actions, &speeds);
    assert_eq!(out[0].force_x, 0);
    assert_eq!(out[0].force_y, 0);
    assert_eq!(out[0].impulse_x, 0);
    assert_eq!(out[0].impulse_y, 0);
    assert!(out[0].dashed);
}

#[test]
fn dash_impulse_magnitude_follows_move_vector() {
    let actions = vec![action(-3, 4, true, false)];
    let speeds = vec![Speed(1000)];
    let out = handle_inputs(&actions, &speeds);
    assert_eq!(out[0].impulse_x, -15_000);
    assert_eq!(out[0].impulse_y, 20_000);
    // |impulse| = speed * 5 * |move| = 1000 * 5 * 5
    let mag2 = out[0].impulse_x * out[0].impulse_x + out[0].impulse_y * out[0].impulse_y;
    assert_eq!(mag2, 25_000 * 25_000);
}

#[test]
fn no_dash_means_no_impulse() {
    let actions = vec![action(1_000_000, -1_000_000, false, false)];
    let speeds = vec![Speed(75_000)];
    let out = handle_inputs(&actions, &speeds);
    assert_eq!(out[0].force_x, 75_000_000_000);
    assert_eq!(out[0].force_y, -75_000_000_000);
    assert_eq!(out[0].impulse_x, 0);
    assert_eq!(out[0].impulse_y, 0);
    assert!(!out[0].dashed);
}

#[test]
fn guard_engages_without_physical_effect() {
    let actions = vec![action(0, 0, false, true)];
    let speeds = vec![Speed(5000)];
    let out = handle_inputs(&actions, &speeds);
    assert!(out[0].guarded);
    assert!(!out[0].dashed);
    assert_eq!(out[0].force_x, 0);
    assert_eq!(out[0].force_y, 0);
    assert_eq!(out[0].impulse_x, 0);
    assert_eq!(out[0].impulse_y, 0);
}

#[test]
fn each_combatant_uses_its_own_speed() {
    let actions = vec![action(2, 0, false, false), action(0, -1, true, false)];
    let speeds = vec![Speed(5000), Speed(75_000)];
    let out = handle_inputs(&actions, &speeds);
    assert_eq!(out.len(), 2);
    assert_eq!(out[0].force_x, 10_000);
    assert_eq!(out[1].force_y, -75_000);
    assert_eq!(out[1].impulse_y, -375_000);
}
