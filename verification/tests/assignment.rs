use duel_core::control::{
    connect_gamepad, disconnect_gamepad, handle_gamepad_connection, setup_gamepads,
    GamepadConnection, GamepadConnectionEvent,
};
use duel_core::control::default_input_map;
use duel_core::player::{player, spawn_player, Player, PlayerID, Speed};

fn roster(n: usize) -> Vec<Player> {
    let mut players: Vec<Player> = Vec::new();
    for _ in 0..n {
        spawn_player(&mut players);
    }
    players
}

fn connected_event(gamepad: u64) -> GamepadConnectionEvent {
    GamepadConnectionEvent {
        gamepad,
        connection: GamepadConnection::Connected {
            name: String::from("pad"),
            vendor_id: Some(1),
            product_id: Some(2),
        },
    }
}

fn disconnected_event(gamepad: u64) -> GamepadConnectionEvent {
    GamepadConnectionEvent {
        gamepad,
        connection: GamepadConnection::Disconnected,
    }
}

#[test]
fn spawn_player_fills_slots_in_creation_order() {
    let players = roster(3);
    for (i, p) in players.iter().enumerate() {
        assert_eq!(p.id, PlayerID(i));
        assert_eq!(p.speed, Speed(5000));
        assert_eq!(p.input_map, default_input_map());
        assert_eq!(p.assigned_gamepad, None);
    }
}

#[test]
fn one_combatant_no_gamepads_stays_on_keyboard() {
    let mut players = roster(1);
    let gamepads: Vec<u64> = Vec::new();
    setup_gamepads(&mut players, &gamepads);
    assert_eq!(players.len(), 1);
    assert_eq!(players[0].assigned_gamepad, None);
    assert_eq!(players[0].input_map.gamepad, None);
    assert_eq!(players[0].input_map, player(0).input_map);
}

#[test]
fn late_gamepad_binds_first_unbound_combatant() {
    let mut players = roster(2);
    let bound = connect_gamepad(&mut players, 42);
    assert_eq!(bound, Some(0));
    assert_eq!(players[0].assigned_gamepad, Some(42));
    assert_eq!(players[0].input_map.gamepad, Some(42));
    assert_eq!(players[1].assigned_gamepad, None);
    assert_eq!(players[1].input_map.gamepad, None);
}

#[test]
fn disconnect_unbinds_only_that_combatant() {
    let mut players = roster(2);
    connect_gamepad(&mut players, 7);
    connect_gamepad(&mut players, 9);
    assert_eq!(players[0].assigned_gamepad, Some(7));
    assert_eq!(players[1].assigned_gamepad, Some(9));
    let unbound = disconnect_gamepad(&mut players, 7);
    assert_eq!(unbound, Some(0));
    assert_eq!(players[0].assigned_gamepad, None);
    assert_eq!(players[0].input_map.gamepad, None);
    assert_eq!(players[0].input_map, player(0).input_map);
    assert_eq!(players[1].assigned_gamepad, Some(9));
    assert_eq!(players[1].input_map.gamepad, Some(9));
}

#[test]
fn replaying_a_connect_event_changes_nothing() {
    let mut once = roster(2);
    connect_gamepad(&mut once, 5);
    let mut twice = roster(2);
    connect_gamepad(&mut twice, 5);
    let bound_again = connect_gamepad(&mut twice, 5);
    assert_eq!(bound_again, None);
    assert_eq!(once, twice);
}

#[test]
fn surplus_gamepad_stays_unassigned() {
    let mut players = roster(1);
    connect_gamepad(&mut players, 1);
    let bound = connect_gamepad(&mut players, 2);
    assert_eq!(bound, None);
    assert_eq!(players[0].assigned_gamepad, Some(1));
}

#[test]
fn rebind_after_disconnect() {
    let mut players = roster(1);
    connect_gamepad(&mut players, 1);
    let bound = connect_gamepad(&mut players, 2);
    assert_eq!(bound, None);
    disconnect_gamepad(&mut players, 1);
    let bound = connect_gamepad(&mut players, 2);
    assert_eq!(bound, Some(0));
    assert_eq!(players[0].assigned_gamepad, Some(2));
}

#[test]
fn setup_is_first_fit_in_creation_order() {
    let mut players = roster(2);
    let gamepads: Vec<u64> = vec![10, 11, 12];
    setup_gamepads(&mut players, &gamepads);
    assert_eq!(players[0].assigned_gamepad, Some(10));
    assert_eq!(players[1].assigned_gamepad, Some(11));
}

#[test]
fn setup_skips_already_bound_combatants_and_gamepads() {
    let mut players = roster(3);
    connect_gamepad(&mut players, 11);
    assert_eq!(players[0].assigned_gamepad, Some(11));
    let gamepads: Vec<u64> = vec![11, 12];
    setup_gamepads(&mut players, &gamepads);
    assert_eq!(players[0].assigned_gamepad, Some(11));
    assert_eq!(players[1].assigned_gamepad, Some(12));
    assert_eq!(players[2].assigned_gamepad, None);
}

#[test]
fn disconnect_of_unknown_gamepad_is_a_noop() {
    let mut players = roster(2);
    connect_gamepad(&mut players, 3);
    let before = players.clone();
    let unbound = disconnect_gamepad(&mut players, 99);
    assert_eq!(unbound, None);
    assert_eq!(players, before);
}

#[test]
fn batch_of_events_is_drained_in_order() {
    let mut players = roster(2);
    let events = vec![
        connected_event(5),
        connected_event(6),
        disconnected_event(5),
        connected_event(7),
    ];
    handle_gamepad_connection(&mut players, &events);
    assert_eq!(players[0].assigned_gamepad, Some(7));
    assert_eq!(players[1].assigned_gamepad, Some(6));
}

#[test]
fn duplicate_connect_in_one_batch_binds_once() {
    let mut players = roster(2);
    let events = vec![connected_event(5), connected_event(5)];
    handle_gamepad_connection(&mut players, &events);
    assert_eq!(players[0].assigned_gamepad, Some(5));
    assert_eq!(players[1].assigned_gamepad, None);
}
