//! Action mapping and the device-assignment lifecycle.
//!
//! Every combatant owns an [`InputMap`]: a binding table that routes raw
//! device samples to the three abstract player actions, keeps the handle of
//! the gamepad currently assigned to the combatant (if any), and carries the
//! previous-tick pressed flags that make dash and guard edge-triggered.
//!
//! The assignment functions maintain the one-to-one relation between
//! connected gamepads and combatants: a gamepad is bound to at most one
//! combatant and a combatant to at most one gamepad, and the back-link held
//! in the combatant's input map always agrees with the assignment.

use vstd::prelude::*;
use crate::player::Player;

verus! {

/// The three abstract actions a combatant can take.
#[derive(Clone, Copy, Debug, PartialEq, Eq, Hash)]
pub enum PlayerAction {
    /// Continuous 2D movement.
    Move,
    /// Instantaneous burst of speed in the current movement direction.
    Dash,
    /// Defensive stance (reserved: its only effect is a notification).
    Gaurd,
}

/// A gamepad control a player action can be bound to.
#[derive(Clone, Copy, Debug, PartialEq, Eq)]
pub enum GamepadControl {
    /// The left analog stick, a dual-axis input.
    LeftStick,
    /// The south face button.
    South,
    /// The right trigger.
    RightTrigger,
}

/// A keyboard control a player action can be bound to.
#[derive(Clone, Copy, Debug, PartialEq, Eq)]
pub enum KeyboardControl {
    /// The WASD keys as a four-way virtual stick.
    Wasd,
    /// The left shift key.
    ShiftLeft,
    /// The spacebar.
    Space,
}

/// Per-combatant binding table and mapping state.
///
/// Keyboard bindings are never removed: they coexist with the gamepad
/// bindings, so a combatant falls back to the keyboard whenever no gamepad
/// is assigned.
#[derive(Clone, Copy, Debug, PartialEq, Eq)]
pub struct InputMap {
    /// Gamepad binding for [`PlayerAction::Move`].
    pub move_gamepad: Option<GamepadControl>,
    /// Gamepad binding for [`PlayerAction::Dash`].
    pub dash_gamepad: Option<GamepadControl>,
    /// Gamepad binding for [`PlayerAction::Gaurd`].
    pub guard_gamepad: Option<GamepadControl>,
    /// Keyboard binding for [`PlayerAction::Move`].
    pub move_keyboard: Option<KeyboardControl>,
    /// Keyboard binding for [`PlayerAction::Dash`].
    pub dash_keyboard: Option<KeyboardControl>,
    /// Keyboard binding for [`PlayerAction::Gaurd`].
    pub guard_keyboard: Option<KeyboardControl>,
    /// Handle of the gamepad this map currently routes through, if any.
    pub gamepad: Option<u64>,
    /// Whether dash was reported pressed on the previous tick.
    pub prev_dash: bool,
    /// Whether guard was reported pressed on the previous tick.
    pub prev_guard: bool,
}

/// The default binding table: left stick / WASD for movement, south button /
/// left shift for dash, right trigger / spacebar for guard; no gamepad
/// assigned, no button previously pressed.
pub open spec fn spec_default_input_map() -> InputMap {
    InputMap {
        move_gamepad: Some(GamepadControl::LeftStick),
        dash_gamepad: Some(GamepadControl::South),
        guard_gamepad: Some(GamepadControl::RightTrigger),
        move_keyboard: Some(KeyboardControl::Wasd),
        dash_keyboard: Some(KeyboardControl::ShiftLeft),
        guard_keyboard: Some(KeyboardControl::Space),
        gamepad: None,
        prev_dash: false,
        prev_guard: false,
    }
}

/// Builds the default binding table a combatant starts with.
pub fn default_input_map() -> (m: InputMap)
    ensures
        m == spec_default_input_map(),
{
    InputMap {
        move_gamepad: Some(GamepadControl::LeftStick),
        dash_gamepad: Some(GamepadControl::South),
        guard_gamepad: Some(GamepadControl::RightTrigger),
        move_keyboard: Some(KeyboardControl::Wasd),
        dash_keyboard: Some(KeyboardControl::ShiftLeft),
        guard_keyboard: Some(KeyboardControl::Space),
        gamepad: None,
        prev_dash: false,
        prev_guard: false,
    }
}

impl InputMap {
    /// Routes this map through the given gamepad. Bindings and edge-trigger
    /// state are untouched.
    pub fn set_gamepad(&mut self, gamepad: u64)
        ensures
            *final(self) == (InputMap { gamepad: Some(gamepad), ..*old(self) }),
    {
        self.gamepad = Some(gamepad);
    }

    /// Clears the gamepad route, so inputs fall back to the keyboard
    /// bindings. Bindings and edge-trigger state are untouched.
    pub fn clear_gamepad(&mut self)
        ensures
            *final(self) == (InputMap { gamepad: None, ..*old(self) }),
    {
        self.gamepad = None;
    }

    /// The gamepad this map currently routes through, if any.
    pub fn gamepad(&self) -> (g: Option<u64>)
        ensures
            g == self.gamepad,
    {
        self.gamepad
    }
}

/// The gamepad control the map binds an action to.
pub open spec fn spec_gamepad_binding(m: InputMap, action: PlayerAction) -> Option<GamepadControl> {
    match action {
        PlayerAction::Move => m.move_gamepad,
        PlayerAction::Dash => m.dash_gamepad,
        PlayerAction::Gaurd => m.guard_gamepad,
    }
}

/// The keyboard control the map binds an action to.
pub open spec fn spec_keyboard_binding(m: InputMap, action: PlayerAction) -> Option<
    KeyboardControl,
> {
    match action {
        PlayerAction::Move => m.move_keyboard,
        PlayerAction::Dash => m.dash_keyboard,
        PlayerAction::Gaurd => m.guard_keyboard,
    }
}

impl InputMap {
    /// The gamepad control the given action is bound to, if any.
    pub fn gamepad_binding(&self, action: PlayerAction) -> (b: Option<GamepadControl>)
        ensures
            b == spec_gamepad_binding(*self, action),
    {
        match action {
            PlayerAction::Move => self.move_gamepad,
            PlayerAction::Dash => self.dash_gamepad,
            PlayerAction::Gaurd => self.guard_gamepad,
        }
    }

    /// The keyboard control the given action is bound to, if any.
    pub fn keyboard_binding(&self, action: PlayerAction) -> (b: Option<KeyboardControl>)
        ensures
            b == spec_keyboard_binding(*self, action),
    {
        match action {
            PlayerAction::Move => self.move_keyboard,
            PlayerAction::Dash => self.dash_keyboard,
            PlayerAction::Gaurd => self.guard_keyboard,
        }
    }
}

/// Largest axis deflection magnitude a device sample may report.
pub const AXIS_MAX: i64 = 1_000_000;

/// Largest move-force magnitude a combatant may be configured with.
pub const SPEED_MAX: i64 = 1_000_000;

/// Factor between the continuous move force and the dash impulse.
pub const DASH_MULTIPLIER: i64 = 5;

/// What the host polled from one device this tick: the analog axis pair
/// driving movement (a gamepad stick, or the keyboard's four-way virtual
/// stick) and the held state of the dash and guard buttons.
#[derive(Clone, Copy, Debug, PartialEq, Eq)]
pub struct RawDeviceState {
    /// Horizontal deflection, in `[-AXIS_MAX, AXIS_MAX]`.
    pub axis_x: i64,
    /// Vertical deflection, in `[-AXIS_MAX, AXIS_MAX]`.
    pub axis_y: i64,
    /// Whether the dash button is held this tick.
    pub dash: bool,
    /// Whether the guard button is held this tick.
    pub guard: bool,
}

/// The per-tick resolved action values of one combatant: a 2D move vector
/// and edge-triggered dash and guard flags, true only on the tick the
/// button went from released to pressed.
#[derive(Clone, Copy, Debug, PartialEq, Eq)]
pub struct ActionState {
    pub move_x: i64,
    pub move_y: i64,
    pub dash_just_pressed: bool,
    pub guard_just_pressed: bool,
}

/// A device sample is well formed when its axis pair lies within the unit
/// disk's bounding box, `[-AXIS_MAX, AXIS_MAX]` per axis.
pub open spec fn sample_bounded(s: RawDeviceState) -> bool {
    -AXIS_MAX <= s.axis_x <= AXIS_MAX && -AXIS_MAX <= s.axis_y <= AXIS_MAX
}

/// Whether the map routes through an assigned gamepad for which the host
/// supplied a sample this tick.
pub open spec fn gamepad_active(m: InputMap, gamepad_sample: Option<RawDeviceState>) -> bool {
    m.gamepad is Some && gamepad_sample is Some
}

/// The resolved move vector: the assigned gamepad's stick when it is bound,
/// sampled and deflected; otherwise the keyboard's virtual stick when bound;
/// otherwise neutral.
pub open spec fn resolved_move(
    m: InputMap,
    gamepad_sample: Option<RawDeviceState>,
    keyboard_sample: RawDeviceState,
) -> (i64, i64) {
    if gamepad_active(m, gamepad_sample) && m.move_gamepad is Some
        && !(gamepad_sample->0.axis_x == 0 && gamepad_sample->0.axis_y == 0) {
        (gamepad_sample->0.axis_x, gamepad_sample->0.axis_y)
    } else if m.move_keyboard is Some {
        (keyboard_sample.axis_x, keyboard_sample.axis_y)
    } else {
        (0i64, 0i64)
    }
}

/// Whether dash is held this tick: on the assigned gamepad's bound button,
/// or on the keyboard's (the keyboard fallback always coexists).
pub open spec fn resolved_dash_held(
    m: InputMap,
    gamepad_sample: Option<RawDeviceState>,
    keyboard_sample: RawDeviceState,
) -> bool {
    (gamepad_active(m, gamepad_sample) && m.dash_gamepad is Some && gamepad_sample->0.dash)
        || (m.dash_keyboard is Some && keyboard_sample.dash)
}

/// Whether guard is held this tick, resolved like dash.
pub open spec fn resolved_guard_held(
    m: InputMap,
    gamepad_sample: Option<RawDeviceState>,
    keyboard_sample: RawDeviceState,
) -> bool {
    (gamepad_active(m, gamepad_sample) && m.guard_gamepad is Some && gamepad_sample->0.guard)
        || (m.guard_keyboard is Some && keyboard_sample.guard)
}

impl InputMap {
    /// Resolves this tick's action state from the raw device samples.
    ///
    /// The move vector follows the assigned gamepad first and falls back to
    /// the keyboard. Dash and guard fire exactly once per press: they are
    /// true only when held this tick and not held on the previous one, and
    /// the previous-tick flags are advanced to this tick's held state.
    pub fn resolve(
        &mut self,
        gamepad_sample: Option<RawDeviceState>,
        keyboard_sample: RawDeviceState,
    ) -> (a: ActionState)
        ensures
            a.move_x == resolved_move(*old(self), gamepad_sample, keyboard_sample).0,
            a.move_y == resolved_move(*old(self), gamepad_sample, keyboard_sample).1,
            a.dash_just_pressed == (resolved_dash_held(*old(self), gamepad_sample, keyboard_sample)
                && !old(self).prev_dash),
            a.guard_just_pressed == (resolved_guard_held(
                *old(self),
                gamepad_sample,
                keyboard_sample,
            ) && !old(self).prev_guard),
            *final(self) == (InputMap {
                prev_dash: resolved_dash_held(*old(self), gamepad_sample, keyboard_sample),
                prev_guard: resolved_guard_held(*old(self), gamepad_sample, keyboard_sample),
                ..*old(self)
            }),
            (match gamepad_sample {
                Some(g) => sample_bounded(g),
                None => true,
            }) && sample_bounded(keyboard_sample) ==> action_bounded(a),
    {
        let gp_active: bool = self.gamepad.is_some() && gamepad_sample.is_some();
        let use_gp_move: bool = match gamepad_sample {
            Some(gp) => gp_active && self.move_gamepad.is_some() && !(gp.axis_x == 0 && gp.axis_y
                == 0),
            None => false,
        };
        let (move_x, move_y): (i64, i64) = if use_gp_move {
            match gamepad_sample {
                Some(gp) => (gp.axis_x, gp.axis_y),
                None => (0i64, 0i64),
            }
        } else if self.move_keyboard.is_some() {
            (keyboard_sample.axis_x, keyboard_sample.axis_y)
        } else {
            (0i64, 0i64)
        };
        let gp_dash: bool = match gamepad_sample {
            Some(gp) => gp_active && self.dash_gamepad.is_some() && gp.dash,
            None => false,
        };
        let gp_guard: bool = match gamepad_sample {
            Some(gp) => gp_active && self.guard_gamepad.is_some() && gp.guard,
            None => false,
        };
        let dash_held: bool = gp_dash || (self.dash_keyboard.is_some() && keyboard_sample.dash);
        let guard_held: bool = gp_guard || (self.guard_keyboard.is_some() && keyboard_sample.guard);
        let a = ActionState {
            move_x,
            move_y,
            dash_just_pressed: dash_held && !self.prev_dash,
            guard_just_pressed: guard_held && !self.prev_guard,
        };
        self.prev_dash = dash_held;
        self.prev_guard = guard_held;
        a
    }
}

/// The force and impulse requests one combatant submits to the physics
/// service this tick, with the diagnostic flags of the discrete actions.
#[derive(Clone, Copy, Debug, PartialEq, Eq)]
pub struct TickOutput {
    /// Continuous force, applied every tick: `move_vector * speed`.
    pub force_x: i64,
    pub force_y: i64,
    /// Instantaneous impulse: `move_vector * speed * DASH_MULTIPLIER` on
    /// the tick a dash fires, zero otherwise.
    pub impulse_x: i64,
    pub impulse_y: i64,
    /// "dash triggered" notification.
    pub dashed: bool,
    /// "guard engaged" notification.
    pub guarded: bool,
}

/// An action state is well formed when its move vector lies in the sampled
/// axis range.
pub open spec fn action_bounded(a: ActionState) -> bool {
    -AXIS_MAX <= a.move_x <= AXIS_MAX && -AXIS_MAX <= a.move_y <= AXIS_MAX
}

/// A speed is well formed when it is nonnegative and within the configured
/// ceiling.
pub open spec fn speed_bounded(s: crate::player::Speed) -> bool {
    0 <= s.0 <= SPEED_MAX
}

/// The physics requests one combatant emits for one resolved action state:
/// force `move * speed` always; impulse `move * speed * DASH_MULTIPLIER`
/// exactly on a dash edge-trigger, zero otherwise.
pub open spec fn spec_tick_output(a: ActionState, s: crate::player::Speed) -> TickOutput {
    TickOutput {
        force_x: (a.move_x * s.0) as i64,
        force_y: (a.move_y * s.0) as i64,
        impulse_x: if a.dash_just_pressed {
            (a.move_x * s.0 * DASH_MULTIPLIER) as i64
        } else {
            0i64
        },
        impulse_y: if a.dash_just_pressed {
            (a.move_y * s.0 * DASH_MULTIPLIER) as i64
        } else {
            0i64
        },
        dashed: a.dash_just_pressed,
        guarded: a.guard_just_pressed,
    }
}

/// Consumes each combatant's resolved action state and emits that tick's
/// force and impulse requests: a continuous force of `move * speed`, plus a
/// dash impulse of `move * speed * DASH_MULTIPLIER` on the tick dash fires.
/// A dash with a neutral move vector produces a zero impulse: dash
/// direction follows the current movement input only.
pub fn handle_inputs(
    actions: &Vec<ActionState>,
    speeds: &Vec<crate::player::Speed>,
) -> (out: Vec<TickOutput>)
    requires
        actions@.len() == speeds@.len(),
        forall|i: int| 0 <= i < actions@.len() ==> action_bounded(actions@[i]),
        forall|i: int| 0 <= i < speeds@.len() ==> speed_bounded(speeds@[i]),
    ensures
        out@.len() == actions@.len(),
        forall|i: int| 0 <= i < actions@.len() ==> out@[i] == spec_tick_output(
            actions@[i],
            speeds@[i],
        ),
{
    let n: usize = actions.len();
    let mut out: Vec<TickOutput> = Vec::new();
    let mut i: usize = 0;
    while i < n
        invariant
            i <= n,
            n == actions@.len(),
            actions@.len() == speeds@.len(),
            forall|j: int| 0 <= j < actions@.len() ==> action_bounded(actions@[j]),
            forall|j: int| 0 <= j < speeds@.len() ==> speed_bounded(speeds@[j]),
            out@.len() == i,
            forall|j: int| 0 <= j < i ==> out@[j] == spec_tick_output(actions@[j], speeds@[j]),
        decreases n - i,
    {
        let a = actions[i];
        let s = speeds[i];
        proof {
            lemma_tick_products_bounded(a, s);
        }
        let force_x: i64 = a.move_x * s.0;
        let force_y: i64 = a.move_y * s.0;
        let (impulse_x, impulse_y): (i64, i64) = if a.dash_just_pressed {
            (a.move_x * s.0 * DASH_MULTIPLIER, a.move_y * s.0 * DASH_MULTIPLIER)
        } else {
            (0i64, 0i64)
        };
        out.push(
            TickOutput {
                force_x,
                force_y,
                impulse_x,
                impulse_y,
                dashed: a.dash_just_pressed,
                guarded: a.guard_just_pressed,
            },
        );
        i = i + 1;
    }
    out
}

/// A device connection change, as delivered by the host input subsystem.
#[derive(Clone, Debug, PartialEq, Eq)]
pub enum GamepadConnection {
    /// The gamepad appeared, with what the host reported about it.
    Connected { name: String, vendor_id: Option<u16>, product_id: Option<u16> },
    /// The gamepad went away.
    Disconnected,
}

/// One queued device event: which gamepad, and what happened to it.
#[derive(Clone, Debug, PartialEq, Eq)]
pub struct GamepadConnectionEvent {
    /// Stable handle of the gamepad, assigned by the host input subsystem.
    pub gamepad: u64,
    pub connection: GamepadConnection,
}

/// No gamepad is assigned to two combatants.
pub open spec fn injective(players: Seq<Player>) -> bool {
    forall|i: int, j: int|
        0 <= i < players.len() && 0 <= j < players.len() && i != j
            && players[i].assigned_gamepad is Some ==> players[i].assigned_gamepad
            != players[j].assigned_gamepad
}

/// Every combatant's input map routes through exactly the gamepad assigned
/// to that combatant: the back-link of the assignment relation agrees with
/// the forward link.
pub open spec fn links_consistent(players: Seq<Player>) -> bool {
    forall|i: int|
        0 <= i < players.len() ==> #[trigger] players[i].input_map.gamepad == players[
            i
        ].assigned_gamepad
}

/// Whether the gamepad is already assigned to some combatant.
pub open spec fn device_assigned(players: Seq<Player>, g: u64) -> bool {
    exists|i: int| 0 <= i < players.len() && players[i].assigned_gamepad == Some(g)
}

/// The first combatant at or after `k`, in creation order, without an
/// assigned gamepad.
pub open spec fn first_unbound_from(players: Seq<Player>, k: int) -> Option<int>
    decreases players.len() - k,
{
    if k < 0 || k >= players.len() {
        None
    } else if players[k].assigned_gamepad is None {
        Some(k)
    } else {
        first_unbound_from(players, k + 1)
    }
}

/// The first combatant, in creation order, without an assigned gamepad.
pub open spec fn first_unbound(players: Seq<Player>) -> Option<int> {
    first_unbound_from(players, 0)
}

/// The first combatant at or after `k` whose input map routes through the
/// given gamepad (the reverse lookup used on disconnection).
pub open spec fn first_routed_from(players: Seq<Player>, g: u64, k: int) -> Option<int>
    decreases players.len() - k,
{
    if k < 0 || k >= players.len() {
        None
    } else if players[k].input_map.gamepad == Some(g) {
        Some(k)
    } else {
        first_routed_from(players, g, k + 1)
    }
}

/// The first combatant whose input map routes through the given gamepad.
pub open spec fn first_routed(players: Seq<Player>, g: u64) -> Option<int> {
    first_routed_from(players, g, 0)
}

/// A combatant after the gamepad is bound to it: the forward link and the
/// input-map back-link are set together, atomically.
pub open spec fn bind_gamepad(p: Player, g: u64) -> Player {
    Player {
        assigned_gamepad: Some(g),
        input_map: InputMap { gamepad: Some(g), ..p.input_map },
        ..p
    }
}

/// A combatant after its assignment dissolves: both links are cleared
/// together, so inputs fall back to the keyboard bindings.
pub open spec fn unbind_gamepad(p: Player) -> Player {
    Player { assigned_gamepad: None, input_map: InputMap { gamepad: None, ..p.input_map }, ..p }
}

/// The roster after a "gamepad connected" event: nothing changes if the
/// gamepad is already assigned (duplicate events deduplicate by device
/// identity) or if no combatant is unbound; otherwise the gamepad binds to
/// the first unbound combatant in creation order.
pub open spec fn apply_connect(players: Seq<Player>, g: u64) -> Seq<Player> {
    if device_assigned(players, g) {
        players
    } else {
        match first_unbound(players) {
            Some(i) => players.update(i, bind_gamepad(players[i], g)),
            None => players,
        }
    }
}

/// The roster after a "gamepad disconnected" event: the combatant bound to
/// the gamepad (found by reverse lookup) loses its assignment and reverts
/// to keyboard-only input; every other combatant is untouched. Nothing
/// changes if no combatant was bound to it.
pub open spec fn apply_disconnect(players: Seq<Player>, g: u64) -> Seq<Player> {
    match first_routed(players, g) {
        Some(i) => players.update(i, unbind_gamepad(players[i])),
        None => players,
    }
}

/// The roster after one connection event.
pub open spec fn apply_event(players: Seq<Player>, ev: GamepadConnectionEvent) -> Seq<Player> {
    match ev.connection {
        GamepadConnection::Connected { .. } => apply_connect(players, ev.gamepad),
        GamepadConnection::Disconnected => apply_disconnect(players, ev.gamepad),
    }
}

/// The roster after the first `n` events of the queued batch, in order.
pub open spec fn apply_events(
    players: Seq<Player>,
    events: Seq<GamepadConnectionEvent>,
    n: int,
) -> Seq<Player>
    decreases n,
{
    if n <= 0 {
        players
    } else {
        apply_event(apply_events(players, events, n - 1), events[n - 1])
    }
}

/// Whether this gamepad is currently assigned to some combatant.
pub fn is_device_assigned(players: &Vec<Player>, g: u64) -> (r: bool)
    ensures
        r == device_assigned(players@, g),
{
    let n: usize = players.len();
    let mut i: usize = 0;
    while i < n
        invariant
            i <= n,
            n == players@.len(),
            forall|j: int| 0 <= j < i ==> players@[j].assigned_gamepad != Some(g),
        decreases n - i,
    {
        let assigned: bool = match players[i].assigned_gamepad {
            Some(h) => h == g,
            None => false,
        };
        if assigned {
            assert(device_assigned(players@, g)) by {
                assert(players@[i as int].assigned_gamepad == Some(g));
            }
            return true;
        }
        i = i + 1;
    }
    false
}

/// Reacts to a "gamepad connected" event: if the gamepad is not already
/// assigned, binds it to the first unbound combatant in creation order and
/// routes that combatant's input map through it. Returns the slot of the
/// combatant it bound, or `None` when the gamepad was already assigned or
/// every combatant is bound (the gamepad then stays unassigned; no
/// queueing).
pub fn connect_gamepad(players: &mut Vec<Player>, g: u64) -> (bound: Option<usize>)
    ensures
        final(players)@ == apply_connect(old(players)@, g),
        match bound {
            Some(i) => !device_assigned(old(players)@, g) && first_unbound(old(players)@) == Some(
                i as int,
            ),
            None => device_assigned(old(players)@, g) || first_unbound(old(players)@) is None,
        },
{
    if is_device_assigned(players, g) {
        return None;
    }
    let n: usize = players.len();
    let mut i: usize = 0;
    while i < n
        invariant
            i <= n,
            n == players@.len(),
            players@ == old(players)@,
            !device_assigned(players@, g),
            first_unbound(players@) == first_unbound_from(players@, i as int),
        decreases n - i,
    {
        if players[i].assigned_gamepad.is_none() {
            assert(first_unbound(players@) == Some(i as int));
            let mut p: Player = players[i];
            p.assigned_gamepad = Some(g);
            p.input_map.gamepad = Some(g);
            assert(p == bind_gamepad(old(players)@[i as int], g));
            players[i] = p;
            return Some(i);
        }
        i = i + 1;
    }
    assert(first_unbound(players@) is None);
    None
}

/// Reacts to a "gamepad disconnected" event: finds the combatant bound to
/// the gamepad by reverse lookup, dissolves the assignment and clears the
/// input map's device route, so that combatant falls back to its keyboard
/// bindings. Returns the slot of the combatant it unbound, or `None` when
/// no combatant was bound to the gamepad (a silent no-op).
pub fn disconnect_gamepad(players: &mut Vec<Player>, g: u64) -> (unbound: Option<usize>)
    ensures
        final(players)@ == apply_disconnect(old(players)@, g),
        match unbound {
            Some(i) => first_routed(old(players)@, g) == Some(i as int),
            None => first_routed(old(players)@, g) is None,
        },
{
    let n: usize = players.len();
    let mut i: usize = 0;
    while i < n
        invariant
            i <= n,
            n == players@.len(),
            players@ == old(players)@,
            first_routed(players@, g) == first_routed_from(players@, g, i as int),
        decreases n - i,
    {
        let routed: bool = match players[i].input_map.gamepad {
            Some(h) => h == g,
            None => false,
        };
        if routed {
            assert(first_routed(players@, g) == Some(i as int));
            let mut p: Player = players[i];
            p.assigned_gamepad = None;
            p.input_map.gamepad = None;
            assert(p == unbind_gamepad(old(players)@[i as int]));
            players[i] = p;
            return Some(i);
        }
        i = i + 1;
    }
    assert(first_routed(players@, g) is None);
    None
}

/// Drains one tick's queued batch of connection events, in queue order,
/// before any forces are computed that tick.
pub fn handle_gamepad_connection(players: &mut Vec<Player>, events: &Vec<GamepadConnectionEvent>)
    ensures
        final(players)@ == apply_events(old(players)@, events@, events@.len() as int),
{
    let n: usize = events.len();
    let mut i: usize = 0;
    while i < n
        invariant
            i <= n,
            n == events@.len(),
            players@ == apply_events(old(players)@, events@, i as int),
        decreases n - i,
    {
        match &events[i].connection {
            GamepadConnection::Connected { .. } => {
                connect_gamepad(players, events[i].gamepad);
            },
            GamepadConnection::Disconnected => {
                disconnect_gamepad(players, events[i].gamepad);
            },
        }
        i = i + 1;
    }
}

/// The first gamepad at or after `k`, in enumeration order, not assigned to
/// any combatant.
pub open spec fn first_available_from(players: Seq<Player>, gs: Seq<u64>, k: int) -> Option<u64>
    decreases gs.len() - k,
{
    if k < 0 || k >= gs.len() {
        None
    } else if !device_assigned(players, gs[k]) {
        Some(gs[k])
    } else {
        first_available_from(players, gs, k + 1)
    }
}

/// The first connected gamepad not assigned to any combatant.
pub open spec fn first_available(players: Seq<Player>, gs: Seq<u64>) -> Option<u64> {
    first_available_from(players, gs, 0)
}

/// One step of the gameplay-start scan: if the combatant in slot `i` is
/// unbound, the first unassigned connected gamepad (if any) binds to it.
pub open spec fn setup_step(players: Seq<Player>, gs: Seq<u64>, i: int) -> Seq<Player> {
    if players[i].assigned_gamepad is None {
        match first_available(players, gs) {
            Some(g) => players.update(i, bind_gamepad(players[i], g)),
            None => players,
        }
    } else {
        players
    }
}

/// The roster after the gameplay-start scan has visited the first `n`
/// combatants.
pub open spec fn apply_setup(players: Seq<Player>, gs: Seq<u64>, n: int) -> Seq<Player>
    decreases n,
{
    if n <= 0 {
        players
    } else {
        setup_step(apply_setup(players, gs, n - 1), gs, n - 1)
    }
}

/// The first connected gamepad not assigned to any combatant, or `None`
/// when every connected gamepad is taken.
pub fn find_available_gamepad(players: &Vec<Player>, gamepads: &Vec<u64>) -> (r: Option<u64>)
    ensures
        r == first_available(players@, gamepads@),
{
    let n: usize = gamepads.len();
    let mut k: usize = 0;
    while k < n
        invariant
            k <= n,
            n == gamepads@.len(),
            first_available(players@, gamepads@) == first_available_from(
                players@,
                gamepads@,
                k as int,
            ),
        decreases n - k,
    {
        let g: u64 = gamepads[k];
        if !is_device_assigned(players, g) {
            assert(first_available(players@, gamepads@) == Some(g));
            return Some(g);
        }
        k = k + 1;
    }
    None
}

/// On gameplay start: every combatant still unbound, visited in creation
/// order, is bound to the first currently-connected gamepad that no
/// combatant holds — a single first-fit pass, with no retry: a combatant
/// left without a gamepad stays on its keyboard bindings.
pub fn setup_gamepads(players: &mut Vec<Player>, gamepads: &Vec<u64>)
    ensures
        final(players)@ == apply_setup(old(players)@, gamepads@, old(players)@.len() as int),
{
    let n: usize = players.len();
    let mut i: usize = 0;
    while i < n
        invariant
            i <= n,
            n == players@.len(),
            players@ == apply_setup(old(players)@, gamepads@, i as int),
        decreases n - i,
    {
        if players[i].assigned_gamepad.is_none() {
            let found: Option<u64> = find_available_gamepad(players, gamepads);
            match found {
                Some(g) => {
                    let mut p: Player = players[i];
                    p.assigned_gamepad = Some(g);
                    p.input_map.gamepad = Some(g);
                    assert(p == bind_gamepad(apply_setup(old(players)@, gamepads@, i as int)[
                        i as int
                    ], g));
                    players[i] = p;
                },
                None => {},
            }
        }
        assert(players@ == setup_step(apply_setup(old(players)@, gamepads@, i as int), gamepads@, i as int));
        i = i + 1;
    }
}

/// Wherever the first-unbound scan finds a slot, that slot is in range and
/// its combatant is unbound.
proof fn lemma_first_unbound_props(players: Seq<Player>, k: int)
    ensures
        match first_unbound_from(players, k) {
            Some(i) => k <= i < players.len() && players[i].assigned_gamepad is None,
            None => true,
        },
    decreases players.len() - k,
{
    if 0 <= k < players.len() {
        if !(players[k].assigned_gamepad is None) {
            lemma_first_unbound_props(players, k + 1);
        }
    }
}

/// Wherever the reverse lookup finds a slot, that slot is in range and its
/// input map routes through the looked-up gamepad.
proof fn lemma_first_routed_props(players: Seq<Player>, g: u64, k: int)
    ensures
        match first_routed_from(players, g, k) {
            Some(i) => k <= i < players.len() && players[i].input_map.gamepad == Some(g),
            None => true,
        },
    decreases players.len() - k,
{
    if 0 <= k < players.len() {
        if players[k].input_map.gamepad != Some(g) {
            lemma_first_routed_props(players, g, k + 1);
        }
    }
}

/// Wherever the availability scan finds a gamepad, that gamepad is not
/// assigned to any combatant.
proof fn lemma_first_available_props(players: Seq<Player>, gs: Seq<u64>, k: int)
    ensures
        match first_available_from(players, gs, k) {
            Some(g) => !device_assigned(players, g),
            None => true,
        },
    decreases gs.len() - k,
{
    if 0 <= k < gs.len() {
        if device_assigned(players, gs[k]) {
            lemma_first_available_props(players, gs, k + 1);
        }
    }
}

/// Binding an unassigned gamepad to one slot keeps the assignment relation
/// a partial injective function with consistent back-links.
proof fn lemma_bind_preserves_invariant(players: Seq<Player>, g: u64, i: int)
    requires
        injective(players),
        links_consistent(players),
        !device_assigned(players, g),
        0 <= i < players.len(),
    ensures
        injective(players.update(i, bind_gamepad(players[i], g))),
        links_consistent(players.update(i, bind_gamepad(players[i], g))),
{
    let r = players.update(i, bind_gamepad(players[i], g));
    assert forall|a: int, b: int|
        0 <= a < r.len() && 0 <= b < r.len() && a != b && r[a].assigned_gamepad is Some implies r[
        a
    ].assigned_gamepad != r[b].assigned_gamepad by {
        if a == i {
            if r[b].assigned_gamepad == Some(g) {
                assert(players[b].assigned_gamepad == Some(g));
                assert(device_assigned(players, g));
            }
        } else if b == i {
            if r[a].assigned_gamepad == Some(g) {
                assert(players[a].assigned_gamepad == Some(g));
                assert(device_assigned(players, g));
            }
        } else {
            assert(players[a].assigned_gamepad != players[b].assigned_gamepad);
        }
    }
}

/// The connect handler keeps the assignment relation a partial injective
/// function, and keeps every combatant's input-map route agreeing with its
/// assignment.
pub proof fn lemma_connect_preserves_invariant(players: Seq<Player>, g: u64)
    requires
        injective(players),
        links_consistent(players),
    ensures
        injective(apply_connect(players, g)),
        links_consistent(apply_connect(players, g)),
{
    if !device_assigned(players, g) {
        lemma_first_unbound_props(players, 0);
        match first_unbound(players) {
            Some(i) => {
                lemma_bind_preserves_invariant(players, g, i);
            },
            None => {},
        }
    }
}

/// The disconnect handler keeps the assignment relation a partial injective
/// function with consistent back-links, and touches no other combatant.
pub proof fn lemma_disconnect_preserves_invariant(players: Seq<Player>, g: u64)
    requires
        injective(players),
        links_consistent(players),
    ensures
        injective(apply_disconnect(players, g)),
        links_consistent(apply_disconnect(players, g)),
{
    lemma_first_routed_props(players, g, 0);
    match first_routed(players, g) {
        Some(i) => {
            let r = players.update(i, unbind_gamepad(players[i]));
            assert forall|a: int, b: int|
                0 <= a < r.len() && 0 <= b < r.len() && a != b && r[a].assigned_gamepad is Some
                implies r[a].assigned_gamepad != r[b].assigned_gamepad by {
                if a != i && b != i {
                    assert(players[a].assigned_gamepad != players[b].assigned_gamepad);
                }
            }
        },
        None => {},
    }
}

/// One connection event of either kind preserves the assignment invariant.
pub proof fn lemma_event_preserves_invariant(players: Seq<Player>, ev: GamepadConnectionEvent)
    requires
        injective(players),
        links_consistent(players),
    ensures
        injective(apply_event(players, ev)),
        links_consistent(apply_event(players, ev)),
{
    match ev.connection {
        GamepadConnection::Connected { .. } => lemma_connect_preserves_invariant(
            players,
            ev.gamepad,
        ),
        GamepadConnection::Disconnected => lemma_disconnect_preserves_invariant(
            players,
            ev.gamepad,
        ),
    }
}

/// For every sequence of connect and disconnect events, at every point of
/// the batch the assignment relation remains a partial injective function —
/// no gamepad bound to two combatants, no combatant bound to two gamepads —
/// and every input-map back-link agrees with it.
pub proof fn lemma_assignment_relation_invariant(
    players: Seq<Player>,
    events: Seq<GamepadConnectionEvent>,
    n: int,
)
    requires
        injective(players),
        links_consistent(players),
        0 <= n <= events.len(),
    ensures
        injective(apply_events(players, events, n)),
        links_consistent(apply_events(players, events, n)),
    decreases n,
{
    if n > 0 {
        lemma_assignment_relation_invariant(players, events, n - 1);
        lemma_event_preserves_invariant(apply_events(players, events, n - 1), events[n - 1]);
    }
}

/// The gameplay-start scan never shrinks or grows the roster.
proof fn lemma_apply_setup_len(players: Seq<Player>, gs: Seq<u64>, n: int)
    requires
        0 <= n <= players.len(),
    ensures
        apply_setup(players, gs, n).len() == players.len(),
    decreases n,
{
    if n > 0 {
        lemma_apply_setup_len(players, gs, n - 1);
    }
}

/// The gameplay-start scan, too, preserves the assignment invariant at
/// every step.
pub proof fn lemma_setup_preserves_invariant(players: Seq<Player>, gs: Seq<u64>, n: int)
    requires
        injective(players),
        links_consistent(players),
        0 <= n <= players.len(),
    ensures
        injective(apply_setup(players, gs, n)),
        links_consistent(apply_setup(players, gs, n)),
    decreases n,
{
    if n > 0 {
        lemma_setup_preserves_invariant(players, gs, n - 1);
        lemma_apply_setup_len(players, gs, n - 1);
        let cur = apply_setup(players, gs, n - 1);
        if cur[n - 1].assigned_gamepad is None {
            lemma_first_available_props(cur, gs, 0);
            match first_available(cur, gs) {
                Some(g) => {
                    lemma_bind_preserves_invariant(cur, g, n - 1);
                },
                None => {},
            }
        }
    }
}

/// Replaying an identical "gamepad connected" event twice yields the same
/// assignment state as applying it once: the second application is a no-op.
pub proof fn lemma_connect_idempotent(players: Seq<Player>, g: u64)
    ensures
        apply_connect(apply_connect(players, g), g) == apply_connect(players, g),
{
    if !device_assigned(players, g) {
        lemma_first_unbound_props(players, 0);
        match first_unbound(players) {
            Some(i) => {
                let r = players.update(i, bind_gamepad(players[i], g));
                assert(r[i].assigned_gamepad == Some(g));
                assert(device_assigned(r, g));
            },
            None => {},
        }
    }
}

/// For bounded inputs, the force and dash-impulse products stay well within
/// the 64-bit range.
proof fn lemma_tick_products_bounded(a: ActionState, s: crate::player::Speed)
    requires
        action_bounded(a),
        speed_bounded(s),
    ensures
        -0x10_0000_0000_0000 <= a.move_x * s.0 <= 0x10_0000_0000_0000,
        -0x10_0000_0000_0000 <= a.move_y * s.0 <= 0x10_0000_0000_0000,
        -0x50_0000_0000_0000 <= a.move_x * s.0 * DASH_MULTIPLIER <= 0x50_0000_0000_0000,
        -0x50_0000_0000_0000 <= a.move_y * s.0 * DASH_MULTIPLIER <= 0x50_0000_0000_0000,
{
    assert(-0x10_0000_0000_0000 <= a.move_x * s.0 <= 0x10_0000_0000_0000) by (nonlinear_arith)
        requires
            -AXIS_MAX <= a.move_x <= AXIS_MAX,
            0 <= s.0 <= SPEED_MAX,
    ;
    assert(-0x10_0000_0000_0000 <= a.move_y * s.0 <= 0x10_0000_0000_0000) by (nonlinear_arith)
        requires
            -AXIS_MAX <= a.move_y <= AXIS_MAX,
            0 <= s.0 <= SPEED_MAX,
    ;
}

/// The dash impulse is exactly zero when the move vector is neutral, and
/// nonzero otherwise; its squared magnitude is exactly
/// `(speed * DASH_MULTIPLIER)^2` times the squared magnitude of the move
/// vector — dash direction follows the current movement input only.
pub proof fn lemma_dash_impulse(a: ActionState, s: crate::player::Speed)
    requires
        action_bounded(a),
        0 < s.0 <= SPEED_MAX,
        a.dash_just_pressed,
    ensures
        (spec_tick_output(a, s).impulse_x == 0 && spec_tick_output(a, s).impulse_y == 0) <==> (
        a.move_x == 0 && a.move_y == 0),
        spec_tick_output(a, s).impulse_x * spec_tick_output(a, s).impulse_x + spec_tick_output(
            a,
            s,
        ).impulse_y * spec_tick_output(a, s).impulse_y == (s.0 * DASH_MULTIPLIER) * (s.0
            * DASH_MULTIPLIER) * (a.move_x * a.move_x + a.move_y * a.move_y),
{
    lemma_tick_products_bounded(a, s);
    let ix = spec_tick_output(a, s).impulse_x;
    let iy = spec_tick_output(a, s).impulse_y;
    assert(ix == a.move_x * s.0 * DASH_MULTIPLIER);
    assert(iy == a.move_y * s.0 * DASH_MULTIPLIER);
    assert((ix == 0 <==> a.move_x == 0) && (iy == 0 <==> a.move_y == 0)) by (nonlinear_arith)
        requires
            ix == a.move_x * s.0 * DASH_MULTIPLIER,
            iy == a.move_y * s.0 * DASH_MULTIPLIER,
            0 < s.0,
            DASH_MULTIPLIER == 5,
    ;
    assert(ix * ix + iy * iy == (s.0 * DASH_MULTIPLIER) * (s.0 * DASH_MULTIPLIER) * (a.move_x
        * a.move_x + a.move_y * a.move_y)) by (nonlinear_arith)
        requires
            ix == a.move_x * s.0 * DASH_MULTIPLIER,
            iy == a.move_y * s.0 * DASH_MULTIPLIER,
    ;
}

} // verus!
