//! Authoritative input state for the two players, plus the mouse.
//!
//! Every (player, key) pair carries a pressed flag, the session time of the
//! press in milliseconds, and an auto-repeat accumulator. The engine reads
//! this state through `get_value` / `get_value_quick`, whose slots are:
//! 0=Left, 1=Right, 2=Up, 3=Down, 4=O, 5=X, 6=Enter, 7=Pause.

use crate::PX8Key;
use vstd::prelude::*;

verus! {

/// First auto-repeat fires this long after the initial press, in milliseconds.
pub const FIRST_REPEAT_MS: u64 = 400;

/// Later auto-repeats fire at this interval, in milliseconds.
pub const REPEAT_INTERVAL_MS: u64 = 80;

/// State of one (player, key) pair. `repeating` is the auto-repeat
/// accumulator: whether the first repeat has fired since the press.
#[derive(Clone, Copy, PartialEq, Eq, Structural, Debug)]
pub struct KeyState {
    pub pressed: bool,
    pub t_pressed: u64,
    pub repeating: bool,
}

impl KeyState {
    /// A released key has its auto-repeat accumulator reset.
    pub open spec fn wf(self) -> bool {
        !self.pressed ==> !self.repeating
    }

    pub open spec fn spec_released() -> KeyState {
        KeyState { pressed: false, t_pressed: 0, repeating: false }
    }

    /// A press edge at time `now`. A press of an already-pressed key is
    /// ignored unless it is a repeat (debounce); a repeat press refreshes the
    /// press time and keeps the accumulator.
    pub open spec fn spec_down(self, repeat: bool, now: u64) -> KeyState {
        if !self.pressed || repeat {
            KeyState {
                pressed: true,
                t_pressed: now,
                repeating: self.pressed && self.repeating,
            }
        } else {
            self
        }
    }

    /// A release edge: the pressed flag and the accumulator are cleared.
    pub open spec fn spec_up(self) -> KeyState {
        KeyState { pressed: false, t_pressed: self.t_pressed, repeating: false }
    }

    /// One auto-repeat step at session time `elapsed`: a held key fires a
    /// virtual repeat press once `FIRST_REPEAT_MS` have passed since the
    /// press, and every `REPEAT_INTERVAL_MS` thereafter.
    pub open spec fn spec_tick(self, elapsed: u64) -> KeyState {
        if self.pressed && !self.repeating && elapsed >= self.t_pressed + FIRST_REPEAT_MS {
            KeyState { pressed: true, t_pressed: elapsed, repeating: true }
        } else if self.pressed && self.repeating && elapsed >= self.t_pressed
            + REPEAT_INTERVAL_MS {
            KeyState { pressed: true, t_pressed: elapsed, repeating: true }
        } else {
            self
        }
    }
}

fn key_state_down(s: KeyState, repeat: bool, now: u64) -> (r: KeyState)
    ensures
        r == s.spec_down(repeat, now),
{
    if !s.pressed || repeat {
        KeyState { pressed: true, t_pressed: now, repeating: s.pressed && s.repeating }
    } else {
        s
    }
}

fn key_state_up(s: KeyState) -> (r: KeyState)
    ensures
        r == s.spec_up(),
{
    KeyState { pressed: false, t_pressed: s.t_pressed, repeating: false }
}

fn key_state_tick(s: KeyState, elapsed: u64) -> (r: KeyState)
    ensures
        r == s.spec_tick(elapsed),
{
    if s.pressed && !s.repeating && elapsed >= s.t_pressed && elapsed - s.t_pressed
        >= FIRST_REPEAT_MS {
        KeyState { pressed: true, t_pressed: elapsed, repeating: true }
    } else if s.pressed && s.repeating && elapsed >= s.t_pressed && elapsed - s.t_pressed
        >= REPEAT_INTERVAL_MS {
        KeyState { pressed: true, t_pressed: elapsed, repeating: true }
    } else {
        s
    }
}

/// The eight console keys of one player.
#[derive(Clone, Copy, PartialEq, Eq, Structural, Debug)]
pub struct PlayerKeys {
    pub left: KeyState,
    pub right: KeyState,
    pub up: KeyState,
    pub down: KeyState,
    pub o: KeyState,
    pub x: KeyState,
    pub enter: KeyState,
    pub pause: KeyState,
}

/// The engine-visible slot number of each console key.
pub open spec fn slot_of(key: PX8Key) -> int {
    match key {
        PX8Key::Left => 0,
        PX8Key::Right => 1,
        PX8Key::Up => 2,
        PX8Key::Down => 3,
        PX8Key::O => 4,
        PX8Key::X => 5,
        PX8Key::Enter => 6,
        PX8Key::Pause => 7,
    }
}

impl PlayerKeys {
    pub open spec fn wf(self) -> bool {
        &&& self.left.wf()
        &&& self.right.wf()
        &&& self.up.wf()
        &&& self.down.wf()
        &&& self.o.wf()
        &&& self.x.wf()
        &&& self.enter.wf()
        &&& self.pause.wf()
    }

    pub open spec fn spec_released() -> PlayerKeys {
        PlayerKeys {
            left: KeyState::spec_released(),
            right: KeyState::spec_released(),
            up: KeyState::spec_released(),
            down: KeyState::spec_released(),
            o: KeyState::spec_released(),
            x: KeyState::spec_released(),
            enter: KeyState::spec_released(),
            pause: KeyState::spec_released(),
        }
    }

    /// The key state stored in engine slot `i`.
    pub open spec fn slot(self, i: int) -> KeyState {
        if i == 0 {
            self.left
        } else if i == 1 {
            self.right
        } else if i == 2 {
            self.up
        } else if i == 3 {
            self.down
        } else if i == 4 {
            self.o
        } else if i == 5 {
            self.x
        } else if i == 6 {
            self.enter
        } else {
            self.pause
        }
    }

    pub open spec fn key(self, k: PX8Key) -> KeyState {
        self.slot(slot_of(k))
    }

    /// The state with the entry of `k` replaced by `s`.
    pub open spec fn with_key(self, k: PX8Key, s: KeyState) -> PlayerKeys {
        match k {
            PX8Key::Left => PlayerKeys { left: s, ..self },
            PX8Key::Right => PlayerKeys { right: s, ..self },
            PX8Key::Up => PlayerKeys { up: s, ..self },
            PX8Key::Down => PlayerKeys { down: s, ..self },
            PX8Key::O => PlayerKeys { o: s, ..self },
            PX8Key::X => PlayerKeys { x: s, ..self },
            PX8Key::Enter => PlayerKeys { enter: s, ..self },
            PX8Key::Pause => PlayerKeys { pause: s, ..self },
        }
    }

    pub open spec fn spec_tick_all(self, elapsed: u64) -> PlayerKeys {
        PlayerKeys {
            left: self.left.spec_tick(elapsed),
            right: self.right.spec_tick(elapsed),
            up: self.up.spec_tick(elapsed),
            down: self.down.spec_tick(elapsed),
            o: self.o.spec_tick(elapsed),
            x: self.x.spec_tick(elapsed),
            enter: self.enter.spec_tick(elapsed),
            pause: self.pause.spec_tick(elapsed),
        }
    }

    fn released() -> (r: PlayerKeys)
        ensures
            r == PlayerKeys::spec_released(),
    {
        let released = KeyState { pressed: false, t_pressed: 0, repeating: false };
        PlayerKeys {
            left: released,
            right: released,
            up: released,
            down: released,
            o: released,
            x: released,
            enter: released,
            pause: released,
        }
    }

    fn set_key(&mut self, k: PX8Key, s: KeyState)
        ensures
            *final(self) == old(self).with_key(k, s),
    {
        match k {
            PX8Key::Left => self.left = s,
            PX8Key::Right => self.right = s,
            PX8Key::Up => self.up = s,
            PX8Key::Down => self.down = s,
            PX8Key::O => self.o = s,
            PX8Key::X => self.x = s,
            PX8Key::Enter => self.enter = s,
            PX8Key::Pause => self.pause = s,
        }
    }

    fn get_key(&self, k: PX8Key) -> (r: KeyState)
        ensures
            r == self.key(k),
    {
        match k {
            PX8Key::Left => self.left,
            PX8Key::Right => self.right,
            PX8Key::Up => self.up,
            PX8Key::Down => self.down,
            PX8Key::O => self.o,
            PX8Key::X => self.x,
            PX8Key::Enter => self.enter,
            PX8Key::Pause => self.pause,
        }
    }

    fn tick_all(&mut self, elapsed: u64)
        ensures
            *final(self) == old(self).spec_tick_all(elapsed),
    {
        self.left = key_state_tick(self.left, elapsed);
        self.right = key_state_tick(self.right, elapsed);
        self.up = key_state_tick(self.up, elapsed);
        self.down = key_state_tick(self.down, elapsed);
        self.o = key_state_tick(self.o, elapsed);
        self.x = key_state_tick(self.x, elapsed);
        self.enter = key_state_tick(self.enter, elapsed);
        self.pause = key_state_tick(self.pause, elapsed);
    }
}

/// The whole input surface the engine reads: both players and the mouse.
pub struct Players {
    pub p0: PlayerKeys,
    pub p1: PlayerKeys,
    pub mouse_x: i32,
    pub mouse_y: i32,
    pub mouse_buttons: u32,
}

impl Players {
    pub open spec fn wf(self) -> bool {
        self.p0.wf() && self.p1.wf()
    }

    pub open spec fn player(self, p: int) -> PlayerKeys {
        if p == 0 {
            self.p0
        } else {
            self.p1
        }
    }

    /// The state with the keys of player `p` replaced by `pk`.
    pub open spec fn with_player(self, p: int, pk: PlayerKeys) -> Players {
        if p == 0 {
            Players { p0: pk, ..self }
        } else {
            Players { p1: pk, ..self }
        }
    }

    pub open spec fn spec_key_down(self, p: int, key: PX8Key, repeat: bool, now: u64) -> Players {
        self.with_player(p, self.player(p).with_key(key, self.player(p).key(key).spec_down(repeat, now)))
    }

    pub open spec fn spec_key_up(self, p: int, key: PX8Key) -> Players {
        self.with_player(p, self.player(p).with_key(key, self.player(p).key(key).spec_up()))
    }

    pub open spec fn spec_hor_up(self, p: int) -> Players {
        self.spec_key_up(p, PX8Key::Left).spec_key_up(p, PX8Key::Right)
    }

    pub open spec fn spec_ver_up(self, p: int) -> Players {
        self.spec_key_up(p, PX8Key::Up).spec_key_up(p, PX8Key::Down)
    }

    pub open spec fn spec_update(self, elapsed: u64) -> Players {
        Players {
            p0: self.p0.spec_tick_all(elapsed),
            p1: self.p1.spec_tick_all(elapsed),
            ..self
        }
    }

    pub fn new() -> (r: Players)
        ensures
            r.p0 == PlayerKeys::spec_released(),
            r.p1 == PlayerKeys::spec_released(),
            r.mouse_x == 0,
            r.mouse_y == 0,
            r.mouse_buttons == 0,
            r.wf(),
    {
        Players {
            p0: PlayerKeys::released(),
            p1: PlayerKeys::released(),
            mouse_x: 0,
            mouse_y: 0,
            mouse_buttons: 0,
        }
    }

    /// Record a press edge from any input source. An already-pressed key is
    /// left unchanged unless the event is a repeat (debounce).
    pub fn key_down(&mut self, player: u8, key: PX8Key, repeat: bool, now: u64)
        requires
            player < 2,
        ensures
            *final(self) == old(self).spec_key_down(player as int, key, repeat, now),
            old(self).wf() ==> final(self).wf(),
    {
        if player == 0 {
            let s = key_state_down(self.p0.get_key(key), repeat, now);
            self.p0.set_key(key, s);
        } else {
            let s = key_state_down(self.p1.get_key(key), repeat, now);
            self.p1.set_key(key, s);
        }
    }

    /// Record a release edge from any input source.
    pub fn key_up(&mut self, player: u8, key: PX8Key)
        requires
            player < 2,
        ensures
            *final(self) == old(self).spec_key_up(player as int, key),
            old(self).wf() ==> final(self).wf(),
    {
        if player == 0 {
            let s = key_state_up(self.p0.get_key(key));
            self.p0.set_key(key, s);
        } else {
            let s = key_state_up(self.p1.get_key(key));
            self.p1.set_key(key, s);
        }
    }

    /// Release both horizontal directions in one step; used when an analog
    /// stick center-snaps.
    pub fn key_direc_hor_up(&mut self, player: u8)
        requires
            player < 2,
        ensures
            *final(self) == old(self).spec_hor_up(player as int),
            old(self).wf() ==> final(self).wf(),
    {
        self.key_up(player, PX8Key::Left);
        self.key_up(player, PX8Key::Right);
    }

    /// Release both vertical directions in one step.
    pub fn key_direc_ver_up(&mut self, player: u8)
        requires
            player < 2,
        ensures
            *final(self) == old(self).spec_ver_up(player as int),
            old(self).wf() ==> final(self).wf(),
    {
        self.key_up(player, PX8Key::Up);
        self.key_up(player, PX8Key::Down);
    }

    pub fn get_value(&self, player: u8, index: u8) -> (r: bool)
        requires
            player < 2,
            index < 8,
        ensures
            r == self.player(player as int).slot(index as int).pressed,
    {
        let pk = if player == 0 {
            &self.p0
        } else {
            &self.p1
        };
        if index == 0 {
            pk.left.pressed
        } else if index == 1 {
            pk.right.pressed
        } else if index == 2 {
            pk.up.pressed
        } else if index == 3 {
            pk.down.pressed
        } else if index == 4 {
            pk.o.pressed
        } else if index == 5 {
            pk.x.pressed
        } else if index == 6 {
            pk.enter.pressed
        } else {
            pk.pause.pressed
        }
    }

    /// Engine-facing read: 1 when the slot's key is held, 0 otherwise.
    pub fn get_value_quick(&self, player: u8, index: u8) -> (r: u8)
        requires
            player < 2,
            index < 8,
        ensures
            r == 1 <==> self.player(player as int).slot(index as int).pressed,
            r == 0 <==> !self.player(player as int).slot(index as int).pressed,
    {
        if self.get_value(player, index) {
            1
        } else {
            0
        }
    }

    pub fn set_mouse_x(&mut self, x: i32)
        ensures
            *final(self) == (Players { mouse_x: x, ..*old(self) }),
    {
        self.mouse_x = x;
    }

    pub fn set_mouse_y(&mut self, y: i32)
        ensures
            *final(self) == (Players { mouse_y: y, ..*old(self) }),
    {
        self.mouse_y = y;
    }

    /// Store the mouse buttons as a bitmask (bit 0 left, bit 1 middle,
    /// bit 2 right).
    pub fn set_mouse_state(&mut self, buttons: u32)
        ensures
            *final(self) == (Players { mouse_buttons: buttons, ..*old(self) }),
    {
        self.mouse_buttons = buttons;
    }

    /// Advance auto-repeat for every held key of both players at session time
    /// `elapsed` milliseconds.
    pub fn update(&mut self, elapsed: u64)
        ensures
            *final(self) == old(self).spec_update(elapsed),
            old(self).wf() ==> final(self).wf(),
    {
        self.p0.tick_all(elapsed);
        self.p1.tick_all(elapsed);
    }
}

/// One press or release event on a single (player, key) pair.
pub enum KeyEvt {
    Down { repeat: bool, t: u64 },
    Up,
}

pub open spec fn apply_evt(s: KeyState, e: KeyEvt) -> KeyState {
    match e {
        KeyEvt::Down { repeat, t } => s.spec_down(repeat, t),
        KeyEvt::Up => s.spec_up(),
    }
}

pub open spec fn apply_evts(s: KeyState, evs: Seq<KeyEvt>) -> KeyState
    decreases evs.len(),
{
    if evs.len() == 0 {
        s
    } else {
        apply_evts(apply_evt(s, evs[0]), evs.drop_first())
    }
}

/// After any sequence of press/release events on one (player, key), the key
/// reads as held exactly when the most recent event was a press: this is what
/// `get_value_quick` returning 1 means.
pub proof fn lemma_pressed_iff_last_down(s: KeyState, evs: Seq<KeyEvt>)
    requires
        evs.len() > 0,
    ensures
        apply_evts(s, evs).pressed <==> (evs.last() is Down),
    decreases evs.len(),
{
    if evs.len() == 1 {
        assert(apply_evts(apply_evt(s, evs[0]), evs.drop_first()) == apply_evt(s, evs[0]));
        assert(evs.last() == evs[0]);
    } else {
        lemma_pressed_iff_last_down(apply_evt(s, evs[0]), evs.drop_first());
        assert(evs.drop_first().last() == evs.last());
    }
}

/// Debounce: a second non-repeat press of a key, at any later time, leaves the
/// state exactly as the first press did.
pub proof fn lemma_key_down_debounce(s: KeyState, t1: u64, t2: u64)
    ensures
        s.spec_down(false, t1).spec_down(false, t2) == s.spec_down(false, t1),
{
}

/// Releasing an already-released key changes nothing.
pub proof fn lemma_key_up_idempotent(s: KeyState)
    ensures
        s.spec_up().spec_up() == s.spec_up(),
{
}

/// A press or release edge changes exactly the addressed (player, key)
/// entry, and leaves every other entry and the mouse untouched: with
/// `lemma_pressed_iff_last_down`, the slot a key feeds reads 1 exactly when
/// that key's own most recent event was a press.
pub proof fn lemma_key_event_frame(ps: Players, p: int, key: PX8Key, repeat: bool, now: u64)
    requires
        0 <= p < 2,
    ensures
        ps.spec_key_down(p, key, repeat, now).player(p).key(key) == ps.player(p).key(
            key,
        ).spec_down(repeat, now),
        ps.spec_key_up(p, key).player(p).key(key) == ps.player(p).key(key).spec_up(),
        forall|q: int, i: int|
            0 <= q < 2 && 0 <= i < 8 && !(q == p && i == slot_of(key)) ==> ps.spec_key_down(
                p,
                key,
                repeat,
                now,
            ).player(q).slot(i) == ps.player(q).slot(i) && ps.spec_key_up(p, key).player(q).slot(
                i,
            ) == ps.player(q).slot(i),
        ps.spec_key_down(p, key, repeat, now).mouse_x == ps.mouse_x,
        ps.spec_key_down(p, key, repeat, now).mouse_y == ps.mouse_y,
        ps.spec_key_down(p, key, repeat, now).mouse_buttons == ps.mouse_buttons,
{
}

/// The two debounce/idempotence laws lifted to the whole input surface.
pub proof fn lemma_players_debounce(ps: Players, p: int, key: PX8Key, t1: u64, t2: u64)
    requires
        0 <= p < 2,
    ensures
        ps.spec_key_down(p, key, false, t1).spec_key_down(p, key, false, t2) == ps.spec_key_down(
            p,
            key,
            false,
            t1,
        ),
        ps.spec_key_up(p, key).spec_key_up(p, key) == ps.spec_key_up(p, key),
{
}

} // verus!
