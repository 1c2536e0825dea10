//! Player controllers: a capability interface over key queries, a gamepad
//! controller holding sampled key state, and an aggregate controller that
//! combines an ordered collection of controllers by bitwise OR.

use vstd::prelude::*;

use crate::keys::{
    key_bit, KeyState, KEY_DOWN, KEY_ENTER, KEY_ESCAPE, KEY_INVENTORY, KEY_JUMP, KEY_LEFT,
    KEY_MAP, KEY_NEXT_WEAPON, KEY_PREV_WEAPON, KEY_RIGHT, KEY_SHOOT, KEY_SKIP, KEY_STRAFE,
    KEY_UP,
};

verus! {

/// All key bits a controller maintains.
pub const KEYS_HELD: u16 = 0x3fff;

/// Key bits copied verbatim from a fresh input sample (all but the derived
/// enter bit).
pub const KEYS_COPIED: u16 = 0x37ff;

/// The key state that results from applying a fresh input sample `input` over
/// the previous packed state `prev`: every key bit is taken from the sample,
/// except that the enter bit mirrors the jump bit, and bits outside the key
/// range are kept.
pub open spec fn updated_keys(prev: u16, input: u16) -> u16 {
    (prev & !KEYS_HELD) | (input & KEYS_COPIED) | (if key_bit(input, KEY_JUMP) {
        KEY_ENTER
    } else {
        0u16
    })
}

/// Capability interface of a player controller.  The abstract view is the
/// triple of packed key bits: (currently held, previously held, newly
/// triggered).  Every boolean query is a bit test on that view.
pub trait PlayerController: Sized {
    /// (current key bits, previous key bits, trigger-edge bits)
    spec fn ctrl_state(&self) -> (u16, u16, u16);

    /// The view this controller will have after applying the fresh input
    /// sample `input`.
    spec fn after_update(&self, input: KeyState) -> (u16, u16, u16);

    /// The view this controller will have after its state is overwritten
    /// with `state`.
    spec fn after_set(&self, state: (u16, u16, u16)) -> (u16, u16, u16);

    /// Applies a freshly sampled key state.  Does not touch the previous or
    /// trigger bits.
    fn update(&mut self, input: KeyState)
        ensures
            final(self).ctrl_state() == old(self).after_update(input),
            final(self).ctrl_state().1 == old(self).ctrl_state().1,
            final(self).ctrl_state().2 == old(self).ctrl_state().2,
    ;

    /// Latches the edges between the previous and current key bits: after the
    /// call the previous bits equal the current ones and every trigger bit is
    /// a currently held key.
    fn update_trigger(&mut self)
        ensures
            final(self).ctrl_state().0 == old(self).ctrl_state().0,
            final(self).ctrl_state().1 == old(self).ctrl_state().0,
            final(self).ctrl_state().2 & final(self).ctrl_state().0 == final(self).ctrl_state().2,
    ;

    fn move_up(&self) -> (r: bool)
        ensures
            r == key_bit(self.ctrl_state().0, KEY_UP),
    ;

    fn move_down(&self) -> (r: bool)
        ensures
            r == key_bit(self.ctrl_state().0, KEY_DOWN),
    ;

    fn move_left(&self) -> (r: bool)
        ensures
            r == key_bit(self.ctrl_state().0, KEY_LEFT),
    ;

    fn move_right(&self) -> (r: bool)
        ensures
            r == key_bit(self.ctrl_state().0, KEY_RIGHT),
    ;

    fn prev_weapon(&self) -> (r: bool)
        ensures
            r == key_bit(self.ctrl_state().0, KEY_PREV_WEAPON),
    ;

    fn next_weapon(&self) -> (r: bool)
        ensures
            r == key_bit(self.ctrl_state().0, KEY_NEXT_WEAPON),
    ;

    fn shoot(&self) -> (r: bool)
        ensures
            r == key_bit(self.ctrl_state().0, KEY_SHOOT),
    ;

    fn jump(&self) -> (r: bool)
        ensures
            r == key_bit(self.ctrl_state().0, KEY_JUMP),
    ;

    fn map(&self) -> (r: bool)
        ensures
            r == key_bit(self.ctrl_state().0, KEY_MAP),
    ;

    fn inventory(&self) -> (r: bool)
        ensures
            r == key_bit(self.ctrl_state().0, KEY_INVENTORY),
    ;

    fn skip(&self) -> (r: bool)
        ensures
            r == key_bit(self.ctrl_state().0, KEY_SKIP),
    ;

    fn strafe(&self) -> (r: bool)
        ensures
            r == key_bit(self.ctrl_state().0, KEY_STRAFE),
    ;

    fn trigger_up(&self) -> (r: bool)
        ensures
            r == key_bit(self.ctrl_state().2, KEY_UP),
    ;

    fn trigger_down(&self) -> (r: bool)
        ensures
            r == key_bit(self.ctrl_state().2, KEY_DOWN),
    ;

    fn trigger_left(&self) -> (r: bool)
        ensures
            r == key_bit(self.ctrl_state().2, KEY_LEFT),
    ;

    fn trigger_right(&self) -> (r: bool)
        ensures
            r == key_bit(self.ctrl_state().2, KEY_RIGHT),
    ;

    fn trigger_prev_weapon(&self) -> (r: bool)
        ensures
            r == key_bit(self.ctrl_state().2, KEY_PREV_WEAPON),
    ;

    fn trigger_next_weapon(&self) -> (r: bool)
        ensures
            r == key_bit(self.ctrl_state().2, KEY_NEXT_WEAPON),
    ;

    fn trigger_shoot(&self) -> (r: bool)
        ensures
            r == key_bit(self.ctrl_state().2, KEY_SHOOT),
    ;

    fn trigger_jump(&self) -> (r: bool)
        ensures
            r == key_bit(self.ctrl_state().2, KEY_JUMP),
    ;

    fn trigger_map(&self) -> (r: bool)
        ensures
            r == key_bit(self.ctrl_state().2, KEY_MAP),
    ;

    fn trigger_inventory(&self) -> (r: bool)
        ensures
            r == key_bit(self.ctrl_state().2, KEY_INVENTORY),
    ;

    fn trigger_skip(&self) -> (r: bool)
        ensures
            r == key_bit(self.ctrl_state().2, KEY_SKIP),
    ;

    fn trigger_strafe(&self) -> (r: bool)
        ensures
            r == key_bit(self.ctrl_state().2, KEY_STRAFE),
    ;

    fn trigger_menu_ok(&self) -> (r: bool)
        ensures
            r == key_bit(self.ctrl_state().2, KEY_JUMP | KEY_ENTER),
    ;

    fn trigger_menu_back(&self) -> (r: bool)
        ensures
            r == key_bit(self.ctrl_state().2, KEY_SHOOT | KEY_ESCAPE),
    ;

    fn trigger_menu_pause(&self) -> (r: bool)
        ensures
            r == key_bit(self.ctrl_state().2, KEY_ESCAPE),
    ;

    fn look_up(&self) -> (r: bool)
        ensures
            r == key_bit(self.ctrl_state().0, KEY_UP),
    ;

    fn look_down(&self) -> (r: bool)
        ensures
            r == key_bit(self.ctrl_state().0, KEY_DOWN),
    ;

    fn look_left(&self) -> (r: bool)
        ensures
            r == key_bit(self.ctrl_state().0, KEY_LEFT),
    ;

    fn look_right(&self) -> (r: bool)
        ensures
            r == key_bit(self.ctrl_state().0, KEY_RIGHT),
    ;

    fn dump_state(&self) -> (r: (u16, u16, u16))
        ensures
            r == self.ctrl_state(),
    ;

    fn set_state(&mut self, state: (u16, u16, u16))
        ensures
            final(self).ctrl_state() == old(self).after_set(state),
    ;
}

/// Which player a gamepad feeds.
#[derive(Clone, Copy, PartialEq, Eq, Structural)]
pub enum TargetPlayer {
    Player1,
    Player2,
}

/// A controller fed by one physical gamepad.
#[derive(Clone, Copy)]
pub struct GamepadController {
    gamepad_id: u32,
    target: TargetPlayer,
    state: KeyState,
    old_state: KeyState,
    trigger: KeyState,
}

impl GamepadController {
    pub fn new(gamepad_id: u32, target: TargetPlayer) -> (r: GamepadController)
        ensures
            r.ctrl_state() == (0u16, 0u16, 0u16),
    {
        GamepadController {
            gamepad_id,
            target,
            state: KeyState(0),
            old_state: KeyState(0),
            trigger: KeyState(0),
        }
    }
}

impl PlayerController for GamepadController {
    closed spec fn ctrl_state(&self) -> (u16, u16, u16) {
        (self.state.0, self.old_state.0, self.trigger.0)
    }

    closed spec fn after_update(&self, input: KeyState) -> (u16, u16, u16) {
        (updated_keys(self.state.0, input.0), self.old_state.0, self.trigger.0)
    }

    closed spec fn after_set(&self, state: (u16, u16, u16)) -> (u16, u16, u16) {
        state
    }

    fn update(&mut self, input: KeyState)
        ensures
            final(self).ctrl_state().0 == updated_keys(old(self).ctrl_state().0, input.0),
    {
        let mut bits: u16 = self.state.0 & !KEYS_HELD;
        bits = bits | (input.0 & KEYS_COPIED);
        let enter_bit: u16 = if input.jump() {
            KEY_ENTER
        } else {
            0
        };
        bits = bits | enter_bit;
        self.state = KeyState(bits);
    }

    fn update_trigger(&mut self)
        ensures
            final(self).ctrl_state().2 == (old(self).ctrl_state().0 ^ old(self).ctrl_state().1)
                & old(self).ctrl_state().0,
    {
        let mut trigger: u16 = self.state.0 ^ self.old_state.0;
        trigger = trigger & self.state.0;
        self.old_state = self.state;
        self.trigger = KeyState(trigger);
        proof {
            let s = self.state.0;
            let o = old(self).old_state.0;
            assert((((s ^ o) & s) & s) == ((s ^ o) & s)) by (bit_vector);
        }
    }

    fn move_up(&self) -> (r: bool) {
        self.state.up()
    }

    fn move_down(&self) -> (r: bool) {
        self.state.down()
    }

    fn move_left(&self) -> (r: bool) {
        self.state.left()
    }

    fn move_right(&self) -> (r: bool) {
        self.state.right()
    }

    fn prev_weapon(&self) -> (r: bool) {
        self.state.prev_weapon()
    }

    fn next_weapon(&self) -> (r: bool) {
        self.state.next_weapon()
    }

    fn shoot(&self) -> (r: bool) {
        self.state.shoot()
    }

    fn jump(&self) -> (r: bool) {
        self.state.jump()
    }

    fn map(&self) -> (r: bool) {
        self.state.map()
    }

    fn inventory(&self) -> (r: bool) {
        self.state.inventory()
    }

    fn skip(&self) -> (r: bool) {
        self.state.skip()
    }

    fn strafe(&self) -> (r: bool) {
        self.state.strafe()
    }

    fn trigger_up(&self) -> (r: bool) {
        self.trigger.up()
    }

    fn trigger_down(&self) -> (r: bool) {
        self.trigger.down()
    }

    fn trigger_left(&self) -> (r: bool) {
        self.trigger.left()
    }

    fn trigger_right(&self) -> (r: bool) {
        self.trigger.right()
    }

    fn trigger_prev_weapon(&self) -> (r: bool) {
        self.trigger.prev_weapon()
    }

    fn trigger_next_weapon(&self) -> (r: bool) {
        self.trigger.next_weapon()
    }

    fn trigger_shoot(&self) -> (r: bool) {
        self.trigger.shoot()
    }

    fn trigger_jump(&self) -> (r: bool) {
        self.trigger.jump()
    }

    fn trigger_map(&self) -> (r: bool) {
        self.trigger.map()
    }

    fn trigger_inventory(&self) -> (r: bool) {
        self.trigger.inventory()
    }

    fn trigger_skip(&self) -> (r: bool) {
        self.trigger.skip()
    }

    fn trigger_strafe(&self) -> (r: bool) {
        self.trigger.strafe()
    }

    fn trigger_menu_ok(&self) -> (r: bool) {
        proof {
            lemma_or_bit_split(self.trigger.0, KEY_JUMP, KEY_ENTER);
        }
        self.trigger.jump() || self.trigger.enter()
    }

    fn trigger_menu_back(&self) -> (r: bool) {
        proof {
            lemma_or_bit_split(self.trigger.0, KEY_SHOOT, KEY_ESCAPE);
        }
        self.trigger.shoot() || self.trigger.escape()
    }

    fn trigger_menu_pause(&self) -> (r: bool) {
        self.trigger.escape()
    }

    fn look_up(&self) -> (r: bool) {
        self.state.up()
    }

    fn look_down(&self) -> (r: bool) {
        self.state.down()
    }

    fn look_left(&self) -> (r: bool) {
        self.state.left()
    }

    fn look_right(&self) -> (r: bool) {
        self.state.right()
    }

    fn dump_state(&self) -> (r: (u16, u16, u16)) {
        (self.state.0, self.old_state.0, self.trigger.0)
    }

    fn set_state(&mut self, state: (u16, u16, u16))
        ensures
            final(self).ctrl_state() == state,
    {
        self.state = KeyState(state.0);
        self.old_state = KeyState(state.1);
        self.trigger = KeyState(state.2);
    }
}

/// A key selected by `m` is set in `t` under the combined mask `a | b`
/// exactly when it is set under `a` or under `b`.
proof fn lemma_or_bit_split(t: u16, a: u16, b: u16)
    ensures
        key_bit(t, a | b) == (key_bit(t, a) || key_bit(t, b)),
{
    assert((t & (a | b) != 0) == ((t & a != 0) || (t & b != 0))) by (bit_vector);
}

} // verus!
