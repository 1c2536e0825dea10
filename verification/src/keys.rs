//! Key state bit sets shared by all player controllers.

use vstd::prelude::*;

verus! {

pub const KEY_UP: u16 = 0x0001;
pub const KEY_DOWN: u16 = 0x0002;
pub const KEY_LEFT: u16 = 0x0004;
pub const KEY_RIGHT: u16 = 0x0008;
pub const KEY_MAP: u16 = 0x0010;
pub const KEY_INVENTORY: u16 = 0x0020;
pub const KEY_JUMP: u16 = 0x0040;
pub const KEY_SHOOT: u16 = 0x0080;
pub const KEY_NEXT_WEAPON: u16 = 0x0100;
pub const KEY_PREV_WEAPON: u16 = 0x0200;
pub const KEY_ESCAPE: u16 = 0x0400;
pub const KEY_ENTER: u16 = 0x0800;
pub const KEY_SKIP: u16 = 0x1000;
pub const KEY_STRAFE: u16 = 0x2000;

/// Whether the key selected by `mask` is pressed in the packed state `bits`.
pub open spec fn key_bit(bits: u16, mask: u16) -> bool {
    bits & mask != 0
}

/// A packed set of pressed keys, one bit per key.
#[derive(Clone, Copy, PartialEq, Eq, Structural)]
pub struct KeyState(pub u16);

impl KeyState {
    pub fn new() -> (r: KeyState)
        ensures
            r.0 == 0,
    {
        KeyState(0)
    }

    fn get(&self, mask: u16) -> (r: bool)
        ensures
            r == key_bit(self.0, mask),
    {
        self.0 & mask != 0
    }

    fn set(&mut self, mask: u16, value: bool)
        ensures
            final(self).0 == (if value {
                old(self).0 | mask
            } else {
                old(self).0 & !mask
            }),
    {
        if value {
            self.0 = self.0 | mask;
        } else {
            self.0 = self.0 & !mask;
        }
    }

    pub fn up(&self) -> (r: bool)
        ensures
            r == key_bit(self.0, KEY_UP),
    {
        self.get(KEY_UP)
    }

    pub fn down(&self) -> (r: bool)
        ensures
            r == key_bit(self.0, KEY_DOWN),
    {
        self.get(KEY_DOWN)
    }

    pub fn left(&self) -> (r: bool)
        ensures
            r == key_bit(self.0, KEY_LEFT),
    {
        self.get(KEY_LEFT)
    }

    pub fn right(&self) -> (r: bool)
        ensures
            r == key_bit(self.0, KEY_RIGHT),
    {
        self.get(KEY_RIGHT)
    }

    pub fn map(&self) -> (r: bool)
        ensures
            r == key_bit(self.0, KEY_MAP),
    {
        self.get(KEY_MAP)
    }

    pub fn inventory(&self) -> (r: bool)
        ensures
            r == key_bit(self.0, KEY_INVENTORY),
    {
        self.get(KEY_INVENTORY)
    }

    pub fn jump(&self) -> (r: bool)
        ensures
            r == key_bit(self.0, KEY_JUMP),
    {
        self.get(KEY_JUMP)
    }

    pub fn shoot(&self) -> (r: bool)
        ensures
            r == key_bit(self.0, KEY_SHOOT),
    {
        self.get(KEY_SHOOT)
    }

    pub fn next_weapon(&self) -> (r: bool)
        ensures
            r == key_bit(self.0, KEY_NEXT_WEAPON),
    {
        self.get(KEY_NEXT_WEAPON)
    }

    pub fn prev_weapon(&self) -> (r: bool)
        ensures
            r == key_bit(self.0, KEY_PREV_WEAPON),
    {
        self.get(KEY_PREV_WEAPON)
    }

    pub fn escape(&self) -> (r: bool)
        ensures
            r == key_bit(self.0, KEY_ESCAPE),
    {
        self.get(KEY_ESCAPE)
    }

    pub fn enter(&self) -> (r: bool)
        ensures
            r == key_bit(self.0, KEY_ENTER),
    {
        self.get(KEY_ENTER)
    }

    pub fn skip(&self) -> (r: bool)
        ensures
            r == key_bit(self.0, KEY_SKIP),
    {
        self.get(KEY_SKIP)
    }

    pub fn strafe(&self) -> (r: bool)
        ensures
            r == key_bit(self.0, KEY_STRAFE),
    {
        self.get(KEY_STRAFE)
    }

    pub fn set_up(&mut self, value: bool)
        ensures
            final(self).0 == (if value {
                old(self).0 | KEY_UP
            } else {
                old(self).0 & !KEY_UP
            }),
    {
        self.set(KEY_UP, value)
    }

    pub fn set_down(&mut self, value: bool)
        ensures
            final(self).0 == (if value {
                old(self).0 | KEY_DOWN
            } else {
                old(self).0 & !KEY_DOWN
            }),
    {
        self.set(KEY_DOWN, value)
    }

    pub fn set_left(&mut self, value: bool)
        ensures
            final(self).0 == (if value {
                old(self).0 | KEY_LEFT
            } else {
                old(self).0 & !KEY_LEFT
            }),
    {
        self.set(KEY_LEFT, value)
    }

    pub fn set_right(&mut self, value: bool)
        ensures
            final(self).0 == (if value {
                old(self).0 | KEY_RIGHT
            } else {
                old(self).0 & !KEY_RIGHT
            }),
    {
        self.set(KEY_RIGHT, value)
    }

    pub fn set_map(&mut self, value: bool)
        ensures
            final(self).0 == (if value {
                old(self).0 | KEY_MAP
            } else {
                old(self).0 & !KEY_MAP
            }),
    {
        self.set(KEY_MAP, value)
    }

    pub fn set_inventory(&mut self, value: bool)
        ensures
            final(self).0 == (if value {
                old(self).0 | KEY_INVENTORY
            } else {
                old(self).0 & !KEY_INVENTORY
            }),
    {
        self.set(KEY_INVENTORY, value)
    }

    pub fn set_jump(&mut self, value: bool)
        ensures
            final(self).0 == (if value {
                old(self).0 | KEY_JUMP
            } else {
                old(self).0 & !KEY_JUMP
            }),
    {
        self.set(KEY_JUMP, value)
    }

    pub fn set_shoot(&mut self, value: bool)
        ensures
            final(self).0 == (if value {
                old(self).0 | KEY_SHOOT
            } else {
                old(self).0 & !KEY_SHOOT
            }),
    {
        self.set(KEY_SHOOT, value)
    }

    pub fn set_next_weapon(&mut self, value: bool)
        ensures
            final(self).0 == (if value {
                old(self).0 | KEY_NEXT_WEAPON
            } else {
                old(self).0 & !KEY_NEXT_WEAPON
            }),
    {
        self.set(KEY_NEXT_WEAPON, value)
    }

    pub fn set_prev_weapon(&mut self, value: bool)
        ensures
            final(self).0 == (if value {
                old(self).0 | KEY_PREV_WEAPON
            } else {
                old(self).0 & !KEY_PREV_WEAPON
            }),
    {
        self.set(KEY_PREV_WEAPON, value)
    }

    pub fn set_escape(&mut self, value: bool)
        ensures
            final(self).0 == (if value {
                old(self).0 | KEY_ESCAPE
            } else {
                old(self).0 & !KEY_ESCAPE
            }),
    {
        self.set(KEY_ESCAPE, value)
    }

    pub fn set_enter(&mut self, value: bool)
        ensures
            final(self).0 == (if value {
                old(self).0 | KEY_ENTER
            } else {
                old(self).0 & !KEY_ENTER
            }),
    {
        self.set(KEY_ENTER, value)
    }

    pub fn set_skip(&mut self, value: bool)
        ensures
            final(self).0 == (if value {
                old(self).0 | KEY_SKIP
            } else {
                old(self).0 & !KEY_SKIP
            }),
    {
        self.set(KEY_SKIP, value)
    }

    pub fn set_strafe(&mut self, value: bool)
        ensures
            final(self).0 == (if value {
                old(self).0 | KEY_STRAFE
            } else {
                old(self).0 & !KEY_STRAFE
            }),
    {
        self.set(KEY_STRAFE, value)
    }
}

} // verus!
