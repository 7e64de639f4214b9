//! Mouse buttons: the single-button vocabulary used in events, and the
//! set of currently held buttons kept as a bitmask.

use vstd::prelude::*;

verus! {

/// One mouse button, as reported by a press or release event.
#[derive(Copy, Clone, PartialEq, Eq, Structural, Debug)]
pub enum But {
    Left,
    Middle,
    Right,
}

/// The set of mouse buttons currently held down, kept as a bitmask.
#[derive(Copy, Clone, PartialEq, Eq, Structural, Debug, Hash)]
pub struct Buts {
    pub bits: u8,
}

pub const BUTS_LEFT: u8 = 0x01;

pub const BUTS_MIDDLE: u8 = 0x02;

pub const BUTS_RIGHT: u8 = 0x04;

pub const BUTS_MASK: u8 = 0x07;

/// The mask bit that stands for one button.
pub open spec fn but_bit(b: But) -> u8 {
    match b {
        But::Left => BUTS_LEFT,
        But::Middle => BUTS_MIDDLE,
        But::Right => BUTS_RIGHT,
    }
}

impl Buts {
    pub fn empty() -> (r: Buts)
        ensures
            r.bits == 0,
    {
        Buts { bits: 0 }
    }

    pub fn bit(b: But) -> (r: u8)
        ensures
            r == but_bit(b),
    {
        match b {
            But::Left => BUTS_LEFT,
            But::Middle => BUTS_MIDDLE,
            But::Right => BUTS_RIGHT,
        }
    }

    pub fn insert(&mut self, b: But)
        ensures
            final(self).bits == old(self).bits | but_bit(b),
    {
        self.bits = self.bits | Buts::bit(b);
    }

    pub fn remove(&mut self, b: But)
        ensures
            final(self).bits == old(self).bits & !but_bit(b),
    {
        self.bits = self.bits & !Buts::bit(b);
    }

    pub fn contains(&self, b: But) -> (r: bool)
        ensures
            r == (self.bits & but_bit(b) != 0),
    {
        self.bits & Buts::bit(b) != 0
    }
}

impl Default for Buts {
    fn default() -> (r: Buts)
        ensures
            r.bits == 0,
    {
        Buts { bits: 0 }
    }
}

} // verus!
