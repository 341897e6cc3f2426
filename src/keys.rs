//! Manual control: which direction keys are held, and the movement they ask for.
use vstd::prelude::*;
use crate::movement::Movement;

verus! {

/// The direction keys currently held down.
pub struct KeyState {
    pub w: bool,
    pub a: bool,
    pub s: bool,
    pub d: bool,
}

impl Default for KeyState {
    fn default() -> (r: KeyState)
        ensures
            !r.w && !r.a && !r.s && !r.d,
    {
        KeyState { w: false, a: false, s: false, d: false }
    }
}

impl KeyState {
    /// The movement asked for by the held keys: the first held key of
    /// w, a, s, d decides; with none held the robot stops.
    pub open spec fn wanted(self) -> Movement {
        if self.w {
            Movement::full(true, true)
        } else if self.a {
            Movement::full(false, true)
        } else if self.s {
            Movement::full(false, false)
        } else if self.d {
            Movement::full(true, false)
        } else {
            Movement::stopped()
        }
    }

    /// Whether no direction key is held.
    pub fn has_none(&self) -> (r: bool)
        ensures
            r == !(self.w || self.a || self.s || self.d),
    {
        !(self.w || self.a || self.s || self.d)
    }

    /// Records that `key` went down (`pressed`) or up. Keys other than
    /// w, a, s and d leave the state as it is.
    pub fn apply(&mut self, key: char, pressed: bool)
        ensures
            final(self).w == (if key == 'w' { pressed } else { old(self).w }),
            final(self).a == (if key == 'a' { pressed } else { old(self).a }),
            final(self).s == (if key == 's' { pressed } else { old(self).s }),
            final(self).d == (if key == 'd' { pressed } else { old(self).d }),
    {
        if key == 'w' {
            self.w = pressed;
        } else if key == 'a' {
            self.a = pressed;
        } else if key == 's' {
            self.s = pressed;
        } else if key == 'd' {
            self.d = pressed;
        }
    }

    /// The movement to send on the next control cycle.
    pub fn movement(&self) -> (r: Movement)
        ensures
            r == self.wanted(),
            self.has_none_spec() ==> r == Movement::stopped(),
    {
        if self.w {
            Movement::forward()
        } else if self.a {
            Movement::spin_ccw()
        } else if self.s {
            Movement::backward()
        } else if self.d {
            Movement::spin_cw()
        } else {
            Movement::none()
        }
    }

    /// No direction key is held.
    pub open spec fn has_none_spec(self) -> bool {
        !(self.w || self.a || self.s || self.d)
    }
}

} // verus!
