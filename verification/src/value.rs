//! Change-tracked scalar UI state: a stored value plus a dirty flag
//! that tells the caller whether the value still has to be
//! retransmitted to the device.

use vstd::prelude::*;

verus! {

/// A value with a dirty flag. Setting an equal value leaves the flag
/// alone, so replaying the current state is idempotent; bounded
/// increment and decrement clamp and raise the flag only on an actual
/// change.
pub struct Value<T> {
    val: T,
    dirty: bool,
}

impl<T> Value<T> {
    /// The stored value.
    pub closed spec fn value(self) -> T {
        self.val
    }

    /// Whether the value still awaits retransmission.
    pub closed spec fn dirty(self) -> bool {
        self.dirty
    }

    pub fn new(val: T) -> (v: Value<T>)
        ensures
            v.value() == val,
            !v.dirty(),
    {
        Value { val, dirty: false }
    }

    /// Raise the dirty flag without altering the value; used to force
    /// retransmission after a reconnect.
    pub fn set_changed(&mut self)
        ensures
            final(self).value() == old(self).value(),
            final(self).dirty(),
    {
        self.dirty = true;
    }

    /// Report and clear the dirty flag: the caller is about to
    /// retransmit the value.
    pub fn changed(&mut self) -> (r: bool)
        ensures
            r == old(self).dirty(),
            final(self).value() == old(self).value(),
            !final(self).dirty(),
    {
        let r = self.dirty;
        self.dirty = false;
        r
    }
}

impl<T: Copy> Value<T> {
    /// The current value; reading never clears the dirty flag.
    pub fn get(&self) -> (r: T)
        ensures
            r == self.value(),
    {
        self.val
    }
}

impl Value<u8> {
    /// Store `val`; the dirty flag rises only if the value actually
    /// changed.
    pub fn set(&mut self, val: u8)
        ensures
            final(self).value() == val,
            final(self).dirty() == (old(self).dirty() || val != old(self).value()),
    {
        if self.val != val {
            self.dirty = true;
        }
        self.val = val;
    }

    /// Add `delta`, clamped from above by `max`; the dirty flag rises
    /// only on an actual change.
    pub fn add(&mut self, delta: u8, max: u8)
        ensures
            final(self).value() == (if old(self).value() + delta > max {
                max
            } else {
                (old(self).value() + delta) as u8
            }),
            final(self).dirty() == (old(self).dirty() || final(self).value() != old(
                self,
            ).value()),
    {
        let sum: u16 = self.val as u16 + delta as u16;
        let new_val: u8 = if sum > max as u16 {
            max
        } else {
            sum as u8
        };
        self.set(new_val);
    }

    /// Subtract `delta`, clamped from below by `min`; the dirty flag
    /// rises only on an actual change.
    pub fn sub(&mut self, delta: u8, min: u8)
        ensures
            final(self).value() == (if old(self).value() - delta < min {
                min
            } else {
                (old(self).value() - delta) as u8
            }),
            final(self).dirty() == (old(self).dirty() || final(self).value() != old(
                self,
            ).value()),
    {
        let new_val: u8 = if self.val <= delta || self.val - delta < min {
            min
        } else {
            self.val - delta
        };
        self.set(new_val);
    }
}

impl Value<bool> {
    /// Store `val`; the dirty flag rises only if the value actually
    /// changed.
    pub fn set(&mut self, val: bool)
        ensures
            final(self).value() == val,
            final(self).dirty() == (old(self).dirty() || val != old(self).value()),
    {
        if self.val != val {
            self.dirty = true;
        }
        self.val = val;
    }
}

} // verus!
