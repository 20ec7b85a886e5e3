use vstd::prelude::*;

verus! {

/// Sentinel stored while the lock is free.
pub const UNLOCKED: u8 = 0;

/// Sentinel stored while the lock is held.
pub const LOCKED: u8 = 1;

/// Model of the one-word cell at the heart of the lock.
///
/// At build time the widest-to-narrowest probe picks whichever integer
/// width the target supports for atomic load/store; every call site is
/// width-agnostic and sees only the two sentinels. The model therefore
/// keeps the narrowest width, with `UNLOCKED`/`LOCKED` as the matching
/// sentinel constants, and restricts the cell to those two values.
#[derive(Debug)]
pub struct Flag {
    value: u8,
}

impl Flag {
    /// The sentinel currently stored in the cell.
    pub closed spec fn spec_value(&self) -> u8 {
        self.value
    }

    /// The cell only ever holds one of the two sentinels.
    pub open spec fn wf(&self) -> bool {
        self.spec_value() == UNLOCKED || self.spec_value() == LOCKED
    }

    /// Whether the cell currently reads as held.
    pub open spec fn is_locked(&self) -> bool {
        self.spec_value() == LOCKED
    }

    /// A fresh cell holding the given sentinel.
    pub fn new(value: u8) -> (r: Flag)
        requires
            value == UNLOCKED || value == LOCKED,
        ensures
            r.wf(),
            r.spec_value() == value,
    {
        Flag { value }
    }

    /// One compare-and-swap: the cell takes `new` exactly when it held
    /// `expected`, and the return value reports which case occurred. A
    /// failed swap leaves the cell untouched (the acquire ordering on the
    /// failure path of the underlying atomic only affects visibility, not
    /// the value).
    pub fn compare_and_set(&mut self, expected: u8, new: u8) -> (r: bool)
        requires
            old(self).wf(),
            new == UNLOCKED || new == LOCKED,
        ensures
            final(self).wf(),
            r == (old(self).spec_value() == expected),
            r ==> final(self).spec_value() == new,
            !r ==> *final(self) == *old(self),
    {
        if self.value == expected {
            self.value = new;
            true
        } else {
            false
        }
    }

    /// Unconditional store, used only by the owner of the lock to clear
    /// the flag on release. The caller must in fact hold the lock: a
    /// prior value other than `LOCKED` aborts checked builds and is
    /// undefined in optimized ones, so the precondition excludes it.
    pub fn force_set(&mut self, value: u8)
        requires
            old(self).wf(),
            old(self).is_locked(),
            value == UNLOCKED || value == LOCKED,
        ensures
            final(self).wf(),
            final(self).spec_value() == value,
    {
        self.value = value;
    }
}

} // verus!
