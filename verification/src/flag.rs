//! The flag store and its three operations.

use vstd::prelude::*;

verus! {

/// A store that owns a single boolean flag.
///
/// The flag is created `false` and from then on changes only through
/// [`Deploycash::toggle`]. Every boolean is a valid state, so the type carries
/// no further invariant.
pub struct Deploycash {
    value: bool,
}

impl View for Deploycash {
    type V = bool;

    /// The abstract state of the store: the boolean it currently holds.
    closed spec fn view(&self) -> bool {
        self.value
    }
}

impl Deploycash {
    /// Creates a store whose flag is `false`.
    pub fn new() -> (store: Self)
        ensures
            store@ == false,
    {
        Self { value: false }
    }

    /// Returns the flag's current value and leaves the store as it is.
    pub fn get(&self) -> (value: bool)
        ensures
            value == self@,
    {
        self.value
    }

    /// Flips the flag: `true` becomes `false` and `false` becomes `true`.
    pub fn toggle(&mut self)
        ensures
            final(self)@ == !old(self)@,
    {
        self.value = !self.value;
    }
}

} // verus!
