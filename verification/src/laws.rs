//! Laws that follow from the contracts of the flag store.
//!
//! Each law is stated over the abstract state (`@`) that the operations'
//! postconditions speak of. A state that results from a toggle is described
//! the way [`Deploycash::toggle`] describes it: its view is the negation of
//! the view before.

use vstd::prelude::*;
use crate::flag::Deploycash;

verus! {

/// A toggle never leaves the flag as it was: the state after it differs from
/// the state before it.
pub proof fn lemma_toggle_changes_value(before: Deploycash, after: Deploycash)
    requires
        after@ == !before@,
    ensures
        after@ != before@,
{
}

/// Two toggles in a row cancel out: if `once` is `start` after one toggle and
/// `twice` is `once` after another, then `twice` holds what `start` held.
pub proof fn lemma_double_toggle_restores(start: Deploycash, once: Deploycash, twice: Deploycash)
    requires
        once@ == !start@,
        twice@ == !once@,
    ensures
        twice@ == start@,
{
}

} // verus!
