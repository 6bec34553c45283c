//! The laws of the mutable-borrow window, stated over the cell's model.
//!
//! The count transitions themselves are pinned down by the contracts of
//! `RcBorrowMut::try_borrow_mut`, `BorrowRefMut::deref_mut` and
//! `BorrowRefMut::release`; the lemmas here state what those states mean to a
//! weak reference's upgrade attempt.

use crate::rc_box::RcBox;
use vstd::prelude::*;

verus! {

/// While a mutable-borrow window is open, an upgrade attempt by a weak
/// reference fails.
///
/// `try_borrow_mut` leaves the cell with `is_mut_borrowed()`, and
/// `deref_mut` preserves that state whatever the caller writes through the
/// returned reference, so this law holds at every point of the window,
/// regardless of mutations performed through the handle in the meantime.
pub proof fn lemma_open_window_suppresses_upgrade<T>(b: RcBox<T>)
    requires
        b.is_mut_borrowed(),
    ensures
        !b.upgrade_succeeds(),
{
}

/// Once the strong count is back to at least one, an upgrade attempt by a
/// weak reference succeeds again.
///
/// `release` leaves the cell with a strong count of one and the pointee it
/// held at release time, so after the window closes an upgrade succeeds and
/// `value` then yields the mutated pointee.
pub proof fn lemma_restored_block_admits_upgrade<T>(b: RcBox<T>)
    requires
        b.is_live(),
    ensures
        b.upgrade_succeeds(),
{
}

} // verus!
