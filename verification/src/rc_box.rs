//! The reference-counted cell and its mutable-borrow capability.
//!
//! The cell owns a control block: a strong (owning) count, a weak (observing)
//! count, and the pointee. In the normal regime the strong count is at least
//! one. The borrow capability introduces one further regime: the strong count
//! is zero while the pointee is still alive and a single open [`BorrowRefMut`]
//! handle stands for the sole owner. A weak reference that consults the count
//! during that window sees zero and must fail to upgrade.

use vstd::pervasive::unreached;
use vstd::prelude::*;
use vstd::string::StringExecFns;

verus! {

/// The one reportable error of the capability: the eligibility check found
/// more than one strong owner, so a mutable borrow would be unsound. The cell
/// is left untouched.
#[derive(Debug)]
pub struct OtherStrongReferencesExist;

impl OtherStrongReferencesExist {
    /// A human-readable description of the error.
    pub fn message(&self) -> (r: String)
        ensures
            r@ == "Cannot borrow mutably, other strong references exist."@,
    {
        String::from_str("Cannot borrow mutably, other strong references exist.")
    }
}

/// A scoped handle standing for an open window of exclusive mutable access to
/// a cell's pointee.
///
/// While the handle exists, the cell it was opened on shows zero strong
/// owners, so weak upgrades fail. The handle is the sole witness that this is
/// a transient, legitimate state; [`BorrowRefMut::release`] consumes it and
/// restores the strong count to one. The handle is deliberately neither
/// copyable nor clonable: a duplicate would permit two independent restorers
/// of the strong count.
pub struct BorrowRefMut {
    window: (),
}

/// The mutable-borrow capability of a reference-counted cell: a temporary
/// exclusive mutable view into the pointee, available exactly when the caller
/// holds the only strong reference.
pub trait RcBorrowMut<T>: Sized {
    /// Strong-owner count of the cell's control block.
    spec fn strong_model(&self) -> nat;

    /// Weak-observer count of the cell's control block.
    spec fn weak_model(&self) -> nat;

    /// The pointee held by the cell.
    spec fn value_model(&self) -> T;

    /// Mutably borrows the contents of the cell.
    ///
    /// The convenience variant of [`RcBorrowMut::try_borrow_mut`] for callers
    /// that have already established sole ownership by construction: it
    /// demands eligibility up front instead of reporting the error.
    fn borrow_mut(me: &mut Self) -> (r: BorrowRefMut)
        requires
            old(me).strong_model() == 1,
        ensures
            final(me).strong_model() == 0,
            final(me).weak_model() == old(me).weak_model(),
            final(me).value_model() == old(me).value_model(),
    {
        match Self::try_borrow_mut(me) {
            Ok(handle) => handle,
            Err(_) => unreached(),
        }
    }

    /// Mutably borrows the contents of the cell.
    ///
    /// Succeeds, zeroing the strong count and opening the window, exactly when
    /// the argument is the only strong reference; fails with
    /// [`OtherStrongReferencesExist`], leaving the cell untouched, whenever
    /// other strong owners exist. A strong count of zero on entry would mean
    /// the pointee is already gone and is ruled out as a programming error.
    fn try_borrow_mut(me: &mut Self) -> (r: Result<BorrowRefMut, OtherStrongReferencesExist>)
        requires
            old(me).strong_model() >= 1,
        ensures
            r is Ok <==> old(me).strong_model() == 1,
            r is Ok ==> final(me).strong_model() == 0,
            r is Ok ==> final(me).weak_model() == old(me).weak_model(),
            r is Ok ==> final(me).value_model() == old(me).value_model(),
            r is Err ==> *final(me) == *old(me),
    ;
}

impl<T> RcBorrowMut<T> for RcBox<T> {
    open spec fn strong_model(&self) -> nat {
        self.strong_count_spec()
    }

    open spec fn weak_model(&self) -> nat {
        self.weak_count_spec()
    }

    open spec fn value_model(&self) -> T {
        self.value_spec()
    }

    fn try_borrow_mut(me: &mut Self) -> (r: Result<BorrowRefMut, OtherStrongReferencesExist>) {
        if me.strong_count() > 1 {
            return Err(OtherStrongReferencesExist);
        }
        me.strong = 0;
        Ok(BorrowRefMut { window: () })
    }
}

impl BorrowRefMut {
    /// Reads the pointee through the open window.
    pub fn deref<'a, T>(&self, me: &'a RcBox<T>) -> (r: &'a T)
        requires
            me.is_mut_borrowed(),
        ensures
            *r == me.value_spec(),
    {
        &me.value
    }

    /// Writes the pointee through the open window. The window stays open: the
    /// counts are untouched, and the cell's pointee is whatever the caller
    /// leaves behind the returned reference.
    pub fn deref_mut<'a, T>(&mut self, me: &'a mut RcBox<T>) -> (r: &'a mut T)
        requires
            old(me).is_mut_borrowed(),
        ensures
            *r == old(me).value_spec(),
            final(me).is_mut_borrowed(),
            final(me).weak_count_spec() == old(me).weak_count_spec(),
            final(me).value_spec() == *final(r),
    {
        &mut me.value
    }

    /// Closes the window: consumes the handle and restores the strong count to
    /// one, the count the sole owner had before the borrow. This is the only
    /// way a zeroed strong count returns to nonzero, and consuming the handle
    /// makes it happen exactly once per successful borrow.
    pub fn release<T>(self, me: &mut RcBox<T>)
        requires
            old(me).is_mut_borrowed(),
        ensures
            final(me).strong_count_spec() == 1,
            final(me).weak_count_spec() == old(me).weak_count_spec(),
            final(me).value_spec() == old(me).value_spec(),
    {
        me.strong = 1;
    }
}

/// A reference-counted cell: the control block holding the strong count, the
/// weak count, and the pointee.
///
/// `strong == 0` is only ever the transient state of an open mutable-borrow
/// window; every other operation keeps `strong >= 1` while the cell exists.
pub struct RcBox<T> {
    strong: usize,
    weak: usize,
    value: T,
}

impl<T> RcBox<T> {
    /// Number of strong (owning) references recorded in the control block.
    pub closed spec fn strong_count_spec(&self) -> nat {
        self.strong as nat
    }

    /// Number of weak (observing) references recorded in the control block.
    pub closed spec fn weak_count_spec(&self) -> nat {
        self.weak as nat
    }

    /// The pointee held by the control block.
    pub closed spec fn value_spec(&self) -> T {
        self.value
    }

    /// Normal regime: at least one strong owner.
    pub open spec fn is_live(&self) -> bool {
        self.strong_count_spec() >= 1
    }

    /// Transient regime: a mutable-borrow window is open, so the cell shows
    /// zero strong owners although the pointee is alive.
    pub open spec fn is_mut_borrowed(&self) -> bool {
        self.strong_count_spec() == 0
    }

    /// Whether an upgrade attempt by a weak reference succeeds: it consults
    /// the strong count and fails exactly when that count is zero.
    pub open spec fn upgrade_succeeds(&self) -> bool {
        self.strong_count_spec() >= 1
    }

    /// Allocates a fresh cell for `value`, owned by one strong reference.
    pub fn new(value: T) -> (r: Self)
        ensures
            r.strong_count_spec() == 1,
            r.weak_count_spec() == 0,
            r.value_spec() == value,
    {
        RcBox { strong: 1, weak: 0, value }
    }

    /// Reads the strong count.
    pub fn strong_count(&self) -> (r: usize)
        ensures
            r == self.strong_count_spec(),
    {
        self.strong
    }

    /// Reads the weak count.
    pub fn weak_count(&self) -> (r: usize)
        ensures
            r == self.weak_count_spec(),
    {
        self.weak
    }

    /// Records one more strong owner, as cloning a strong reference does.
    pub fn clone_strong(&mut self)
        requires
            old(self).is_live(),
            old(self).strong_count_spec() < usize::MAX,
        ensures
            final(self).strong_count_spec() == old(self).strong_count_spec() + 1,
            final(self).weak_count_spec() == old(self).weak_count_spec(),
            final(self).value_spec() == old(self).value_spec(),
    {
        self.strong = self.strong + 1;
    }

    /// Records that one of several strong owners went away. The last strong
    /// owner is never dropped through this call: that would end the pointee's
    /// life, which is the concern of the cell's owner, not of this capability.
    pub fn drop_strong(&mut self)
        requires
            old(self).strong_count_spec() >= 2,
        ensures
            final(self).strong_count_spec() == old(self).strong_count_spec() - 1,
            final(self).weak_count_spec() == old(self).weak_count_spec(),
            final(self).value_spec() == old(self).value_spec(),
    {
        self.strong = self.strong - 1;
    }

    /// Records one more weak observer, as downgrading a strong reference does.
    pub fn downgrade(&mut self)
        requires
            old(self).is_live(),
            old(self).weak_count_spec() < usize::MAX,
        ensures
            final(self).weak_count_spec() == old(self).weak_count_spec() + 1,
            final(self).strong_count_spec() == old(self).strong_count_spec(),
            final(self).value_spec() == old(self).value_spec(),
    {
        self.weak = self.weak + 1;
    }

    /// Records that a weak observer went away.
    pub fn drop_weak(&mut self)
        requires
            old(self).weak_count_spec() >= 1,
        ensures
            final(self).weak_count_spec() == old(self).weak_count_spec() - 1,
            final(self).strong_count_spec() == old(self).strong_count_spec(),
            final(self).value_spec() == old(self).value_spec(),
    {
        self.weak = self.weak - 1;
    }

    /// An upgrade attempt by a weak reference: it reads the live strong count
    /// and succeeds, taking a new strong reference, exactly when that count is
    /// nonzero. While a mutable-borrow window is open the count reads zero, so
    /// the attempt fails, indistinguishable from the pointee being gone.
    pub fn upgrade(&mut self) -> (r: bool)
        requires
            old(self).weak_count_spec() >= 1,
            old(self).strong_count_spec() < usize::MAX,
        ensures
            r == old(self).upgrade_succeeds(),
            r ==> final(self).strong_count_spec() == old(self).strong_count_spec() + 1,
            !r ==> final(self).strong_count_spec() == old(self).strong_count_spec(),
            final(self).weak_count_spec() == old(self).weak_count_spec(),
            final(self).value_spec() == old(self).value_spec(),
    {
        if self.strong >= 1 {
            self.strong = self.strong + 1;
            true
        } else {
            false
        }
    }

    /// Reads the pointee through a strong reference. Unavailable while a
    /// mutable-borrow window is open: the handle is then the only access path.
    pub fn value(&self) -> (r: &T)
        requires
            self.is_live(),
        ensures
            *r == self.value_spec(),
    {
        &self.value
    }
}

} // verus!
