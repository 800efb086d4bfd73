//! Named accessors for the value that a `Box` owns.
//!
//! With [`BoxExt`] in scope, `b.unbox_ref()` stands for `&*b` and
//! `b.unbox_mut()` for `&mut *b`. Both are total, allocate nothing and leave
//! ownership where it was; the contracts below say exactly which borrow each
//! one hands out.
use core::ops::{Deref, DerefMut};
use vstd::prelude::*;

pub mod laws;

verus! {

/// Extends an owning handle with the `.unbox_ref()` and `.unbox_mut()` methods.
///
/// The handle already dereferences to `T`; `payload` names, for contracts, the
/// value that it owns. `T` may be unsized, so contracts compare borrows of the
/// payload rather than the payload itself.
pub trait BoxExt<T: ?Sized>: Deref<Target = T> + DerefMut<Target = T> {
    /// The value that the handle owns.
    spec fn payload(&self) -> &T;

    /// Returns a reference to the data stored in the handle.
    fn unbox_ref(&self) -> (inner: &T)
        ensures
            inner == self.payload(),
    ;

    /// Returns a mutable reference to the data stored in the handle.
    ///
    /// The borrow starts out at the payload as it was, and whatever it holds
    /// when it ends is the payload from then on.
    fn unbox_mut(&mut self) -> (inner: &mut T)
        ensures
            &*inner == old(self).payload(),
            final(self).payload() == &*final(inner),
    ;
}

impl<T: ?Sized> BoxExt<T> for Box<T> {
    /// A box owns what it dereferences to.
    open spec fn payload(&self) -> &T {
        &**self
    }

    /// The borrow is the one that `&**self` gives.
    fn unbox_ref(&self) -> (inner: &T)
        ensures
            inner == &**self,
    {
        &**self
    }

    /// The borrow is the one that `&mut **self` gives: it starts at the boxed
    /// value, and the box ends up holding what the borrow ends up holding.
    fn unbox_mut(&mut self) -> (inner: &mut T)
        ensures
            &*inner == &**old(self),
            &**final(self) == &*final(inner),
    {
        &mut **self
    }
}

} // verus!
