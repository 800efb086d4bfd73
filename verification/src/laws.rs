//! What follows from the contracts of [`BoxExt`] on `Box`, stated of every
//! borrow that `unbox_ref` and `unbox_mut` may hand out.
use crate::BoxExt;
use vstd::prelude::*;

verus! {

/// A box made from `v` lends out `v`.
pub proof fn lemma_unbox_ref_of_new<T>(v: T, inner: &T)
    requires
        <Box<T> as BoxExt<T>>::unbox_ref.ensures((&Box::new(v),), inner),
    ensures
        *inner == v,
{
}

/// The borrow is the one that dereferencing the box gives, whatever the shape
/// of the payload.
pub proof fn lemma_unbox_ref_is_deref<T: ?Sized>(h: &Box<T>, inner: &T)
    requires
        <Box<T> as BoxExt<T>>::unbox_ref.ensures((h,), inner),
    ensures
        inner == &**h,
{
}

/// A payload with a view is lent out with that view: a boxed sequence yields
/// the same elements in the same order, and an empty one yields none.
pub proof fn lemma_unbox_ref_keeps_view<T: View + ?Sized>(h: &Box<T>, inner: &T)
    requires
        <Box<T> as BoxExt<T>>::unbox_ref.ensures((h,), inner),
    ensures
        inner@ == h@,
{
}

/// A boxed slice is lent out element for element.
pub proof fn lemma_unbox_ref_keeps_slice<E>(h: &Box<[E]>, inner: &[E])
    requires
        <Box<[E]> as BoxExt<[E]>>::unbox_ref.ensures((h,), inner),
    ensures
        inner@ == h@,
        inner@.len() == 0 <==> h@.len() == 0,
{
}

/// Calling a function on the borrow is calling it on the dereferenced box:
/// it may be called in the same cases and may return the same results. `T`
/// may be a trait object.
pub proof fn lemma_call_through_unbox_ref<T: ?Sized, R, F: Fn(&T) -> R>(
    h: &Box<T>,
    inner: &T,
    f: F,
    out: R,
)
    requires
        <Box<T> as BoxExt<T>>::unbox_ref.ensures((h,), inner),
    ensures
        f.requires((inner,)) <==> f.requires((&**h,)),
        f.ensures((inner,), out) <==> f.ensures((&**h,), out),
{
}

/// Two shared borrows of one box are equal, and each equals the payload.
pub proof fn lemma_unbox_ref_twice<T: ?Sized>(h: &Box<T>, first: &T, second: &T)
    requires
        <Box<T> as BoxExt<T>>::unbox_ref.ensures((h,), first),
        <Box<T> as BoxExt<T>>::unbox_ref.ensures((h,), second),
    ensures
        first == second,
        first == h.payload(),
{
}

/// A copy taken through the borrow is a copy of the payload.
pub proof fn lemma_unbox_ref_of_copy<T: Copy>(h: &Box<T>, inner: &T)
    requires
        <Box<T> as BoxExt<T>>::unbox_ref.ensures((h,), inner),
    ensures
        *inner == **h,
{
}

/// What was written through the mutable borrow is what a shared borrow sees
/// once the mutable one has ended.
pub proof fn lemma_unbox_mut_then_unbox_ref<T: ?Sized>(h: &mut Box<T>, written: &mut T, seen: &T)
    requires
        <Box<T> as BoxExt<T>>::unbox_mut.ensures((h,), written),
        <Box<T> as BoxExt<T>>::unbox_ref.ensures((&*final(h),), seen),
    ensures
        seen == &*final(written),
{
}

} // verus!
