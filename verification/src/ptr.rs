//! Opaque handles for addresses that cross the boundary.

use core::marker::PhantomData;
use vstd::prelude::*;

verus! {

/// The address of a shared region, as the host sees it.
///
/// A handle is made from a shared borrow only, and nothing reads the number
/// back out of it.
pub struct Ptr32<'a, T: ?Sized> {
    _value: u32,
    marker: PhantomData<&'a T>,
    region: Ghost<&'a T>,
}

impl<'a, T: ?Sized> Ptr32<'a, T> {
    /// The region that the handle was made from.
    pub closed spec fn region(self) -> &'a T {
        self.region@
    }

    fn new(value: u32, region: Ghost<&'a T>) -> (ptr: Self)
        ensures
            ptr.region() == region@,
    {
        Self { _value: value, marker: PhantomData, region }
    }
}

/// The address at which a slice starts, cut to the width of the guest's
/// address space. This is `<[T]>::as_ptr`; nothing is claimed of the number.
#[verifier::external_body]
fn slice_address<T>(slice: &[T]) -> u32 {
    slice.as_ptr() as u32
}

impl<'a, T> Ptr32<'a, [T]> {
    /// The handle of a shared slice.
    pub fn from_slice(slice: &'a [T]) -> (ptr: Self)
        ensures
            ptr.region()@ == slice@,
    {
        Self::new(slice_address(slice), Ghost(slice))
    }
}

/// The address of an exclusively borrowed region, as the host sees it.
///
/// A handle is made from an exclusive borrow only, and nothing reads the
/// number back out of it. While the handle lives the host may write to the
/// region, so nothing is known of its contents once the borrow ends.
pub struct Ptr32Mut<'a, T: ?Sized> {
    _value: u32,
    marker: PhantomData<&'a mut T>,
    region: Ghost<&'a T>,
}

impl<'a, T: ?Sized> Ptr32Mut<'a, T> {
    /// The region as it stood when the handle was made.
    pub closed spec fn region(self) -> &'a T {
        self.region@
    }

    fn new(value: u32, region: Ghost<&'a T>) -> (ptr: Self)
        ensures
            ptr.region() == region@,
    {
        Self { _value: value, marker: PhantomData, region }
    }
}

/// The address of a single value, cut to the width of the guest's address
/// space. This is `core::ptr::from_mut`; nothing is claimed of the number.
#[verifier::external_body]
fn value_address<T>(a_ref: &mut T) -> u32 {
    core::ptr::from_mut(a_ref) as u32
}

impl<'a, T> Ptr32Mut<'a, [T]> {
    /// The handle of an exclusive slice.
    pub fn from_slice(slice: &'a mut [T]) -> (ptr: Self)
        ensures
            ptr.region()@ == old(slice)@,
            final(slice)@.len() == old(slice)@.len(),
    {
        let ghost region: &[T] = &*slice;
        Self::new(slice_address(slice), Ghost(region))
    }
}

impl<'a, T> Ptr32Mut<'a, T> {
    /// The handle of an exclusive reference to one value.
    pub fn from_ref(a_ref: &'a mut T) -> (ptr: Self)
        ensures
            *ptr.region() == *old(a_ref),
    {
        let ghost region: &T = &*a_ref;
        Self::new(value_address(a_ref), Ghost(region))
    }
}

} // verus!
