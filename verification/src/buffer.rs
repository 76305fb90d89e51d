//! The length-cell protocol for output of a size that only the host knows.

use crate::ptr::{Ptr32, Ptr32Mut};
use vstd::prelude::*;

verus! {

/// `core::mem::take` hands out what `dest` held and leaves a default value in
/// its place.
pub assume_specification<T: core::default::Default>[ core::mem::take::<T> ](dest: &mut T) -> (taken: T)
    ensures
        taken == *old(dest),
        call_ensures(T::default, (), *final(dest)),
;

/// Narrows the caller's view of a buffer to its first `new_len` bytes.
pub fn extract_from_slice<'a>(output: &mut &'a mut [u8], new_len: usize)
    requires
        new_len <= old(output)@.len(),
    ensures
        final(output)@ == old(output)@.take(new_len as int),
        final(output)@.len() == new_len,
        final(output)@.len() <= old(output)@.len(),
{
    let tmp = core::mem::take(output);
    let (head, _) = tmp.split_at_mut(new_len);
    *output = head;
}

/// A region that the host reads, as it crosses the boundary: where it starts
/// and how long it is.
pub struct Input<'a> {
    pub ptr: Ptr32<'a, [u8]>,
    pub len: u32,
}

impl<'a> Input<'a> {
    /// The bytes that the host will read.
    pub open spec fn bytes(self) -> Seq<u8> {
        self.ptr.region()@
    }

    /// The length that is passed is the length of the region.
    pub open spec fn wf(self) -> bool {
        self.len == self.bytes().len()
    }

    /// The pair is well formed and stands for `bytes`.
    pub open spec fn carries(self, bytes: Seq<u8>) -> bool {
        self.wf() && self.bytes() == bytes
    }

    /// The pair for a byte region.
    pub fn new(bytes: &'a [u8]) -> (input: Self)
        requires
            bytes@.len() <= u32::MAX,
        ensures
            input.carries(bytes@),
    {
        Input { ptr: Ptr32::from_slice(bytes), len: bytes.len() as u32 }
    }
}

/// A region that the host fills, as it crosses the boundary: where it starts,
/// and the cell that tells the host its capacity and in which the host
/// reports how much it wrote.
pub struct Negotiated<'a> {
    pub ptr: Ptr32Mut<'a, [u8]>,
    pub len_ptr: Ptr32Mut<'a, u32>,
}

impl<'a> Negotiated<'a> {
    /// The capacity that the host is told.
    pub open spec fn advertised(self) -> u32 {
        *self.len_ptr.region()
    }

    /// The cell holds the capacity of the region, no less and no more.
    pub open spec fn wf(self) -> bool {
        self.advertised() == self.ptr.region()@.len()
    }

    /// The pair is well formed and offers `region` to the host.
    pub open spec fn offers(self, region: Seq<u8>) -> bool {
        self.wf() && self.ptr.region()@ == region
    }

    /// Records the capacity of `output` in `len_cell` and pairs the two for
    /// the call. Once the call is over nothing is known of what either holds;
    /// the region is as long as it was.
    pub fn open(output: &'a mut [u8], len_cell: &'a mut u32) -> (pair: Self)
        requires
            old(output)@.len() <= u32::MAX,
        ensures
            pair.offers(old(output)@),
            final(output)@.len() == old(output)@.len(),
    {
        *len_cell = output.len() as u32;
        Negotiated { ptr: Ptr32Mut::from_slice(output), len_ptr: Ptr32Mut::from_ref(len_cell) }
    }
}

} // verus!
