//! Two ways of holding memory that the foreign library allocated: one that
//! never releases it, and one that releases it once.

use crate::cdef::{ForeignCall, ForeignCallView};
use core::marker::PhantomData;
use std::rc::Rc;
use vstd::prelude::*;

verus! {

/// Holds the address of a `T` that the foreign library manages by itself.
/// Nothing that takes or gives a `DoNotFree` ever asks for the memory to be
/// released. The address is never null.
///
/// There is one `DoNotFree` for each address that was wrapped: it cannot be
/// copied or cloned, and it stays on the thread that got it.
pub struct DoNotFree<T> {
    data: usize,
    // `Rc` keeps the holder from being sent to, or shared with, another thread.
    phantom: PhantomData<Rc<T>>,
}

impl<T> DoNotFree<T> {
    #[verifier::type_invariant]
    spec fn non_null(self) -> bool {
        self.data != 0
    }

    /// The address held.
    pub closed spec fn spec_address(&self) -> usize {
        self.data
    }

    /// Wraps the address that a foreign routine returned, unless it is null.
    pub(crate) fn from_raw(address: usize) -> (wrapped: Option<Self>)
        ensures
            wrapped is None <==> address == 0,
            wrapped matches Some(held) ==> held.spec_address() == address,
    {
        if address == 0 {
            None
        } else {
            Some(DoNotFree { data: address, phantom: PhantomData })
        }
    }

    /// The address held, for access to the `T` behind it. It is not null.
    #[verifier::when_used_as_spec(spec_address)]
    pub fn address(&self) -> (address: usize)
        ensures
            address == self.spec_address(),
            address != 0,
    {
        proof {
            use_type_invariant(self);
        }
        self.data
    }
}

/// Holds memory that the foreign library allocated and then handed over:
/// one `T`, or a run of them for `XBox<[T]>`. Whoever holds the `XBox` owes
/// the foreign allocator one release of it, which [`XBox::release`] states.
///
/// Use it only for memory that the foreign library documents as the
/// caller's to free. Nothing here can test that.
///
/// Like a [`DoNotFree`], an `XBox` cannot be copied or cloned, and stays on
/// the thread that got it.
pub struct XBox<T: ?Sized> {
    data: usize,
    length: usize,
    // `Rc` keeps the holder from being sent to, or shared with, another thread.
    phantom: PhantomData<Rc<T>>,
}

impl<T> XBox<T> {
    /// Takes over the single `T` at `address`.
    pub fn from_raw(address: usize) -> (owned: Self)
        ensures
            owned.address() == address,
            owned.len() == 1,
    {
        XBox { data: address, length: 1, phantom: PhantomData }
    }
}

impl<T> XBox<[T]> {
    /// Takes over the `length` elements that start at `address`.
    pub fn boxed_slice_from_raw(address: usize, length: usize) -> (owned: XBox<[T]>)
        ensures
            owned.address() == address,
            owned.len() == length,
    {
        XBox { data: address, length, phantom: PhantomData }
    }
}

impl<T: ?Sized> XBox<T> {
    /// The base address.
    pub closed spec fn spec_address(&self) -> usize {
        self.data
    }

    /// The number of elements.
    pub closed spec fn spec_len(&self) -> usize {
        self.length
    }

    /// The base address of the memory held.
    #[verifier::when_used_as_spec(spec_address)]
    pub fn address(&self) -> (address: usize)
        ensures
            address == self.spec_address(),
    {
        self.data
    }

    /// The number of elements that may be read or written from the base
    /// address on: 1 for a single value, the recorded count for a run.
    #[verifier::when_used_as_spec(spec_len)]
    pub fn len(&self) -> (length: usize)
        ensures
            length == self.spec_len(),
    {
        self.length
    }

    /// Ends the hold on the memory. The call to make is a release of the
    /// base address; the element count is no part of it.
    pub fn release(self) -> (call: ForeignCall)
        ensures
            call@ == (ForeignCallView::XFree { data: self.address() }),
    {
        ForeignCall::XFree { data: self.data }
    }
}

} // verus!
