//! A lifetime attached to a value that is owned but borrows from elsewhere.
use vstd::prelude::*;
use std::marker::PhantomData;
use std::ops::Deref;

verus! {

/// A value tied to the lifetime `'a` of what it was read from.
pub struct BorrowWrapper<'a, T>(pub T, pub PhantomData<&'a ()>);

impl<'a, T> Deref for BorrowWrapper<'a, T> {
    type Target = T;

    /// The wrapped value.
    fn deref(&self) -> (r: &T)
        ensures
            *r == self.0,
    {
        &self.0
    }
}

impl<'a, T> From<T> for BorrowWrapper<'a, T> {
    fn from(value: T) -> (r: Self) {
        BorrowWrapper(value, PhantomData)
    }
}

impl<'a, T> vstd::std_specs::convert::FromSpecImpl<T> for BorrowWrapper<'a, T> {
    open spec fn obeys_from_spec() -> bool {
        true
    }

    open spec fn from_spec(v: T) -> Self {
        BorrowWrapper(v, PhantomData)
    }
}

} // verus!
