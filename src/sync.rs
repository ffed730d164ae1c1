//! Scoped exclusive access to a value owned by a single hart.
use vstd::prelude::*;

verus! {

/// A cell whose contents are reached only through a borrow of the cell:
/// exclusive access is the borrow checker's to grant, so a second live
/// accessor cannot exist.
pub struct UPSafeCell<T> {
    inner: T,
}

impl<T> UPSafeCell<T> {
    /// What the cell holds.
    pub closed spec fn value(&self) -> T {
        self.inner
    }

    /// A cell holding `value`.
    pub fn new(value: T) -> (r: Self)
        ensures
            r.value() == value,
    {
        Self { inner: value }
    }

    /// Exclusive access to the contents; what is written through the result
    /// is what the cell holds afterwards.
    pub fn exclusive_access(&mut self) -> (r: &mut T)
        ensures
            *r == old(self).value(),
            final(self).value() == *final(r),
    {
        &mut self.inner
    }

    /// Read access to the contents.
    pub fn shared_access(&self) -> (r: &T)
        ensures
            *r == self.value(),
    {
        &self.inner
    }
}

} // verus!
