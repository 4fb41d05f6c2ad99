//! An exclusively-owning cell for one engine-facing value.
//!
//! Memory handed to the native engine must come from, and go back to, one
//! designated allocate/free pair for its whole lifetime; mixing allocators
//! is undefined behaviour. The raw allocator calls are unverifiable and
//! stay at the unverified boundary. What this type verifies is the
//! ownership discipline such a block depends on: exactly one live owner,
//! the stored value observable unchanged through borrows, teardown run
//! exactly once when the owner goes away, and no access after it does.
//! `T: Send` because the block may cross a thread boundary on its way to
//! or from the engine.

use vstd::prelude::*;

verus! {

/// Exclusive owner of one heap-allocated value.
pub struct CPtr<T: Send> {
    value: Box<T>,
}

impl<T: Send> View for CPtr<T> {
    type V = T;

    closed spec fn view(&self) -> T {
        *self.value
    }
}

impl<T: Send> CPtr<T> {
    /// Acquires a fresh allocation and moves `value` into it, without
    /// running any teardown on the allocation's prior contents.
    ///
    /// Allocation failure does not return: there is no way to proceed
    /// without the memory this cell promises to hold.
    pub fn new(value: T) -> (r: CPtr<T>)
        ensures
            r@ == value,
    {
        CPtr { value: Box::new(value) }
    }

    /// Adopts an already-allocated, already-initialised value without
    /// allocating; the cell becomes its one owner and will run its
    /// teardown exactly once.
    pub fn from_ptr(p: Box<T>) -> (r: CPtr<T>)
        ensures
            r@ == *p,
    {
        CPtr { value: p }
    }

    /// Borrows the contained value.
    pub fn borrow(&self) -> (r: &T)
        ensures
            *r == self@,
    {
        &*self.value
    }

    /// Mutably borrows the contained value; the cell afterwards holds
    /// whatever the caller left behind the borrow.
    pub fn borrow_mut(&mut self) -> (r: &mut T)
        ensures
            *r == old(self)@,
            final(self)@ == *final(r),
    {
        &mut *self.value
    }
}

/// Round trip: a cell acquired from a value gives that value back,
/// observably unchanged, through an immediate borrow. This is the
/// composition of the contracts of [`CPtr::new`] and [`CPtr::borrow`]:
/// acquisition stores exactly `value`, and a borrow observes exactly the
/// store.
pub proof fn lemma_acquire_borrow_round_trip<T: Send>(value: T, cell: CPtr<T>, observed: T)
    requires
        cell@ == value,
        observed == cell@,
    ensures
        observed == value,
{
}

} // verus!
