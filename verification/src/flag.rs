//! The cancellation flag shared by a request and its receiver.

use std::sync::atomic::AtomicBool;
use std::sync::atomic::Ordering;
use std::sync::Arc;
use vstd::prelude::*;

verus! {

/// A lock-free boolean with two handles: one in the request, one in the
/// receiver. It starts lowered, and [`CancellationFlag::raise`] is the only
/// write this type offers, so no handle can lower it again.
#[derive(Debug)]
pub struct CancellationFlag {
    shared: Arc<AtomicBool>,
}

impl CancellationFlag {
    /// The atomic that this handle points to. Handles made from one another
    /// by [`CancellationFlag::share`] point to the same atomic.
    pub closed spec fn cell(&self) -> AtomicBool {
        *self.shared
    }

    /// A fresh flag, lowered.
    pub fn new() -> (flag: CancellationFlag) {
        CancellationFlag { shared: Arc::new(AtomicBool::new(false)) }
    }

    /// A second handle to the same flag.
    pub fn share(&self) -> (other: CancellationFlag)
        ensures
            other.cell() == self.cell(),
    {
        CancellationFlag { shared: clone_handle(&self.shared) }
    }

    /// Raises the flag for every handle.
    pub fn raise(&self)
        opens_invariants none
        no_unwind
    {
        store(&self.shared, true);
    }

    /// What the flag shows at this moment. Another thread may raise it at any
    /// time, so nothing is promised about the answer.
    pub fn is_raised(&self) -> bool {
        self.shared.load(Ordering::SeqCst)
    }
}

/// `Arc::clone`: a new pointer to the same allocation, so both point to the
/// same atomic.
#[verifier::external_body]
fn clone_handle(shared: &Arc<AtomicBool>) -> (other: Arc<AtomicBool>)
    ensures
        *other == **shared,
{
    Arc::clone(shared)
}

/// `AtomicBool::store` with sequentially consistent ordering. The store
/// panics only for the orderings `Acquire` and `AcqRel`, so this call never
/// unwinds. A flag is only ever raised: the one value that may be stored is
/// `true`.
#[verifier::external_body]
fn store(shared: &Arc<AtomicBool>, value: bool)
    requires
        value,
    opens_invariants none
    no_unwind
{
    shared.store(value, Ordering::SeqCst);
}

} // verus!
