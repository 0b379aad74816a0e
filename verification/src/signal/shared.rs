use vstd::predicate::Predicate;
use vstd::prelude::*;

verus! {

/// The invariant of a shared cell that may hold any value of its type.
pub struct Unconstrained;

impl<T> Predicate<T> for Unconstrained {
    open spec fn predicate(&self, value: T) -> bool {
        true
    }
}

} // verus!
