//! Ordering of secrets by the values they hold.
//!
//! Ordering is kept apart from the other capabilities: a sorted collection of
//! secrets, printed in order, tells how the held values compare.

use vstd::prelude::*;
use vstd::std_specs::cmp::PartialOrdSpec;
use core::cmp::Ordering;
use crate::secret::Secret;

verus! {

impl<T: PartialOrd> PartialOrd for Secret<T> {
    /// Two secrets compare as the held values do.
    fn partial_cmp(&self, other: &Secret<T>) -> (order: Option<Ordering>)
    {
        self.reveal_ref().partial_cmp(other.reveal_ref())
    }
}

impl<T: PartialOrd> vstd::std_specs::cmp::PartialOrdSpecImpl for Secret<T> {
    open spec fn obeys_partial_cmp_spec() -> bool {
        T::obeys_partial_cmp_spec()
    }

    open spec fn partial_cmp_spec(&self, other: &Secret<T>) -> Option<Ordering> {
        self@.partial_cmp_spec(&other@)
    }
}

} // verus!
