//! The capabilities that a secret passes through to the value it holds:
//! cloning, equality, hashing, default construction and conversion.
//!
//! None of them renders the value, so each simply hands the work to `T` and
//! wraps what comes back. The contracts say so over the held value, `secret@`.

use vstd::prelude::*;
use vstd::std_specs::cmp::PartialEqSpec;
use core::hash::Hash;
use core::hash::Hasher;
use crate::secret::Secret;

verus! {

impl<T: Clone> Clone for Secret<T> {
    /// The clone holds a clone of the held value.
    fn clone(&self) -> (copy: Self)
        ensures
            cloned::<T>(self@, copy@),
    {
        Secret::new(self.reveal_ref().clone())
    }
}

impl<T: Copy> Copy for Secret<T> {}

impl<T: PartialEq> PartialEq for Secret<T> {
    /// Two secrets are equal when the held values are.
    fn eq(&self, other: &Secret<T>) -> (equal: bool)
    {
        self.reveal_ref().eq(other.reveal_ref())
    }
}

impl<T: PartialEq> vstd::std_specs::cmp::PartialEqSpecImpl for Secret<T> {
    open spec fn obeys_eq_spec() -> bool {
        T::obeys_eq_spec()
    }

    open spec fn eq_spec(&self, other: &Secret<T>) -> bool {
        self@.eq_spec(&other@)
    }
}

impl<T: Eq> Eq for Secret<T> {}

/// Feeds `value` into `state` with `Hash::hash` of the standard library.
/// Nothing is claimed of the state afterwards: what a value writes into a
/// hasher is for its own `Hash` impl to say.
#[verifier::external_body]
fn feed_hasher<T: Hash, H: Hasher>(value: &T, state: &mut H)
{
    value.hash(state)
}

impl<T: Hash> Hash for Secret<T> {
    /// Feeds the held value, and nothing else, into `state`.
    fn hash<H: Hasher>(&self, state: &mut H)
    {
        feed_hasher(self.reveal_ref(), state)
    }
}

impl<T: Default> Default for Secret<T> {
    /// The default secret holds a default value of `T`.
    fn default() -> (secret: Secret<T>)
        ensures
            call_ensures(T::default, (), secret@),
    {
        Secret::new(T::default())
    }
}

impl<T> From<T> for Secret<T> {
    /// Wraps `v`, as `Secret::new` does.
    fn from(v: T) -> (secret: Secret<T>)
        ensures
            secret@ == v,
    {
        Secret::new(v)
    }
}

impl<T> vstd::std_specs::convert::FromSpecImpl<T> for Secret<T> {
    open spec fn obeys_from_spec() -> bool {
        true
    }

    open spec fn from_spec(v: T) -> Secret<T> {
        Secret::new(v)
    }
}

} // verus!
