//! What holds of every secret, whatever it holds.
//!
//! Each law is stated over `Secret::new` and the held value `secret@`, the
//! terms in which the operations' own contracts are written.

use vstd::prelude::*;
use vstd::std_specs::cmp::PartialEqSpec;
use vstd::std_specs::cmp::PartialOrdSpec;
use vstd::std_specs::cmp::PartialOrdIs;
use crate::secret::Secret;

verus! {

/// Round trip: a secret made from `v` reveals `v`, by value and by reference.
pub proof fn lemma_reveal_round_trip<T>(v: T, secret: Secret<T>, by_value: T, by_ref: &T)
    requires
        call_ensures(Secret::<T>::new, (v,), secret),
        call_ensures(Secret::<T>::reveal_into, (secret,), by_value),
        call_ensures(Secret::<T>::reveal_ref, (&secret,), by_ref),
    ensures
        Secret::new(v)@ == v,
        by_value == v,
        *by_ref == v,
{
    Secret::lemma_new_holds(v);
}

/// Equality passes through: two secrets are the same exactly when the values
/// they were made from are the same, and `==` on two secrets is what `==` is
/// on those values.
pub proof fn lemma_equality_passes_through<T: PartialEq>(v: T, w: T)
    ensures
        Secret::new(v) == Secret::new(w) <==> v == w,
        Secret::new(v).eq_spec(&Secret::new(w)) == v.eq_spec(&w),
        Secret::<T>::obeys_eq_spec() == T::obeys_eq_spec(),
{
    Secret::lemma_new_holds(v);
    Secret::lemma_new_holds(w);
}

/// Ordering passes through: two secrets compare as the values they were made
/// from, so one is less than the other exactly when its value is.
pub proof fn lemma_ordering_passes_through<T: PartialOrd>(v: T, w: T)
    ensures
        Secret::new(v).partial_cmp_spec(&Secret::new(w)) == v.partial_cmp_spec(&w),
        Secret::new(v).is_lt(&Secret::new(w)) <==> v.is_lt(&w),
        Secret::<T>::obeys_partial_cmp_spec() == T::obeys_partial_cmp_spec(),
{
    Secret::lemma_new_holds(v);
    Secret::lemma_new_holds(w);
}

/// Cloning keeps the value: where a clone of a `T` is always the same value
/// as the `T` it was cloned from, a clone of a secret is the same secret and
/// reveals the same value.
pub proof fn lemma_clone_reveals_same<T: Clone>(v: T, copy: Secret<T>)
    requires
        cloned::<Secret<T>>(Secret::new(v), copy),
        forall|a: T, b: T| cloned::<T>(a, b) ==> a == b,
    ensures
        copy@ == v,
        copy == Secret::new(v),
{
    Secret::lemma_new_holds(v);
    Secret::lemma_held_decides(copy, Secret::new(v));
}

} // verus!
