//! The wrapper type itself: how a secret is made, borrowed and revealed.
//!
//! The held value is the model of a secret: `secret@` is the value of type `T`
//! that the secret owns. Only the operations with `reveal` in their name hand
//! that value out unwrapped; every other operation returns another secret.

use vstd::prelude::*;

verus! {

/// Wraps a value of type `T`, preventing it from being revealed by accident.
///
/// A secret owns exactly one value and has no other state. It compares,
/// orders, hashes, clones and converts as the held value does, and it is
/// formatted as a fixed placeholder whatever it holds.
#[derive(Ord)]
pub struct Secret<T>(T);

impl<T> View for Secret<T> {
    type V = T;

    /// The value that the secret holds.
    closed spec fn view(&self) -> T {
        self.0
    }
}

impl<T> Secret<T> {
    /// The secret that holds `val`. In contracts this is written `Secret::new(val)`.
    pub closed spec fn spec_new(val: T) -> Secret<T> {
        Secret(val)
    }

    /// Creates a new secret.
    #[verifier::when_used_as_spec(spec_new)]
    pub fn new(val: T) -> (secret: Secret<T>)
        ensures
            secret == Secret::new(val),
            secret@ == val,
    {
        Secret(val)
    }

    /// Creates a secret immutable reference.
    pub fn as_ref(&self) -> (borrowed: Secret<&T>)
        ensures
            borrowed == Secret::new(&self@),
            *borrowed@ == self@,
    {
        Secret(&self.0)
    }

    /// Creates a secret mutable reference.
    ///
    /// The borrowed secret holds the one way to the held value: what the value
    /// is when that borrow ends is what this secret holds from then on.
    pub fn as_mut(&mut self) -> (borrowed: Secret<&mut T>)
        ensures
            *borrowed@ == old(self)@,
            final(self)@ == *final(borrowed@),
    {
        Secret(&mut self.0)
    }

    /// **Reveals** the held value by returning a reference.
    pub fn reveal_ref(&self) -> (val: &T)
        ensures
            *val == self@,
    {
        &self.0
    }

    /// **Reveals** the held value by unwrapping.
    pub fn reveal_into(self) -> (val: T)
        ensures
            val == self@,
    {
        self.0
    }

    /// **Reveals** the held value to `f` and keeps what `f` returns secret.
    pub fn map_revealed<V, F: FnOnce(T) -> V>(self, f: F) -> (mapped: Secret<V>)
        requires
            f.requires((self@,)),
        ensures
            f.ensures((self@,), mapped@),
    {
        Secret(f(self.0))
    }

    /// A secret made from a value holds that value.
    pub proof fn lemma_new_holds(val: T)
        ensures
            Secret::new(val)@ == val,
    {
    }

    /// Two secrets are the same secret exactly when they hold the same value.
    pub proof fn lemma_held_decides(a: Secret<T>, b: Secret<T>)
        ensures
            a == b <==> a@ == b@,
    {
    }
}

impl Secret<String> {
    /// Returns a `str` reference, wrapped in a secret.
    pub fn as_str(&self) -> (borrowed: Secret<&str>)
        ensures
            borrowed@@ == self@@,
    {
        Secret(self.0.as_str())
    }

    /// Returns and **reveals** a `str` reference.
    pub fn reveal_str(&self) -> (val: &str)
        ensures
            val@ == self@@,
    {
        self.0.as_str()
    }
}

} // verus!
