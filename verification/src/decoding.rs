//! Decoding a secret with serde, and the one failure it can end in.
//!
//! A decoder that fails may quote the input it could not read in its error.
//! For a secret that input is the secret, so the decoder's error is dropped
//! where the decoding ends and a fixed failure stands in for it.

use vstd::prelude::*;
use serde::Deserialize;
use serde::Deserializer;
use crate::secret::Secret;

verus! {

/// The message of every [`DecodeError`].
pub const DECODE_FAILURE: &'static str = "a confidential value could not be deserialized";

/// A secret could not be decoded.
///
/// The type has one value, so a failure carries nothing of the input that
/// caused it. Its view is its message.
#[derive(Debug, Clone, Copy, PartialEq, Eq)]
pub struct DecodeError;

impl View for DecodeError {
    type V = Seq<char>;

    open spec fn view(&self) -> Seq<char> {
        DECODE_FAILURE@
    }
}

impl DecodeError {
    /// The message of the failure: [`DECODE_FAILURE`], whatever the input was.
    pub fn message(&self) -> (text: &'static str)
        ensures
            text@ == self@,
            text@ == DECODE_FAILURE@,
    {
        DECODE_FAILURE
    }
}

/// Decodes a `T` with `Deserialize::deserialize` of serde and hands back the
/// value where there is one. The decoder's error is dropped here, unread.
/// Whether a value comes back is for the decoder and the input to decide, so
/// nothing is claimed of it.
#[verifier::external_body]
fn decode_value<'de, T, D>(deserializer: D) -> (decoded: Option<T>) where
    T: Deserialize<'de>,
    D: Deserializer<'de>,
{
    T::deserialize(deserializer).ok()
}

impl<T> Secret<T> {
    /// What a finished decoding of the held value becomes: a secret that holds
    /// the decoded value, or the fixed failure where no value was decoded.
    pub open spec fn sealed(decoded: Option<T>) -> Result<Secret<T>, DecodeError> {
        match decoded {
            Some(val) => Ok(Secret::new(val)),
            None => Err(DecodeError),
        }
    }

    /// Wraps the outcome of decoding a `T`.
    pub fn from_decoded(decoded: Option<T>) -> (sealed: Result<Secret<T>, DecodeError>)
        ensures
            sealed == Secret::sealed(decoded),
            decoded matches Some(val) ==> sealed matches Ok(secret) && secret@ == val,
            decoded is None ==> sealed == Err::<Secret<T>, DecodeError>(DecodeError),
    {
        match decoded {
            Some(val) => Ok(Secret::new(val)),
            None => Err(DecodeError),
        }
    }

    /// Decodes a secret as the held value would be decoded.
    ///
    /// The secret holds what the decoder made of the input. Where the decoder
    /// fails, its error is replaced by [`DecodeError`], whose message is fixed.
    pub fn deserialize<'de, D>(deserializer: D) -> (decoded: Result<Secret<T>, DecodeError>) where
        T: Deserialize<'de>,
        D: Deserializer<'de>,

        ensures
            decoded matches Err(failure) ==> failure@ == DECODE_FAILURE@,
    {
        Secret::from_decoded(decode_value::<T, D>(deserializer))
    }
}

} // verus!
