//! # sec
//!
//! The `sec` crate prevents secrets from accidentally leaking through `Debug`
//! or `Display` implementations. It does so by wrapping any kind of
//! confidential information in a zero-overhead type, [`Secret`]:
//!
//! ```ignore
//! use sec::Secret;
//!
//! #[derive(Debug)]
//! struct User {
//!     id: usize,
//!     username: String,
//!     session_token: Secret<String>,
//! }
//! ```
//!
//! Formatting a `User` shows `session_token: ...`, whatever the token is.
//! The held value can be reached by the methods with `reveal` in their name,
//! and by those only.
//!
//! ## What is verified
//!
//! The model of a secret is the value it holds, written `secret@`. Every
//! operation states what the result holds:
//!
//! * [`secret`]: making, borrowing and revealing a secret;
//! * [`redaction`]: `Debug` and `Display`, which write a fixed placeholder;
//! * [`structural`]: `Clone`, `PartialEq`, `Hash`, `Default` and `From`, which
//!   pass through to the held value;
//! * [`ordering`]: `PartialOrd` and `Ord`, which pass through as well;
//! * [`decoding`]: decoding with serde, where the decoder's error is replaced
//!   by a fixed one;
//! * [`laws`]: what follows for every secret.
//!
//! ## Security
//!
//! A secret is kept out of formatted output. Its memory is not protected: it
//! is neither locked nor cleared when the secret is dropped.

pub mod decoding;
pub mod laws;
pub mod ordering;
pub mod redaction;
pub mod secret;
pub mod structural;

pub use decoding::DecodeError;
pub use decoding::DECODE_FAILURE;
pub use redaction::REDACTED;
pub use secret::Secret;
