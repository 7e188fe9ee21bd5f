//! Formatting of secrets: a fixed placeholder, whatever is held.
//!
//! Both `Debug` and `Display` write [`REDACTED`] and nothing else. Neither
//! reads the held value, so nothing of it, not even its length, can reach the
//! output. `Debug` asks nothing of `T`.

use vstd::prelude::*;
use core::fmt::Error;
use core::fmt::Formatter;
use crate::secret::Secret;

verus! {

/// `core::fmt::Formatter`, the sink that `Debug` and `Display` write into.
/// Nothing inside it is visible here.
#[verifier::external_type_specification]
#[verifier::external_body]
pub struct ExFormatter<'a>(Formatter<'a>);

/// `core::fmt::Error`, the error that a formatter reports.
#[verifier::external_type_specification]
#[verifier::external_body]
pub struct ExFmtError(Error);

/// The text that has been written into a formatter so far.
pub uninterp spec fn written(f: Formatter<'_>) -> Seq<char>;

/// What every secret is formatted as.
pub const REDACTED: &'static str = "...";

/// The characters of [`REDACTED`]: three dots.
pub open spec fn placeholder() -> Seq<char> {
    seq!['.', '.', '.']
}

/// [`REDACTED`] is made of three dots.
pub proof fn lemma_redacted_is_placeholder()
    ensures
        REDACTED@ == placeholder(),
{
    reveal_strlit("...");
    assert("..."@ =~= placeholder());
}

/// Writes `text` into `f` with `Formatter::write_str` of the standard library.
/// That method succeeds only if all of `text` was written, so on success the
/// formatter has received `text` after what it had; on failure nothing is
/// claimed.
#[verifier::external_body]
fn write_text(f: &mut Formatter<'_>, text: &str) -> (res: Result<(), Error>)
    ensures
        res is Ok ==> written(*final(f)) == written(*old(f)) + text@,
{
    f.write_str(text)
}

impl<T> core::fmt::Debug for Secret<T> {
    /// Writes the placeholder. The held value is not read.
    fn fmt(&self, f: &mut Formatter<'_>) -> (res: Result<(), Error>)
        ensures
            res is Ok ==> written(*final(f)) == written(*old(f)) + placeholder(),
    {
        proof {
            lemma_redacted_is_placeholder();
        }
        write_text(f, REDACTED)
    }
}

impl<T: core::fmt::Display> core::fmt::Display for Secret<T> {
    /// Writes the placeholder. The held value is not read.
    fn fmt(&self, f: &mut Formatter<'_>) -> (res: Result<(), Error>)
        ensures
            res is Ok ==> written(*final(f)) == written(*old(f)) + placeholder(),
    {
        proof {
            lemma_redacted_is_placeholder();
        }
        write_text(f, REDACTED)
    }
}

} // verus!
