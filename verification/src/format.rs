//! The one place where text is produced by the caller's own formatting
//! machinery.
//!
//! Formatting runs `Display` and `Debug` impls that this library has never
//! seen, so nothing is claimed about the text that comes out, only that either
//! text or a failure does.

use vstd::prelude::*;

verus! {

/// `core::fmt::Arguments`, carried through the library unopened.
#[verifier::external_type_specification]
#[verifier::external_body]
pub struct ExArguments<'a>(core::fmt::Arguments<'a>);

/// `core::fmt::Error`, the failure that the formatting machinery reports.
#[verifier::external_type_specification]
#[verifier::external_body]
pub struct ExFmtError(core::fmt::Error);

/// Runs `core::fmt::write` on a fresh `String`.
///
/// Trusted: the body is not verified and nothing is promised of the outcome,
/// which depends on the `Display` and `Debug` impls behind `args`. Callers
/// are verified for every text and for failure.
#[verifier::external_body]
pub(crate) fn render(args: core::fmt::Arguments<'_>) -> (rendered: Result<String, core::fmt::Error>) {
    let mut text = String::new();
    core::fmt::write(&mut text, args).map(|()| text)
}

} // verus!
