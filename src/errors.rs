//! Errors found while reading declarations: each carries the source position
//! of the offending declaration and aborts the whole build.
use vstd::prelude::*;

use proc_macro2::Span;

verus! {

/// A source position, as the compiler hands it out; carried, never read.
#[verifier::external_type_specification]
#[verifier::external_body]
pub struct ExSpan(proc_macro2::Span);

/// What was wrong with a declaration.
#[derive(Clone, Debug, PartialEq, Eq)]
pub enum BuildErrorKind {
    /// A function argument bound by a pattern rather than a plain name.
    UnnamedArgument,
    /// An interface attribute given as something other than a string literal.
    ExpectedStringLiteral,
}

/// A malformed declaration, with the position to report it at.
#[derive(Debug)]
pub struct BuildError {
    pub kind: BuildErrorKind,
    pub span: Span,
}

} // verus!
