//! The name of an interface as written in an attribute (`implements(Node)`,
//! `mark_as = "Node"`), with where it was written.
use vstd::prelude::*;

use proc_macro2::Span;

use crate::errors::{BuildError, BuildErrorKind};

verus! {

/// A literal as written in an attribute.
#[derive(Debug)]
pub enum Literal {
    Str(String, Span),
    /// Any other literal (a number, a boolean, ...).
    Other(Span),
}

/// An interface name given in an attribute.
#[derive(Debug)]
pub struct InterfaceAttr {
    pub inner: String,
    pub span: Span,
}

impl InterfaceAttr {
    /// A field-for-field copy.
    pub fn copy(&self) -> (r: InterfaceAttr)
        ensures
            r == *self,
    {
        InterfaceAttr { inner: self.inner.clone(), span: self.span }
    }

    /// The interface's name.
    pub fn deref(&self) -> (r: &String)
        ensures
            *r == self.inner,
    {
        &self.inner
    }

    /// Where the name was written.
    pub fn span(&self) -> (r: Span)
        ensures
            r == self.span,
    {
        self.span
    }

    /// Reads an interface name from a literal: only a string literal is one.
    pub fn from_value(value: Literal) -> (r: Result<InterfaceAttr, BuildError>)
        ensures
            match value {
                Literal::Str(s, span) => r == Ok::<InterfaceAttr, BuildError>(
                    InterfaceAttr { inner: s, span },
                ),
                Literal::Other(span) => r == Err::<InterfaceAttr, BuildError>(
                    BuildError { kind: BuildErrorKind::ExpectedStringLiteral, span },
                ),
            },
    {
        match value {
            Literal::Str(s, span) => Ok(InterfaceAttr { inner: s, span }),
            Literal::Other(span) => Err(
                BuildError { kind: BuildErrorKind::ExpectedStringLiteral, span },
            ),
        }
    }
}

} // verus!
