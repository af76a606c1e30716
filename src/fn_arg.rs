//! Function arguments of resolver methods, as read from their declarations.
use vstd::prelude::*;

use proc_macro2::Span;

use crate::errors::{BuildError, BuildErrorKind};
use crate::generics::TypeExpr;

verus! {

/// How a typed argument is bound.
#[derive(Debug)]
pub enum Pattern {
    /// A plain name.
    Ident(String),
    /// Any other pattern (a tuple, a wildcard, ...).
    Other,
}

/// A function argument as declared.
#[derive(Debug)]
pub enum FnArgDecl {
    /// `self`, `&self` or `&mut self`.
    Receiver { is_mut: bool, is_ref: bool, span: Span },
    /// `pattern: Type`.
    Typed { pat: Pattern, ty: TypeExpr, span: Span },
}

/// The receiver of a method.
#[derive(Clone, Copy, Debug)]
pub struct SelfArg {
    pub index: usize,
    pub is_mut: bool,
    pub is_ref: bool,
    pub span: Span,
}

/// A named, typed argument.
#[derive(Debug)]
pub struct TypedArg {
    pub index: usize,
    pub ident: String,
    pub ty: TypeExpr,
    pub span: Span,
}

/// A method argument: its receiver, or a named argument.
#[derive(Debug)]
pub enum BaseFnArg {
    Receiver(SelfArg),
    Typed(TypedArg),
}

impl BaseFnArg {
    pub open spec fn index_spec(&self) -> usize {
        match self {
            BaseFnArg::Receiver(r) => r.index,
            BaseFnArg::Typed(t) => t.index,
        }
    }

    /// The argument's position in the method's argument list.
    pub fn get_index(&self) -> (r: usize)
        ensures
            r == self.index_spec(),
    {
        match self {
            BaseFnArg::Receiver(r) => r.index,
            BaseFnArg::Typed(t) => t.index,
        }
    }

    /// Where the argument was declared.
    pub fn span(&self) -> (r: Span)
        ensures
            r == match self {
                BaseFnArg::Receiver(a) => a.span,
                BaseFnArg::Typed(t) => t.span,
            },
    {
        match self {
            BaseFnArg::Receiver(r) => r.span,
            BaseFnArg::Typed(t) => t.span,
        }
    }
}

/// A shape that can be read from a declared function argument.
pub trait FromFnArg: Sized {
    /// Whether `result` is what reading `arg` at position `index` gives.
    spec fn reads_as(arg: FnArgDecl, index: usize, result: Result<Self, BuildError>) -> bool;

    fn from_fn_arg(arg: FnArgDecl, index: usize) -> (r: Result<Self, BuildError>)
        ensures
            Self::reads_as(arg, index, r),
    ;
}

/// A receiver is kept with its mutability and borrow; a typed argument must be
/// bound by a plain name, else it is refused at its position.
impl FromFnArg for BaseFnArg {
    open spec fn reads_as(arg: FnArgDecl, index: usize, result: Result<BaseFnArg, BuildError>) -> bool {
        match arg {
            FnArgDecl::Receiver { is_mut, is_ref, span } => result == Ok::<BaseFnArg, BuildError>(
                BaseFnArg::Receiver(SelfArg { index, is_mut, is_ref, span }),
            ),
            FnArgDecl::Typed { pat: Pattern::Ident(ident), ty, span } => result == Ok::<
                BaseFnArg,
                BuildError,
            >(BaseFnArg::Typed(TypedArg { index, ident, ty, span })),
            FnArgDecl::Typed { pat: Pattern::Other, ty, span } => result == Err::<
                BaseFnArg,
                BuildError,
            >(BuildError { kind: BuildErrorKind::UnnamedArgument, span }),
        }
    }

    fn from_fn_arg(arg: FnArgDecl, index: usize) -> (r: Result<BaseFnArg, BuildError>) {
        match arg {
            FnArgDecl::Receiver { is_mut, is_ref, span } => Ok(
                BaseFnArg::Receiver(SelfArg { index, is_mut, is_ref, span }),
            ),
            FnArgDecl::Typed { pat, ty, span } => match pat {
                Pattern::Ident(ident) => Ok(BaseFnArg::Typed(TypedArg { index, ident, ty, span })),
                Pattern::Other => Err(BuildError { kind: BuildErrorKind::UnnamedArgument, span }),
            },
        }
    }
}

} // verus!
