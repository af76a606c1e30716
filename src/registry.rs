//! The registry that registration routines fill: type definitions in the
//! order they were registered, and the root and mutation-root slots.
//!
//! Slot policy: a root (or mutation root) may be recorded once; a second
//! declaration is refused with an error, whichever type makes it.
use vstd::prelude::*;

use proc_macro2::Span;

use crate::common::Deprecation;
use crate::generics::TypeExpr;

verus! {

/// How a registered field obtains its raw output.
#[derive(Debug)]
pub enum Resolver {
    /// Read the stored member with this identifier from the parent.
    Member(String),
    /// Invoke the parent's method with this identifier.
    Method(String),
    /// Declared by an interface: the interface itself never resolves it;
    /// each implementer invokes its own method with this identifier.
    Abstract(String),
}

/// The tag that a concrete type stores for an interface it implements.
#[derive(Debug)]
pub struct InterfaceMark {
    pub interface: String,
    pub tag: u64,
}

impl InterfaceMark {
    /// A field-for-field copy.
    pub fn copy(&self) -> (r: InterfaceMark)
        ensures
            r == *self,
    {
        InterfaceMark { interface: self.interface.clone(), tag: self.tag }
    }
}

/// A declared argument of a field.
#[derive(Debug)]
pub struct ArgumentDefinition {
    pub name: String,
    pub ty: TypeExpr,
}

/// A registered field.
#[derive(Debug)]
pub struct FieldDefinition {
    pub name: String,
    pub ty: TypeExpr,
    pub args: Vec<ArgumentDefinition>,
    pub description: Option<String>,
    pub deprecation: Deprecation,
    pub resolver: Resolver,
}

/// What kind of type a definition declares.
#[derive(Clone, Copy, Debug, PartialEq, Eq, Structural)]
pub enum TypeKind {
    Object,
    Interface,
    Scalar,
}

/// A registered type.
#[derive(Debug)]
pub struct TypeDefinition {
    pub kind: TypeKind,
    pub name: String,
    pub description: Option<String>,
    /// Names of the interfaces the type implements, in declaration order.
    pub implements: Vec<String>,
    /// The tags the type stores, one per interface it is marked with.
    pub marks: Vec<InterfaceMark>,
    /// Fields in declaration order.
    pub fields: Vec<FieldDefinition>,
}

/// Why a registration was refused.
#[derive(Debug)]
pub enum RegisterError {
    /// A declared `implements` whose stored tag is not the interface's own.
    InterfaceMarkMismatch { interface: String, span: Span },
    /// A root was already recorded, under this name.
    RootConflict(String),
    /// A mutation root was already recorded, under this name.
    MutationRootConflict(String),
}

/// The accumulator of type definitions, passed by value from one registration
/// to the next.
#[derive(Debug)]
pub struct Registry {
    pub types: Vec<TypeDefinition>,
    pub root: Option<String>,
    pub mutation: Option<String>,
}

impl Registry {
    pub fn new() -> (r: Registry)
        ensures
            r.types@.len() == 0,
            r.root is None,
            r.mutation is None,
    {
        Registry { types: Vec::new(), root: None, mutation: None }
    }

    /// Records the root type's name; refused when a root is already recorded.
    pub fn set_root(self, name: String) -> (r: Result<Registry, RegisterError>)
        ensures
            self.root is None ==> r == Ok::<Registry, RegisterError>(
                Registry { root: Some(name), ..self },
            ),
            self.root is Some ==> r == Err::<Registry, RegisterError>(
                RegisterError::RootConflict(self.root->0),
            ),
    {
        match self.root {
            Some(existing) => Err(RegisterError::RootConflict(existing)),
            None => Ok(Registry { types: self.types, root: Some(name), mutation: self.mutation }),
        }
    }

    /// Records the mutation root's name; refused when one is already recorded.
    pub fn set_mutation(self, name: String) -> (r: Result<Registry, RegisterError>)
        ensures
            self.mutation is None ==> r == Ok::<Registry, RegisterError>(
                Registry { mutation: Some(name), ..self },
            ),
            self.mutation is Some ==> r == Err::<Registry, RegisterError>(
                RegisterError::MutationRootConflict(self.mutation->0),
            ),
    {
        match self.mutation {
            Some(existing) => Err(RegisterError::MutationRootConflict(existing)),
            None => Ok(Registry { types: self.types, root: self.root, mutation: Some(name) }),
        }
    }

    /// Appends a finished type definition.
    pub fn register_type(self, def: TypeDefinition) -> (r: Registry)
        ensures
            r.types@ == self.types@.push(def),
            r.root == self.root,
            r.mutation == self.mutation,
    {
        let mut types = self.types;
        types.push(def);
        Registry { types, root: self.root, mutation: self.mutation }
    }
}

} // verus!
