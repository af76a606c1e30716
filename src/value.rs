//! The untyped value tree handed to resolvers, and the structured input errors
//! that conversions out of it produce.
use vstd::prelude::*;

verus! {

/// One node of the untyped value tree.
///
/// Integers are held exactly over the union of the signed and unsigned 64-bit
/// ranges; a float is carried as its IEEE-754 bit pattern, which this library
/// never reads.
#[derive(Debug, PartialEq)]
pub enum Value {
    Null,
    Boolean(bool),
    Int(i128),
    Float(u64),
    String(String),
    Enum(String),
    List(Vec<Value>),
    Object(Vec<Entry>),
}

/// One key of an object node.
#[derive(Debug, PartialEq)]
pub struct Entry {
    pub key: String,
    pub value: Value,
}

/// The kind of node a conversion expected to find.
#[derive(Clone, Copy, Debug, PartialEq, Eq, Structural)]
pub enum ValueKind {
    Boolean,
    Integer,
    String,
    List,
}

/// One step of an error breadcrumb.
#[derive(Clone, Debug)]
pub enum PathSegment {
    /// A field or argument name.
    Name(String),
    /// A position in a list.
    Index(usize),
}

/// Why a conversion failed.
#[derive(Clone, Copy, Debug, PartialEq, Eq, Structural)]
pub enum Reason {
    /// No value was supplied where one was required.
    Missing,
    /// A value of another kind was supplied.
    Expected(ValueKind),
}

/// A structured input error: the reason, and the breadcrumb that leads to the
/// failing node, innermost segment first (each enclosing layer appends its own).
#[derive(Clone, Debug)]
pub struct InputError {
    pub reason: Reason,
    pub path: Vec<PathSegment>,
}

impl InputError {
    /// Whether this error has the given reason and an empty breadcrumb.
    pub open spec fn is_bare(self, reason: Reason) -> bool {
        self.reason == reason && self.path@ == Seq::<PathSegment>::empty()
    }

    /// An error with the given reason and an empty breadcrumb.
    pub fn new(reason: Reason) -> (r: InputError)
        ensures
            r.is_bare(reason),
    {
        InputError { reason, path: Vec::new() }
    }
}

/// Whether `r` failed with the given reason and an empty breadcrumb.
pub open spec fn fails_bare<T>(r: Result<T, InputError>, reason: Reason) -> bool {
    r is Err && r->Err_0.is_bare(reason)
}

/// A value as an optional reference, seen as an optional value.
pub open spec fn deref_opt(v: Option<&Value>) -> Option<Value> {
    match v {
        Some(x) => Some(*x),
        None => None,
    }
}

} // verus!
