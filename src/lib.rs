//! Registration and value-conversion core of a dynamic GraphQL schema builder.
//!
//! Declarations of objects, interfaces and their fields are described by plain
//! descriptors; registration routines fold them, in declaration order, into a
//! [`registry::Registry`]; the conversion layer maps the untyped input value tree
//! onto typed values.
pub mod common;
pub mod dispatch;
pub mod errors;
pub mod field;
pub mod fn_arg;
pub mod from_value;
pub mod generics;
pub mod interface;
pub mod interface_attr;
pub mod interface_hash;
pub mod registry;
pub mod rename;
pub mod scalar;
pub mod schema_data;
pub mod simple_object;
pub mod tuple_access;
pub mod value;
