//! Capability contracts shared by every declaration shape, and the naming
//! functions written once against them.
//!
//! A schema name is the explicit override when one is given; otherwise it is
//! derived from the identifier: a type keeps its identifier, a field or an
//! argument goes through its rename rule (camelCase when none is set).
use vstd::prelude::*;

use crate::fn_arg::BaseFnArg;
use crate::generics::TypeExpr;
use crate::rename::{renamed, RenameRule};

verus! {

/// Whether a field is deprecated, and why.
#[derive(Clone, Debug, PartialEq, Eq)]
pub enum Deprecation {
    NoDeprecated,
    Deprecated(Option<String>),
}

impl Deprecation {
    /// A field-for-field copy.
    pub fn copy(&self) -> (r: Deprecation)
        ensures
            r == *self,
    {
        match self {
            Deprecation::NoDeprecated => Deprecation::NoDeprecated,
            Deprecation::Deprecated(None) => Deprecation::Deprecated(None),
            Deprecation::Deprecated(Some(s)) => Deprecation::Deprecated(Some(s.clone())),
        }
    }
}

/// An optional string slice, seen as an optional character sequence.
pub open spec fn opt_str(s: Option<&str>) -> Option<Seq<char>> {
    match s {
        Some(x) => Some(x@),
        None => None,
    }
}

/// An optional string, seen as an optional character sequence.
pub open spec fn opt_string(s: Option<String>) -> Option<Seq<char>> {
    match s {
        Some(x) => Some(x@),
        None => None,
    }
}

/// An owned copy of an optional string slice.
pub fn opt_to_string(s: Option<&str>) -> (r: Option<String>)
    ensures
        opt_string(r) == opt_str(s),
{
    match s {
        Some(x) => Some(String::from_str(x)),
        None => None,
    }
}

/// An optional string, borrowed as a string slice.
pub fn opt_as_str(s: &Option<String>) -> (r: Option<&str>)
    ensures
        opt_str(r) == opt_string(*s),
{
    match s {
        Some(x) => Some(x.as_str()),
        None => None,
    }
}

/// What every object-like declaration exposes.
pub trait CommonObject {
    /// The user-defined schema name, if any.
    spec fn name_view(&self) -> Option<Seq<char>>;

    spec fn ident_view(&self) -> Seq<char>;

    spec fn doc_view(&self) -> Option<Seq<char>>;

    spec fn fields_rule_view(&self) -> Option<RenameRule>;

    spec fn args_rule_view(&self) -> Option<RenameRule>;

    fn get_name(&self) -> (r: Option<&str>)
        ensures
            opt_str(r) == self.name_view(),
    ;

    fn get_ident(&self) -> (r: &str)
        ensures
            r@ == self.ident_view(),
    ;

    fn get_doc(&self) -> (r: Option<&str>)
        ensures
            opt_str(r) == self.doc_view(),
    ;

    fn get_fields_rename_rule(&self) -> (r: Option<RenameRule>)
        ensures
            r == self.fields_rule_view(),
    ;

    fn get_args_rename_rule(&self) -> (r: Option<RenameRule>)
        ensures
            r == self.args_rule_view(),
    ;
}

/// What every field-like declaration exposes.
pub trait CommonField {
    /// The user-defined schema name, if any.
    spec fn name_view(&self) -> Option<Seq<char>>;

    spec fn ident_view(&self) -> Seq<char>;

    spec fn type_view(&self) -> TypeExpr;

    spec fn skip_view(&self) -> bool;

    spec fn doc_view(&self) -> Option<Seq<char>>;

    spec fn deprecation_view(&self) -> Deprecation;

    spec fn field_rule_view(&self) -> Option<RenameRule>;

    spec fn args_rule_view(&self) -> Option<RenameRule>;

    fn get_name(&self) -> (r: Option<&str>)
        ensures
            opt_str(r) == self.name_view(),
    ;

    fn get_ident(&self) -> (r: &str)
        ensures
            r@ == self.ident_view(),
    ;

    fn get_type(&self) -> (r: &TypeExpr)
        ensures
            *r == self.type_view(),
    ;

    fn get_skip(&self) -> (r: bool)
        ensures
            r == self.skip_view(),
    ;

    fn get_doc(&self) -> (r: Option<&str>)
        ensures
            opt_str(r) == self.doc_view(),
    ;

    fn get_deprecation(&self) -> (r: &Deprecation)
        ensures
            *r == self.deprecation_view(),
    ;

    fn get_field_rename_rule(&self) -> (r: Option<RenameRule>)
        ensures
            r == self.field_rule_view(),
    ;

    fn get_args_rename_rule(&self) -> (r: Option<RenameRule>)
        ensures
            r == self.args_rule_view(),
    ;
}

/// What every argument-like declaration exposes.
pub trait CommonArg {
    /// The user-defined schema name, if any.
    spec fn name_view(&self) -> Option<Seq<char>>;

    spec fn index_view(&self) -> usize;

    spec fn arg_view(&self) -> BaseFnArg;

    spec fn ctx_view(&self) -> bool;

    spec fn arg_rule_view(&self) -> Option<RenameRule>;

    fn get_name(&self) -> (r: Option<&str>)
        ensures
            opt_str(r) == self.name_view(),
    ;

    fn get_index(&self) -> (r: usize)
        ensures
            r == self.index_view(),
    ;

    fn get_arg(&self) -> (r: &BaseFnArg)
        ensures
            *r == self.arg_view(),
    ;

    fn is_marked_as_ctx(&self) -> (r: bool)
        ensures
            r == self.ctx_view(),
    ;

    fn get_arg_rename_rule(&self) -> (r: Option<RenameRule>)
        ensures
            r == self.arg_rule_view(),
    ;
}

/// The schema name: the explicit override when there is one, else `rule`
/// applied to the identifier.
pub open spec fn display_name(
    ident: Seq<char>,
    name: Option<Seq<char>>,
    rule: RenameRule,
) -> Seq<char> {
    match name {
        Some(n) => n,
        None => renamed(rule, ident),
    }
}

/// The rule a field or an argument name goes through: its own, else camelCase.
pub open spec fn effective_rule(rule: Option<RenameRule>) -> RenameRule {
    match rule {
        Some(r) => r,
        None => RenameRule::Camel,
    }
}

/// The schema name of an object-like declaration.
pub open spec fn type_name_of<O: CommonObject>(object: &O) -> Seq<char> {
    match object.name_view() {
        Some(n) => n,
        None => object.ident_view(),
    }
}

/// The schema name of a field-like declaration.
pub open spec fn field_name_of<F: CommonField>(field: &F) -> Seq<char> {
    display_name(field.ident_view(), field.name_view(), effective_rule(field.field_rule_view()))
}

/// The schema name of a field or an argument: the explicit name when there is
/// one, else the identifier through the rule (camelCase when none is set).
pub fn name_or_renamed(ident: &str, name: Option<&str>, rule: Option<RenameRule>) -> (r: String)
    ensures
        r@ == display_name(ident@, opt_str(name), effective_rule(rule)),
{
    match name {
        Some(n) => String::from_str(n),
        None => {
            let rule = match rule {
                Some(r) => r,
                None => RenameRule::Camel,
            };
            rule.apply(ident)
        },
    }
}

/// The schema name of an object-like declaration: its explicit name, else its
/// identifier.
pub fn get_type_name<O: CommonObject>(object: &O) -> (r: String)
    ensures
        r@ == type_name_of(object),
{
    match object.get_name() {
        Some(n) => String::from_str(n),
        None => String::from_str(object.get_ident()),
    }
}

/// The schema name of a field-like declaration.
pub fn get_field_name<F: CommonField>(field: &F) -> (r: String)
    ensures
        r@ == field_name_of(field),
{
    name_or_renamed(field.get_ident(), field.get_name(), field.get_field_rename_rule())
}

} // verus!
