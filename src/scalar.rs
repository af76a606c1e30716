//! Custom scalars: leaf types whose values the application maps to and from
//! the value tree itself.
use vstd::prelude::*;

use crate::common::{get_type_name, opt_as_str, opt_string, opt_to_string, type_name_of, CommonObject};
use crate::registry::{Registry, TypeDefinition, TypeKind};
use crate::rename::RenameRule;

verus! {

/// A type declared as a scalar.
#[derive(Debug)]
pub struct Scalar {
    pub ident: String,
    pub name: Option<String>,
    pub doc: Option<String>,
}

impl CommonObject for Scalar {
    open spec fn name_view(&self) -> Option<Seq<char>> {
        opt_string(self.name)
    }

    open spec fn ident_view(&self) -> Seq<char> {
        self.ident@
    }

    open spec fn doc_view(&self) -> Option<Seq<char>> {
        opt_string(self.doc)
    }

    open spec fn fields_rule_view(&self) -> Option<RenameRule> {
        None
    }

    open spec fn args_rule_view(&self) -> Option<RenameRule> {
        None
    }

    fn get_name(&self) -> (r: Option<&str>) {
        opt_as_str(&self.name)
    }

    fn get_ident(&self) -> (r: &str) {
        self.ident.as_str()
    }

    fn get_doc(&self) -> (r: Option<&str>) {
        opt_as_str(&self.doc)
    }

    fn get_fields_rename_rule(&self) -> (r: Option<RenameRule>) {
        None
    }

    fn get_args_rename_rule(&self) -> (r: Option<RenameRule>) {
        None
    }
}

impl Scalar {
    /// The scalar's schema name: its explicit name, else its identifier.
    pub fn get_scalar_type_name(&self) -> (r: String)
        ensures
            r@ == type_name_of(self),
    {
        get_type_name(self)
    }

    /// Registers the scalar under its schema name, with its description.
    pub fn register(&self, registry: Registry) -> (r: Registry)
        ensures
            r.types@.len() == registry.types@.len() + 1,
            r.types@.drop_last() == registry.types@,
            r.types@.last().kind == TypeKind::Scalar,
            r.types@.last().name@ == type_name_of(self),
            opt_string(r.types@.last().description) == self.doc_view(),
            r.types@.last().implements@.len() == 0,
            r.types@.last().marks@.len() == 0,
            r.types@.last().fields@.len() == 0,
            r.root == registry.root,
            r.mutation == registry.mutation,
    {
        let def = TypeDefinition {
            kind: TypeKind::Scalar,
            name: get_type_name(self),
            description: opt_to_string(self.get_doc()),
            implements: Vec::new(),
            marks: Vec::new(),
            fields: Vec::new(),
        };
        let ghost before = registry.types@;
        let r = registry.register_type(def);
        proof {
            assert(r.types@.drop_last() =~= before);
        }
        r
    }
}

} // verus!
