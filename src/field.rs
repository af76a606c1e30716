//! Field generation, written once against the capability contracts: each
//! non-skipped field becomes one registered field definition, in declaration
//! order.
use vstd::prelude::*;

use crate::common::{effective_rule, field_name_of, get_field_name, opt_string, opt_to_string, CommonField};
use crate::generics::{erases_to, replace_type_generics_with_static};
use crate::rename::renamed;
use crate::registry::{ArgumentDefinition, FieldDefinition, Resolver};

verus! {

/// What a field shape contributes to its registered definition.
pub trait FieldImplementor: CommonField {
    /// Whether the shape has a body of its own to execute. An interface's
    /// method declaration has none.
    spec fn can_execute(&self) -> bool;

    /// How an executable shape obtains its raw output.
    spec fn execute_view(&self) -> Resolver;

    /// Whether `args` are the field's declared arguments.
    spec fn defines_args(&self, args: Seq<ArgumentDefinition>) -> bool;

    fn is_executable(&self) -> (r: bool)
        ensures
            r == self.can_execute(),
    ;

    /// How the field obtains its raw output. Only shapes with a body of their
    /// own have one: no caller can ask an interface declaration for it.
    fn get_execute_code(&self) -> (r: Resolver)
        requires
            self.can_execute(),
        ensures
            r == self.execute_view(),
    ;

    fn get_field_argument_definition(&self) -> (r: Vec<ArgumentDefinition>)
        ensures
            self.defines_args(r@),
    ;
}

/// Whether `d` is the registered definition of the field `f`.
pub open spec fn field_built<F: FieldImplementor>(f: &F, d: FieldDefinition) -> bool {
    &&& d.name@ == field_name_of(f)
    &&& erases_to(f.type_view(), d.ty)
    &&& f.defines_args(d.args@)
    &&& opt_string(d.description) == f.doc_view()
    &&& d.deprecation == f.deprecation_view()
    &&& if f.can_execute() {
        d.resolver == f.execute_view()
    } else {
        d.resolver is Abstract && d.resolver->Abstract_0@ == f.ident_view()
    }
}

/// The registered definition of one field.
pub fn define_field<F: FieldImplementor>(field: &F) -> (r: FieldDefinition)
    ensures
        field_built(field, r),
{
    let name = get_field_name(field);
    let ty = replace_type_generics_with_static(field.get_type());
    let args = field.get_field_argument_definition();
    let description = opt_to_string(field.get_doc());
    let deprecation = field.get_deprecation().copy();
    let resolver = if field.is_executable() {
        field.get_execute_code()
    } else {
        Resolver::Abstract(String::from_str(field.get_ident()))
    };
    FieldDefinition { name, ty, args, description, deprecation, resolver }
}

/// The fields that are not skipped, in declaration order.
pub open spec fn kept<F: CommonField>(fields: Seq<F>) -> Seq<F>
    decreases fields.len(),
{
    if fields.len() == 0 {
        Seq::empty()
    } else if fields.last().skip_view() {
        kept(fields.drop_last())
    } else {
        kept(fields.drop_last()).push(fields.last())
    }
}

/// Whether `defs` are the definitions of the non-skipped `fields`, one for one
/// and in the same order.
pub open spec fn fields_defined<F: FieldImplementor>(
    fields: Seq<F>,
    defs: Seq<FieldDefinition>,
) -> bool {
    &&& defs.len() == kept(fields).len()
    &&& forall|i: int| 0 <= i < defs.len() ==> #[trigger] field_built(&kept(fields)[i], defs[i])
}

/// The definitions of all non-skipped fields, in declaration order.
pub fn get_define_fields_code<F: FieldImplementor>(fields: &Vec<F>) -> (r: Vec<FieldDefinition>)
    ensures
        fields_defined(fields@, r@),
{
    let mut out: Vec<FieldDefinition> = Vec::new();
    let mut i: usize = 0;
    while i < fields.len()
        invariant
            i <= fields@.len(),
            fields_defined(fields@.subrange(0, i as int), out@),
        decreases fields@.len() - i,
    {
        let ghost before = out@;
        proof {
            assert(fields@.subrange(0, i + 1).drop_last() =~= fields@.subrange(0, i as int));
            assert(fields@.subrange(0, i + 1).last() == fields@[i as int]);
        }
        if !fields[i].get_skip() {
            let def = define_field(&fields[i]);
            out.push(def);
            proof {
                let k = kept(fields@.subrange(0, i + 1));
                assert(k == kept(fields@.subrange(0, i as int)).push(fields@[i as int]));
                assert forall|j: int| 0 <= j < out@.len() implies #[trigger] field_built(
                    &k[j],
                    out@[j],
                ) by {
                    if j < before.len() {
                        assert(field_built(&kept(fields@.subrange(0, i as int))[j], before[j]));
                    }
                }
            }
        }
        i = i + 1;
    }
    proof {
        assert(fields@.subrange(0, fields@.len() as int) =~= fields@);
    }
    out
}

/// Field names: an explicit name always wins; without one, the schema name is
/// the field's rename rule (camelCase when none is set) applied to its
/// identifier.
pub proof fn lemma_field_name<F: FieldImplementor>(f: &F, d: FieldDefinition)
    requires
        field_built(f, d),
    ensures
        f.name_view() is Some ==> d.name@ == f.name_view()->0,
        f.name_view() is None ==> d.name@ == renamed(
            effective_rule(f.field_rule_view()),
            f.ident_view(),
        ),
{
}

} // verus!
