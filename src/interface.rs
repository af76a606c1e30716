//! Interfaces: traits whose methods declare fields that every implementer
//! resolves with its own methods.
use vstd::prelude::*;

use crate::common::{
    display_name, effective_rule, get_type_name, name_or_renamed, opt_as_str, opt_string, opt_to_string,
    type_name_of, CommonArg, CommonField, CommonObject, Deprecation,
};
use crate::field::{fields_defined, get_define_fields_code, FieldImplementor};
use crate::fn_arg::BaseFnArg;
use crate::generics::{erases_to, replace_type_generics_with_static, TypeExpr};
use crate::interface_hash::{get_interface_hash, interface_tag};
use crate::registry::{ArgumentDefinition, Registry, Resolver, TypeDefinition, TypeKind};
use crate::rename::{renamed, RenameRule};

verus! {

/// One argument of an interface method.
#[derive(Debug)]
pub struct InterfaceMethodArg {
    pub arg: BaseFnArg,
    /// The user-defined schema name, if any.
    pub name: Option<String>,
    /// Whether the argument is bound from the execution context.
    pub ctx: bool,
    /// The rule inherited from the method.
    pub rename_args: Option<RenameRule>,
}

/// One method of an interface, declaring one field.
#[derive(Debug)]
pub struct InterfaceMethod {
    pub ident: String,
    /// The method's output type.
    pub ty: TypeExpr,
    pub doc: Option<String>,
    pub skip: bool,
    pub name: Option<String>,
    pub deprecation: Deprecation,
    pub args: Vec<InterfaceMethodArg>,
    /// The rules inherited from the interface.
    pub rename_fields: Option<RenameRule>,
    pub rename_args: Option<RenameRule>,
}

/// A trait declared as an interface.
#[derive(Debug)]
pub struct Interface {
    pub ident: String,
    pub name: Option<String>,
    pub doc: Option<String>,
    pub rename_fields: Option<RenameRule>,
    pub rename_args: Option<RenameRule>,
    pub methods: Vec<InterfaceMethod>,
}

impl CommonArg for InterfaceMethodArg {
    open spec fn name_view(&self) -> Option<Seq<char>> {
        opt_string(self.name)
    }

    open spec fn index_view(&self) -> usize {
        self.arg.index_spec()
    }

    open spec fn arg_view(&self) -> BaseFnArg {
        self.arg
    }

    open spec fn ctx_view(&self) -> bool {
        self.ctx
    }

    open spec fn arg_rule_view(&self) -> Option<RenameRule> {
        self.rename_args
    }

    fn get_name(&self) -> (r: Option<&str>) {
        opt_as_str(&self.name)
    }

    fn get_index(&self) -> (r: usize) {
        self.arg.get_index()
    }

    fn get_arg(&self) -> (r: &BaseFnArg) {
        &self.arg
    }

    fn is_marked_as_ctx(&self) -> (r: bool) {
        self.ctx
    }

    fn get_arg_rename_rule(&self) -> (r: Option<RenameRule>) {
        self.rename_args
    }
}

/// Whether an argument is declared in the schema: a named argument that is
/// not bound from the context.
pub open spec fn is_schema_arg<A: CommonArg>(a: &A) -> bool {
    a.arg_view() is Typed && !a.ctx_view()
}

/// The arguments declared in the schema, in declaration order.
pub open spec fn schema_args<A: CommonArg>(args: Seq<A>) -> Seq<A>
    decreases args.len(),
{
    if args.len() == 0 {
        Seq::empty()
    } else if is_schema_arg(&args.last()) {
        schema_args(args.drop_last()).push(args.last())
    } else {
        schema_args(args.drop_last())
    }
}

/// The schema name of an argument: its explicit name, else its identifier
/// through its rename rule.
pub open spec fn arg_name_of<A: CommonArg>(a: &A) -> Seq<char> {
    display_name(a.arg_view()->Typed_0.ident@, a.name_view(), effective_rule(a.arg_rule_view()))
}

/// Whether `def` declares the argument `a`.
pub open spec fn arg_built<A: CommonArg>(a: &A, def: ArgumentDefinition) -> bool {
    &&& def.name@ == arg_name_of(a)
    &&& erases_to(a.arg_view()->Typed_0.ty, def.ty)
}

/// Whether `defs` declare the schema arguments of `args`, one for one.
pub open spec fn args_defined<A: CommonArg>(args: Seq<A>, defs: Seq<ArgumentDefinition>) -> bool {
    &&& defs.len() == schema_args(args).len()
    &&& forall|i: int| 0 <= i < defs.len() ==> #[trigger] arg_built(&schema_args(args)[i], defs[i])
}

/// The schema name of a named argument.
pub fn get_arg_name<A: CommonArg>(arg: &A) -> (r: String)
    requires
        arg.arg_view() is Typed,
    ensures
        r@ == arg_name_of(arg),
{
    match arg.get_arg() {
        BaseFnArg::Typed(t) => name_or_renamed(
            t.ident.as_str(),
            arg.get_name(),
            arg.get_arg_rename_rule(),
        ),
        BaseFnArg::Receiver(_) => String::new(),
    }
}

/// The schema declarations of the arguments: receivers and context-bound
/// arguments are left out; the others keep their order.
pub fn get_argument_definitions<A: CommonArg>(args: &Vec<A>) -> (r: Vec<ArgumentDefinition>)
    ensures
        args_defined(args@, r@),
{
    let mut out: Vec<ArgumentDefinition> = Vec::new();
    let mut i: usize = 0;
    while i < args.len()
        invariant
            i <= args@.len(),
            args_defined(args@.subrange(0, i as int), out@),
        decreases args@.len() - i,
    {
        let ghost before = out@;
        proof {
            assert(args@.subrange(0, i + 1).drop_last() =~= args@.subrange(0, i as int));
            assert(args@.subrange(0, i + 1).last() == args@[i as int]);
        }
        let a = &args[i];
        if !a.is_marked_as_ctx() {
            match a.get_arg() {
                BaseFnArg::Typed(t) => {
                    let name = get_arg_name(a);
                    let ty = replace_type_generics_with_static(&t.ty);
                    out.push(ArgumentDefinition { name, ty });
                    proof {
                        let k = schema_args(args@.subrange(0, i + 1));
                        assert(k == schema_args(args@.subrange(0, i as int)).push(args@[i as int]));
                        assert forall|j: int| 0 <= j < out@.len() implies #[trigger] arg_built(
                            &k[j],
                            out@[j],
                        ) by {
                            if j < before.len() {
                                assert(arg_built(
                                    &schema_args(args@.subrange(0, i as int))[j],
                                    before[j],
                                ));
                            }
                        }
                    }
                },
                BaseFnArg::Receiver(_) => {},
            }
        }
        i = i + 1;
    }
    proof {
        assert(args@.subrange(0, args@.len() as int) =~= args@);
    }
    out
}

impl CommonField for InterfaceMethod {
    open spec fn name_view(&self) -> Option<Seq<char>> {
        opt_string(self.name)
    }

    open spec fn ident_view(&self) -> Seq<char> {
        self.ident@
    }

    open spec fn type_view(&self) -> TypeExpr {
        self.ty
    }

    open spec fn skip_view(&self) -> bool {
        self.skip
    }

    open spec fn doc_view(&self) -> Option<Seq<char>> {
        opt_string(self.doc)
    }

    open spec fn deprecation_view(&self) -> Deprecation {
        self.deprecation
    }

    open spec fn field_rule_view(&self) -> Option<RenameRule> {
        self.rename_fields
    }

    open spec fn args_rule_view(&self) -> Option<RenameRule> {
        self.rename_args
    }

    fn get_name(&self) -> (r: Option<&str>) {
        opt_as_str(&self.name)
    }

    fn get_ident(&self) -> (r: &str) {
        self.ident.as_str()
    }

    fn get_type(&self) -> (r: &TypeExpr) {
        &self.ty
    }

    fn get_skip(&self) -> (r: bool) {
        self.skip
    }

    fn get_doc(&self) -> (r: Option<&str>) {
        opt_as_str(&self.doc)
    }

    fn get_deprecation(&self) -> (r: &Deprecation) {
        &self.deprecation
    }

    fn get_field_rename_rule(&self) -> (r: Option<RenameRule>) {
        self.rename_fields
    }

    fn get_args_rename_rule(&self) -> (r: Option<RenameRule>) {
        self.rename_args
    }
}

/// An interface method only declares its field: it has no body of its own,
/// and each implementer resolves it with its own method.
impl FieldImplementor for InterfaceMethod {
    open spec fn can_execute(&self) -> bool {
        false
    }

    open spec fn execute_view(&self) -> Resolver {
        Resolver::Abstract(self.ident)
    }

    open spec fn defines_args(&self, defs: Seq<ArgumentDefinition>) -> bool {
        args_defined(self.args@, defs)
    }

    fn is_executable(&self) -> (r: bool) {
        false
    }

    fn get_execute_code(&self) -> (r: Resolver) {
        Resolver::Abstract(self.ident.clone())
    }

    fn get_field_argument_definition(&self) -> (r: Vec<ArgumentDefinition>) {
        get_argument_definitions(&self.args)
    }
}

impl CommonObject for Interface {
    open spec fn name_view(&self) -> Option<Seq<char>> {
        opt_string(self.name)
    }

    open spec fn ident_view(&self) -> Seq<char> {
        self.ident@
    }

    open spec fn doc_view(&self) -> Option<Seq<char>> {
        opt_string(self.doc)
    }

    open spec fn fields_rule_view(&self) -> Option<RenameRule> {
        self.rename_fields
    }

    open spec fn args_rule_view(&self) -> Option<RenameRule> {
        self.rename_args
    }

    fn get_name(&self) -> (r: Option<&str>) {
        opt_as_str(&self.name)
    }

    fn get_ident(&self) -> (r: &str) {
        self.ident.as_str()
    }

    fn get_doc(&self) -> (r: Option<&str>) {
        opt_as_str(&self.doc)
    }

    fn get_fields_rename_rule(&self) -> (r: Option<RenameRule>) {
        self.rename_fields
    }

    fn get_args_rename_rule(&self) -> (r: Option<RenameRule>) {
        self.rename_args
    }
}

/// An interface's schema name and its identity tag.
#[derive(Debug)]
pub struct InterfaceInfo {
    pub name: String,
    pub mark: u64,
}

/// The interface's schema name and the tag derived from it.
pub fn define_interface_struct(input: &Interface) -> (r: InterfaceInfo)
    ensures
        r.name@ == type_name_of(input),
        r.mark == interface_tag(type_name_of(input)),
{
    let name = get_type_name(input);
    let mark = get_interface_hash(name.as_str());
    InterfaceInfo { name, mark }
}

/// Whether `def` is the definition that registering the interface submits.
pub open spec fn interface_definition(input: &Interface, def: TypeDefinition) -> bool {
    &&& def.kind == TypeKind::Interface
    &&& def.name@ == type_name_of(input)
    &&& opt_string(def.description) == input.doc_view()
    &&& def.implements@.len() == 0
    &&& def.marks@.len() == 0
    &&& fields_defined(input.methods@, def.fields@)
}

/// Registers the interface with its non-skipped methods as fields, in
/// declaration order.
pub fn impl_register(input: &Interface, registry: Registry) -> (r: Registry)
    ensures
        r.types@.len() == registry.types@.len() + 1,
        r.types@.drop_last() == registry.types@,
        interface_definition(input, r.types@.last()),
        r.root == registry.root,
        r.mutation == registry.mutation,
{
    let def = TypeDefinition {
        kind: TypeKind::Interface,
        name: get_type_name(input),
        description: opt_to_string(input.get_doc()),
        implements: Vec::new(),
        marks: Vec::new(),
        fields: get_define_fields_code(&input.methods),
    };
    let ghost before = registry.types@;
    let r = registry.register_type(def);
    proof {
        assert(r.types@.drop_last() =~= before);
    }
    r
}

/// Argument names: an explicit name always wins; without one, the schema
/// name is the argument's rename rule (camelCase when none is set) applied to
/// its identifier.
pub proof fn lemma_arg_name<A: CommonArg>(a: &A, d: ArgumentDefinition)
    requires
        arg_built(a, d),
    ensures
        a.name_view() is Some ==> d.name@ == a.name_view()->0,
        a.name_view() is None ==> d.name@ == renamed(
            effective_rule(a.arg_rule_view()),
            a.arg_view()->Typed_0.ident@,
        ),
{
}

} // verus!
