//! Objects whose fields are the stored members of a struct.
use vstd::prelude::*;

use crate::common::{
    field_name_of, get_type_name, opt_as_str, opt_string, opt_to_string, type_name_of, CommonField,
    CommonObject, Deprecation,
};
use crate::field::{field_built, fields_defined, get_define_fields_code, kept, FieldImplementor};
use crate::generics::{Generics, TypeExpr};
use crate::interface_attr::InterfaceAttr;
use crate::interface_hash::{get_interface_hash, interface_tag};
use crate::registry::{
    ArgumentDefinition, InterfaceMark, RegisterError, Registry, Resolver, TypeDefinition, TypeKind,
};
use crate::rename::RenameRule;

verus! {

/// What a member's attributes say.
#[derive(Debug)]
pub struct SimpleObjectFieldAttrs {
    pub skip: bool,
    pub name: Option<String>,
    pub deprecation: Deprecation,
}

/// What a member inherits from its object.
#[derive(Clone, Copy, Debug)]
pub struct SimpleObjectFieldContext {
    pub rename_fields: Option<RenameRule>,
}

impl Default for SimpleObjectFieldContext {
    fn default() -> (r: SimpleObjectFieldContext)
        ensures
            r.rename_fields is None,
    {
        SimpleObjectFieldContext { rename_fields: None }
    }
}

/// One member of the struct.
#[derive(Debug)]
pub struct SimpleObjectField {
    pub ident: String,
    pub ty: TypeExpr,
    pub doc: Option<String>,
    pub attrs: SimpleObjectFieldAttrs,
    pub ctx: SimpleObjectFieldContext,
}

/// What the struct's attributes say.
#[derive(Debug)]
pub struct SimpleObjectAttrs {
    pub root: bool,
    pub mutation_root: bool,
    pub name: Option<String>,
    pub rename_fields: Option<RenameRule>,
    pub mark_as: Vec<InterfaceAttr>,
    pub mark_with: Vec<InterfaceAttr>,
    pub implement: Vec<InterfaceAttr>,
}

/// A struct declared as an object.
#[derive(Debug)]
pub struct SimpleObject {
    pub ident: String,
    pub generics: Generics,
    pub doc: Option<String>,
    pub attrs: SimpleObjectAttrs,
    pub fields: Vec<SimpleObjectField>,
    /// The tags the type stores for the interfaces it is marked with.
    pub marks: Vec<InterfaceMark>,
}

/// The interfaces an object names, in the order its registration declares
/// them: `implement`, then `mark_as`, then `mark_with`.
pub open spec fn interface_attrs(attrs: &SimpleObjectAttrs) -> Seq<InterfaceAttr> {
    attrs.implement@ + attrs.mark_as@ + attrs.mark_with@
}

/// Whether `marks` holds, for each of `names`, the name and its own tag.
pub open spec fn marks_for(names: Seq<InterfaceAttr>, marks: Seq<InterfaceMark>) -> bool {
    &&& marks.len() == names.len()
    &&& forall|i: int|
        0 <= i < names.len() ==> {
            &&& #[trigger] marks[i].interface@ == names[i].inner@
            &&& marks[i].tag == interface_tag(names[i].inner@)
        }
}

/// The marks a type stores for the interfaces it names: each one's own tag.
pub fn impl_interface_mark(attrs: &SimpleObjectAttrs) -> (r: Vec<InterfaceMark>)
    ensures
        marks_for(interface_attrs(attrs), r@),
{
    let mut out: Vec<InterfaceMark> = Vec::new();
    let ghost names = interface_attrs(attrs);
    let mut part: usize = 0;
    while part < 3
        invariant
            names == interface_attrs(attrs),
            part <= 3,
            out@.len() == if part == 0 {
                0
            } else if part == 1 {
                attrs.implement@.len()
            } else if part == 2 {
                attrs.implement@.len() + attrs.mark_as@.len()
            } else {
                names.len()
            },
            forall|k: int|
                0 <= k < out@.len() ==> {
                    &&& #[trigger] out@[k].interface@ == names[k].inner@
                    &&& out@[k].tag == interface_tag(names[k].inner@)
                },
        decreases 3 - part,
    {
        let list = if part == 0 {
            &attrs.implement
        } else if part == 1 {
            &attrs.mark_as
        } else {
            &attrs.mark_with
        };
        let ghost base = out@.len();
        proof {
            assert forall|j: int| 0 <= j < list@.len() implies names[base + j] == list@[j] by {
                if part == 0 {
                    assert(names[base + j] == attrs.implement@[j]);
                } else if part == 1 {
                    assert(names[base + j] == attrs.mark_as@[j]);
                } else {
                    assert(names[base + j] == attrs.mark_with@[j]);
                }
            }
        }
        let mut i: usize = 0;
        while i < list.len()
            invariant
                names == interface_attrs(attrs),
                out@.len() == base + i,
                i <= list@.len(),
                base + list@.len() <= names.len(),
                forall|j: int| 0 <= j < list@.len() ==> names[base + j] == #[trigger] list@[j],
                forall|k: int|
                    0 <= k < out@.len() ==> {
                        &&& #[trigger] out@[k].interface@ == names[k].inner@
                        &&& out@[k].tag == interface_tag(names[k].inner@)
                    },
            decreases list@.len() - i,
        {
            let name = &list[i].inner;
            let tag = get_interface_hash(name.as_str());
            out.push(InterfaceMark { interface: name.clone(), tag });
            proof {
                assert(names[base + i] == list@[i as int]);
            }
            i = i + 1;
        }
        part = part + 1;
    }
    out
}

/// Whether `marks` stores the tag of the interface called `name`.
pub open spec fn stores_mark(marks: Seq<InterfaceMark>, name: Seq<char>) -> bool {
    exists|i: int|
        0 <= i < marks.len() && #[trigger] marks[i].interface@ == name && marks[i].tag
            == interface_tag(name)
}

/// The first `implement` declaration, from `start` on, whose tag the type does
/// not store.
pub open spec fn first_unmarked(
    implement: Seq<InterfaceAttr>,
    marks: Seq<InterfaceMark>,
    start: int,
) -> Option<int>
    decreases implement.len() - start,
{
    if start < 0 || start >= implement.len() {
        None
    } else if !stores_mark(marks, implement[start].inner@) {
        Some(start)
    } else {
        first_unmarked(implement, marks, start + 1)
    }
}

/// Whether the type stores the tag of the interface called `name`.
pub(crate) fn has_mark(marks: &Vec<InterfaceMark>, name: &String) -> (r: bool)
    ensures
        r == stores_mark(marks@, name@),
{
    let tag = get_interface_hash(name.as_str());
    let mut i: usize = 0;
    while i < marks.len()
        invariant
            i <= marks@.len(),
            tag == interface_tag(name@),
            forall|j: int|
                0 <= j < i ==> !(#[trigger] marks@[j].interface@ == name@ && marks@[j].tag
                    == interface_tag(name@)),
        decreases marks@.len() - i,
    {
        if marks[i].tag == tag && marks[i].interface == *name {
            return true;
        }
        i = i + 1;
    }
    false
}

/// Whether `def` is the definition that registering `object` submits.
pub open spec fn object_definition(object: &SimpleObject, def: TypeDefinition) -> bool {
    &&& def.kind == TypeKind::Object
    &&& def.name@ == type_name_of(object)
    &&& opt_string(def.description) == object.doc_view()
    &&& def.implements@.len() == interface_attrs(&object.attrs).len()
    &&& forall|i: int|
        0 <= i < def.implements@.len() ==> #[trigger] def.implements@[i]@ == interface_attrs(
            &object.attrs,
        )[i].inner@
    &&& def.marks@ == object.marks@
    &&& fields_defined(object.fields@, def.fields@)
}

/// Whether `r` is the outcome of registering `object` into `registry`.
pub open spec fn registers(
    object: &SimpleObject,
    registry: Registry,
    r: Result<Registry, RegisterError>,
) -> bool {
    if object.attrs.root && registry.root is Some {
        r == Err::<Registry, RegisterError>(RegisterError::RootConflict(registry.root->0))
    } else if object.attrs.mutation_root && registry.mutation is Some {
        r == Err::<Registry, RegisterError>(
            RegisterError::MutationRootConflict(registry.mutation->0),
        )
    } else if first_unmarked(object.attrs.implement@, object.marks@, 0) is Some {
        let attr = object.attrs.implement@[first_unmarked(
            object.attrs.implement@,
            object.marks@,
            0,
        )->0];
        r == Err::<Registry, RegisterError>(
            RegisterError::InterfaceMarkMismatch { interface: attr.inner, span: attr.span },
        )
    } else {
        &&& r is Ok
        &&& r->Ok_0.types@.len() == registry.types@.len() + 1
        &&& r->Ok_0.types@.drop_last() == registry.types@
        &&& object_definition(object, r->Ok_0.types@.last())
        &&& if object.attrs.root {
            r->Ok_0.root is Some && r->Ok_0.root->0@ == type_name_of(object)
        } else {
            r->Ok_0.root == registry.root
        }
        &&& if object.attrs.mutation_root {
            r->Ok_0.mutation is Some && r->Ok_0.mutation->0@ == type_name_of(object)
        } else {
            r->Ok_0.mutation == registry.mutation
        }
    }
}

/// Appends the names of `list` to `out`.
fn push_names(out: &mut Vec<String>, list: &Vec<InterfaceAttr>)
    ensures
        final(out)@.len() == old(out)@.len() + list@.len(),
        forall|k: int| 0 <= k < old(out)@.len() ==> #[trigger] final(out)@[k] == old(out)@[k],
        forall|j: int|
            0 <= j < list@.len() ==> #[trigger] final(out)@[old(out)@.len() + j]@ == list@[j].inner@,
{
    let ghost start = out@;
    let mut i: usize = 0;
    while i < list.len()
        invariant
            i <= list@.len(),
            out@.len() == start.len() + i,
            forall|k: int| 0 <= k < start.len() ==> #[trigger] out@[k] == start[k],
            forall|j: int| 0 <= j < i ==> #[trigger] out@[start.len() + j]@ == list@[j].inner@,
        decreases list@.len() - i,
    {
        out.push(list[i].inner.clone());
        i = i + 1;
    }
}

/// The names of the interfaces the object declares, in registration order.
fn interface_names(attrs: &SimpleObjectAttrs) -> (r: Vec<String>)
    ensures
        r@.len() == interface_attrs(attrs).len(),
        forall|i: int| 0 <= i < r@.len() ==> #[trigger] r@[i]@ == interface_attrs(attrs)[i].inner@,
{
    let mut out: Vec<String> = Vec::new();
    push_names(&mut out, &attrs.implement);
    let ghost first = out@;
    push_names(&mut out, &attrs.mark_as);
    let ghost second = out@;
    push_names(&mut out, &attrs.mark_with);
    proof {
        let names = interface_attrs(attrs);
        let a = attrs.implement@.len();
        let b = attrs.mark_as@.len();
        assert forall|i: int| 0 <= i < out@.len() implies #[trigger] out@[i]@ == names[i].inner@ by {
            if i < a {
                assert(names[i] == attrs.implement@[i]);
                assert(first[0 + i]@ == attrs.implement@[i].inner@);
                assert(second[i] == first[i]);
            } else if i < a + b {
                assert(names[i] == attrs.mark_as@[i - a]);
                assert(out@[a + (i - a)]@ == attrs.mark_as@[i - a].inner@);
            } else {
                assert(names[i] == attrs.mark_with@[i - a - b]);
                assert(out@[a + b + (i - a - b)]@ == attrs.mark_with@[i - a - b].inner@);
            }
        }
    }
    out
}

fn copy_marks(marks: &Vec<InterfaceMark>) -> (r: Vec<InterfaceMark>)
    ensures
        r@ == marks@,
{
    let mut out: Vec<InterfaceMark> = Vec::new();
    let mut i: usize = 0;
    while i < marks.len()
        invariant
            i <= marks@.len(),
            out@ == marks@.subrange(0, i as int),
        decreases marks@.len() - i,
    {
        out.push(marks[i].copy());
        proof {
            assert(out@ =~= marks@.subrange(0, i + 1));
        }
        i = i + 1;
    }
    proof {
        assert(marks@.subrange(0, marks@.len() as int) =~= marks@);
    }
    out
}

/// The method that reads a member is called `__resolve_` and the member's
/// identifier.
pub const RESOLVER_PREFIX: &'static str = "__resolve_";

/// The name of the generated method that reads the member `field`.
pub fn get_resolver_ident<F: CommonField>(field: &F) -> (r: String)
    ensures
        r@ == RESOLVER_PREFIX@ + field.ident_view(),
{
    let mut name = String::from_str(RESOLVER_PREFIX);
    name.append(field.get_ident());
    name
}

/// A generated method that reads one member of the struct.
#[derive(Debug)]
pub struct ResolverFn {
    /// The method's name.
    pub name: String,
    /// The member it reads.
    pub member: String,
    /// The member's position among the struct's fields.
    pub index: usize,
}

/// The method that reads the member at `index`.
pub fn impl_resolver(field: &SimpleObjectField, index: usize) -> (r: ResolverFn)
    ensures
        r.member@ == field.ident@,
        r.name@ == RESOLVER_PREFIX@ + field.ident@,
        r.index == index,
{
    ResolverFn { name: get_resolver_ident(field), member: field.ident.clone(), index }
}

/// The member-reading methods of an object: one per non-skipped member, in
/// declaration order.
pub fn impl_resolvers(object: &SimpleObject) -> (r: Vec<ResolverFn>)
    ensures
        r@.len() == kept(object.fields@).len(),
        forall|i: int|
            0 <= i < r@.len() ==> {
                &&& #[trigger] r@[i].member@ == kept(object.fields@)[i].ident@
                &&& r@[i].name@ == RESOLVER_PREFIX@ + r@[i].member@
                &&& r@[i].index < object.fields@.len()
                &&& object.fields@[r@[i].index as int] == kept(object.fields@)[i]
            },
{
    let fields = &object.fields;
    let mut out: Vec<ResolverFn> = Vec::new();
    let mut i: usize = 0;
    while i < fields.len()
        invariant
            fields == &object.fields,
            i <= fields@.len(),
            out@.len() == kept(fields@.subrange(0, i as int)).len(),
            forall|k: int|
                0 <= k < out@.len() ==> {
                    &&& #[trigger] out@[k].member@ == kept(fields@.subrange(0, i as int))[k].ident@
                    &&& out@[k].name@ == RESOLVER_PREFIX@ + out@[k].member@
                    &&& out@[k].index < i
                    &&& fields@[out@[k].index as int] == kept(fields@.subrange(0, i as int))[k]
                },
        decreases fields@.len() - i,
    {
        proof {
            assert(fields@.subrange(0, i + 1).drop_last() =~= fields@.subrange(0, i as int));
            assert(fields@.subrange(0, i + 1).last() == fields@[i as int]);
        }
        if !fields[i].attrs.skip {
            out.push(impl_resolver(&fields[i], i));
        }
        i = i + 1;
    }
    proof {
        assert(fields@.subrange(0, fields@.len() as int) =~= fields@);
    }
    out
}

/// Records the object's name in the root and mutation-root slots it claims.
fn root_register_code(object: &SimpleObject, registry: Registry, name: &String) -> (r: Result<
    Registry,
    RegisterError,
>)
    ensures
        if object.attrs.root && registry.root is Some {
            r == Err::<Registry, RegisterError>(RegisterError::RootConflict(registry.root->0))
        } else if object.attrs.mutation_root && registry.mutation is Some {
            r == Err::<Registry, RegisterError>(
                RegisterError::MutationRootConflict(registry.mutation->0),
            )
        } else {
            &&& r is Ok
            &&& r->Ok_0.types == registry.types
            &&& r->Ok_0.root == if object.attrs.root {
                Some(*name)
            } else {
                registry.root
            }
            &&& r->Ok_0.mutation == if object.attrs.mutation_root {
                Some(*name)
            } else {
                registry.mutation
            }
        },
{
    let registry = if object.attrs.root {
        match registry.set_root(name.clone()) {
            Ok(reg) => reg,
            Err(e) => return Err(e),
        }
    } else {
        registry
    };
    if object.attrs.mutation_root {
        registry.set_mutation(name.clone())
    } else {
        Ok(registry)
    }
}

impl SimpleObject {
    /// Registers the object: claims the root slots it declares, checks that it
    /// stores the tag of every interface it declares to implement, then submits
    /// its definition with its non-skipped fields in declaration order.
    pub fn register(&self, registry: Registry) -> (r: Result<Registry, RegisterError>)
        ensures
            registers(self, registry, r),
    {
        let name = get_type_name(self);
        let reg = match root_register_code(self, registry, &name) {
            Ok(reg) => reg,
            Err(e) => return Err(e),
        };
        let implement = &self.attrs.implement;
        let mut i: usize = 0;
        while i < implement.len()
            invariant
                implement == &self.attrs.implement,
                !(self.attrs.root && registry.root is Some),
                !(self.attrs.mutation_root && registry.mutation is Some),
                i <= implement@.len(),
                first_unmarked(implement@, self.marks@, 0) == first_unmarked(
                    implement@,
                    self.marks@,
                    i as int,
                ),
            decreases implement@.len() - i,
        {
            if !has_mark(&self.marks, &implement[i].inner) {
                return Err(
                    RegisterError::InterfaceMarkMismatch {
                        interface: implement[i].inner.clone(),
                        span: implement[i].span,
                    },
                );
            }
            i = i + 1;
        }
        let def = TypeDefinition {
            kind: TypeKind::Object,
            name,
            description: opt_to_string(self.get_doc()),
            implements: interface_names(&self.attrs),
            marks: copy_marks(&self.marks),
            fields: get_define_fields_code(&self.fields),
        };
        let ghost before = reg.types@;
        let reg = reg.register_type(def);
        proof {
            assert(reg.types@.drop_last() =~= before);
        }
        Ok(reg)
    }

    /// An object from its parts: every member inherits the object's rename
    /// rule, and the type stores the tag of each interface it names.
    pub fn new(
        ident: String,
        generics: Generics,
        doc: Option<String>,
        attrs: SimpleObjectAttrs,
        fields: Vec<SimpleObjectField>,
    ) -> (r: SimpleObject)
        ensures
            r.ident == ident,
            r.generics == generics,
            r.doc == doc,
            r.attrs == attrs,
            r.fields@.len() == fields@.len(),
            forall|i: int|
                0 <= i < fields@.len() ==> #[trigger] r.fields@[i] == (SimpleObjectField {
                    ctx: SimpleObjectFieldContext { rename_fields: attrs.rename_fields },
                    ..fields@[i]
                }),
            marks_for(interface_attrs(&attrs), r.marks@),
    {
        let marks = impl_interface_mark(&attrs);
        let mut object = SimpleObject { ident, generics, doc, attrs, fields: Vec::new(), marks };
        let ctx = object.make_context();
        let mut rest = fields;
        let ghost given = rest@;
        let n = rest.len();
        let mut i: usize = 0;
        while rest.len() > 0
            invariant
                n == given.len(),
                object.ident == ident,
                object.generics == generics,
                object.doc == doc,
                object.attrs == attrs,
                marks_for(interface_attrs(&attrs), object.marks@),
                i + rest@.len() == given.len(),
                rest@ == given.subrange(i as int, given.len() as int),
                ctx.rename_fields == object.attrs.rename_fields,
                object.fields@.len() == i,
                forall|k: int|
                    0 <= k < i ==> #[trigger] object.fields@[k] == (SimpleObjectField {
                        ctx: SimpleObjectFieldContext { rename_fields: object.attrs.rename_fields },
                        ..given[k]
                    }),
            decreases rest@.len(),
        {
            let f = rest.remove(0);
            object.fields.push(
                SimpleObjectField { ident: f.ident, ty: f.ty, doc: f.doc, attrs: f.attrs, ctx },
            );
            proof {
                assert(rest@ =~= given.subrange(i + 1, given.len() as int));
            }
            i = i + 1;
        }
        object
    }

    /// The context every member inherits.
    pub fn make_context(&self) -> (r: SimpleObjectFieldContext)
        ensures
            r.rename_fields == self.attrs.rename_fields,
    {
        SimpleObjectFieldContext { rename_fields: self.attrs.rename_fields }
    }

    pub fn get_mark_as(&self) -> (r: &Vec<InterfaceAttr>)
        ensures
            *r == self.attrs.mark_as,
    {
        &self.attrs.mark_as
    }

    pub fn get_mark_with(&self) -> (r: &Vec<InterfaceAttr>)
        ensures
            *r == self.attrs.mark_with,
    {
        &self.attrs.mark_with
    }

    pub fn get_implement(&self) -> (r: &Vec<InterfaceAttr>)
        ensures
            *r == self.attrs.implement,
    {
        &self.attrs.implement
    }

    pub fn get_fields(&self) -> (r: &Vec<SimpleObjectField>)
        ensures
            *r == self.fields,
    {
        &self.fields
    }

    pub fn get_generics(&self) -> (r: &Generics)
        ensures
            *r == self.generics,
    {
        &self.generics
    }
}

impl CommonObject for SimpleObject {
    open spec fn name_view(&self) -> Option<Seq<char>> {
        opt_string(self.attrs.name)
    }

    open spec fn ident_view(&self) -> Seq<char> {
        self.ident@
    }

    open spec fn doc_view(&self) -> Option<Seq<char>> {
        opt_string(self.doc)
    }

    open spec fn fields_rule_view(&self) -> Option<RenameRule> {
        self.attrs.rename_fields
    }

    open spec fn args_rule_view(&self) -> Option<RenameRule> {
        None
    }

    fn get_name(&self) -> (r: Option<&str>) {
        opt_as_str(&self.attrs.name)
    }

    fn get_ident(&self) -> (r: &str) {
        self.ident.as_str()
    }

    fn get_doc(&self) -> (r: Option<&str>) {
        opt_as_str(&self.doc)
    }

    fn get_fields_rename_rule(&self) -> (r: Option<RenameRule>) {
        self.attrs.rename_fields
    }

    fn get_args_rename_rule(&self) -> (r: Option<RenameRule>) {
        None
    }
}

impl CommonField for SimpleObjectField {
    open spec fn name_view(&self) -> Option<Seq<char>> {
        opt_string(self.attrs.name)
    }

    open spec fn ident_view(&self) -> Seq<char> {
        self.ident@
    }

    open spec fn type_view(&self) -> TypeExpr {
        self.ty
    }

    open spec fn skip_view(&self) -> bool {
        self.attrs.skip
    }

    open spec fn doc_view(&self) -> Option<Seq<char>> {
        opt_string(self.doc)
    }

    open spec fn deprecation_view(&self) -> Deprecation {
        self.attrs.deprecation
    }

    open spec fn field_rule_view(&self) -> Option<RenameRule> {
        self.ctx.rename_fields
    }

    open spec fn args_rule_view(&self) -> Option<RenameRule> {
        None
    }

    fn get_name(&self) -> (r: Option<&str>) {
        opt_as_str(&self.attrs.name)
    }

    fn get_ident(&self) -> (r: &str) {
        self.ident.as_str()
    }

    fn get_type(&self) -> (r: &TypeExpr) {
        &self.ty
    }

    fn get_skip(&self) -> (r: bool) {
        self.attrs.skip
    }

    fn get_doc(&self) -> (r: Option<&str>) {
        opt_as_str(&self.doc)
    }

    fn get_deprecation(&self) -> (r: &Deprecation) {
        &self.attrs.deprecation
    }

    fn get_field_rename_rule(&self) -> (r: Option<RenameRule>) {
        self.ctx.rename_fields
    }

    fn get_args_rename_rule(&self) -> (r: Option<RenameRule>) {
        None
    }
}

/// A member is read straight from the parent and takes no arguments.
impl FieldImplementor for SimpleObjectField {
    open spec fn can_execute(&self) -> bool {
        true
    }

    open spec fn execute_view(&self) -> Resolver {
        Resolver::Member(self.ident)
    }

    open spec fn defines_args(&self, args: Seq<ArgumentDefinition>) -> bool {
        args.len() == 0
    }

    fn is_executable(&self) -> (r: bool) {
        true
    }

    fn get_execute_code(&self) -> (r: Resolver) {
        Resolver::Member(self.ident.clone())
    }

    fn get_field_argument_definition(&self) -> (r: Vec<ArgumentDefinition>) {
        Vec::new()
    }
}

/// Whether a member is registered as a field.
pub open spec fn unskipped() -> spec_fn(SimpleObjectField) -> bool {
    |f: SimpleObjectField| !f.attrs.skip
}

proof fn lemma_kept_is_filter(fields: Seq<SimpleObjectField>)
    ensures
        kept(fields) == fields.filter(unskipped()),
    decreases fields.len(),
{
    reveal(Seq::filter);
    if fields.len() > 0 {
        lemma_kept_is_filter(fields.drop_last());
        assert(fields.filter(unskipped()) == if (unskipped())(fields.last()) {
            fields.drop_last().filter(unskipped()).push(fields.last())
        } else {
            fields.drop_last().filter(unskipped())
        });
    } else {
        assert(kept(fields) =~= fields.filter(unskipped()));
    }
}

/// Registration keeps declaration order: the registered fields are exactly
/// the non-skipped members in the order they were declared, each under its
/// schema name and read from that member.
pub proof fn lemma_field_order(
    object: &SimpleObject,
    registry: Registry,
    r: Result<Registry, RegisterError>,
)
    requires
        registers(object, registry, r),
        r is Ok,
    ensures
        ({
            let defs = r->Ok_0.types@.last().fields@;
            let members = object.fields@.filter(unskipped());
            &&& defs.len() == members.len()
            &&& forall|i: int|
                0 <= i < defs.len() ==> {
                    &&& #[trigger] defs[i].name@ == field_name_of(&members[i])
                    &&& defs[i].resolver == Resolver::Member(members[i].ident)
                }
        }),
{
    lemma_kept_is_filter(object.fields@);
    let defs = r->Ok_0.types@.last().fields@;
    assert forall|i: int| 0 <= i < defs.len() implies field_built(&kept(object.fields@)[i], defs[i]) by {
    }
}

} // verus!
