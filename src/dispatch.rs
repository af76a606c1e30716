//! Resolution-time dispatch over the registry: which raw output a field of an
//! instance is obtained from, directly through the instance's concrete type
//! or through a handle typed by an interface the type implements.
use vstd::prelude::*;

use crate::from_value::FromValue;
use crate::registry::{FieldDefinition, Registry, Resolver, TypeDefinition, TypeKind};
use crate::simple_object::{has_mark, stores_mark};
use crate::value::{deref_opt, Entry, InputError, PathSegment, Value};

verus! {

/// A dynamically typed instance: its concrete type's schema name and its
/// stored members.
#[derive(Debug)]
pub struct Instance {
    pub object_name: String,
    pub members: Vec<Entry>,
}

/// An instance seen through an interface it implements.
#[derive(Debug)]
pub struct InterfaceHandle {
    pub interface: String,
    pub instance: Instance,
}

/// Where a field's raw output comes from.
#[derive(Debug, PartialEq, Eq)]
pub enum Execution {
    /// The instance's stored member with this identifier.
    Member(String),
    /// The instance's method with this identifier.
    Method(String),
}

/// Where a field's raw output comes from, over character sequences.
pub enum ExecutionView {
    Member(Seq<char>),
    Method(Seq<char>),
}

impl View for Execution {
    type V = ExecutionView;

    open spec fn view(&self) -> ExecutionView {
        match self {
            Execution::Member(m) => ExecutionView::Member(m@),
            Execution::Method(m) => ExecutionView::Method(m@),
        }
    }
}

/// An optional execution, seen over character sequences.
pub open spec fn opt_execution(e: Option<Execution>) -> Option<ExecutionView> {
    match e {
        Some(x) => Some(x@),
        None => None,
    }
}

/// The first type registered under `name`, from `start` on.
pub open spec fn find_type(types: Seq<TypeDefinition>, name: Seq<char>, start: int) -> Option<int>
    decreases types.len() - start,
{
    if start < 0 || start >= types.len() {
        None
    } else if types[start].name@ == name {
        Some(start)
    } else {
        find_type(types, name, start + 1)
    }
}

/// The first field called `name`, from `start` on.
pub open spec fn find_field(fields: Seq<FieldDefinition>, name: Seq<char>, start: int) -> Option<
    int,
>
    decreases fields.len() - start,
{
    if start < 0 || start >= fields.len() {
        None
    } else if fields[start].name@ == name {
        Some(start)
    } else {
        find_field(fields, name, start + 1)
    }
}

/// The first member stored under `ident`, from `start` on.
pub open spec fn find_member(members: Seq<Entry>, ident: Seq<char>, start: int) -> Option<int>
    decreases members.len() - start,
{
    if start < 0 || start >= members.len() {
        None
    } else if members[start].key@ == ident {
        Some(start)
    } else {
        find_member(members, ident, start + 1)
    }
}

/// The registered interface called `name`, if there is one.
pub open spec fn find_interface(types: Seq<TypeDefinition>, name: Seq<char>) -> Option<int> {
    match find_type(types, name, 0) {
        Some(i) => if types[i].kind == TypeKind::Interface {
            Some(i)
        } else {
            None
        },
        None => None,
    }
}

/// The registered object type called `name`, if there is one.
pub open spec fn find_object(types: Seq<TypeDefinition>, name: Seq<char>) -> Option<int> {
    match find_type(types, name, 0) {
        Some(i) => if types[i].kind == TypeKind::Object {
            Some(i)
        } else {
            None
        },
        None => None,
    }
}

/// How a field the type declares itself is executed.
pub open spec fn own_execution(r: Resolver) -> Option<ExecutionView> {
    match r {
        Resolver::Member(m) => Some(ExecutionView::Member(m@)),
        Resolver::Method(m) => Some(ExecutionView::Method(m@)),
        Resolver::Abstract(_) => None,
    }
}

/// How a field that the `k`-th or a later interface of `names` declares is
/// executed by an implementer: by its own method of that name.
pub open spec fn via_interfaces(
    types: Seq<TypeDefinition>,
    names: Seq<String>,
    field: Seq<char>,
    k: int,
) -> Option<ExecutionView>
    decreases names.len() - k,
{
    if k < 0 || k >= names.len() {
        None
    } else {
        match find_interface(types, names[k]@) {
            Some(ii) => match find_field(types[ii].fields@, field, 0) {
                Some(fi) => match types[ii].fields@[fi].resolver {
                    Resolver::Abstract(m) => Some(ExecutionView::Method(m@)),
                    _ => via_interfaces(types, names, field, k + 1),
                },
                None => via_interfaces(types, names, field, k + 1),
            },
            None => via_interfaces(types, names, field, k + 1),
        }
    }
}

/// How the field `field` of an instance of the object type `object_name` is
/// executed: by the type's own declaration of it, else by the first interface
/// it implements that declares it.
pub open spec fn execution_of(types: Seq<TypeDefinition>, object_name: Seq<char>, field: Seq<char>) -> Option<
    ExecutionView,
> {
    match find_object(types, object_name) {
        Some(ti) => match find_field(types[ti].fields@, field, 0) {
            Some(fi) => own_execution(types[ti].fields@[fi].resolver),
            None => via_interfaces(types, types[ti].implements@, field, 0),
        },
        None => None,
    }
}

/// Whether the registered interface `interface` declares the field `field`.
pub open spec fn interface_declares(
    types: Seq<TypeDefinition>,
    interface: Seq<char>,
    field: Seq<char>,
) -> bool {
    match find_interface(types, interface) {
        Some(ii) => find_field(types[ii].fields@, field, 0) is Some,
        None => false,
    }
}

/// Whether the instance's concrete type is registered and stores the tag of
/// the interface called `interface`.
pub open spec fn implements_interface(
    types: Seq<TypeDefinition>,
    object_name: Seq<char>,
    interface: Seq<char>,
) -> bool {
    match find_object(types, object_name) {
        Some(ti) => stores_mark(types[ti].marks@, interface),
        None => false,
    }
}

fn find_type_index(types: &Vec<TypeDefinition>, name: &String) -> (r: Option<usize>)
    ensures
        match r {
            Some(i) => i < types@.len() && find_type(types@, name@, 0) == Some(i as int),
            None => find_type(types@, name@, 0) is None,
        },
{
    let mut i: usize = 0;
    while i < types.len()
        invariant
            i <= types@.len(),
            find_type(types@, name@, 0) == find_type(types@, name@, i as int),
        decreases types@.len() - i,
    {
        if types[i].name == *name {
            return Some(i);
        }
        i = i + 1;
    }
    None
}

fn find_field_index(fields: &Vec<FieldDefinition>, name: &String) -> (r: Option<usize>)
    ensures
        match r {
            Some(i) => i < fields@.len() && find_field(fields@, name@, 0) == Some(i as int),
            None => find_field(fields@, name@, 0) is None,
        },
{
    let mut i: usize = 0;
    while i < fields.len()
        invariant
            i <= fields@.len(),
            find_field(fields@, name@, 0) == find_field(fields@, name@, i as int),
        decreases fields@.len() - i,
    {
        if fields[i].name == *name {
            return Some(i);
        }
        i = i + 1;
    }
    None
}

fn find_member_index(members: &Vec<Entry>, ident: &String) -> (r: Option<usize>)
    ensures
        match r {
            Some(i) => i < members@.len() && find_member(members@, ident@, 0) == Some(i as int),
            None => find_member(members@, ident@, 0) is None,
        },
{
    let mut i: usize = 0;
    while i < members.len()
        invariant
            i <= members@.len(),
            find_member(members@, ident@, 0) == find_member(members@, ident@, i as int),
        decreases members@.len() - i,
    {
        if members[i].key == *ident {
            return Some(i);
        }
        i = i + 1;
    }
    None
}

fn find_object_index(types: &Vec<TypeDefinition>, name: &String) -> (r: Option<usize>)
    ensures
        match r {
            Some(i) => i < types@.len() && find_object(types@, name@) == Some(i as int),
            None => find_object(types@, name@) is None,
        },
{
    match find_type_index(types, name) {
        Some(i) => if types[i].kind == TypeKind::Object {
            Some(i)
        } else {
            None
        },
        None => None,
    }
}

fn find_interface_index(types: &Vec<TypeDefinition>, name: &String) -> (r: Option<usize>)
    ensures
        match r {
            Some(i) => i < types@.len() && find_interface(types@, name@) == Some(i as int),
            None => find_interface(types@, name@) is None,
        },
{
    match find_type_index(types, name) {
        Some(i) => if types[i].kind == TypeKind::Interface {
            Some(i)
        } else {
            None
        },
        None => None,
    }
}

impl Instance {
    /// The value stored under `ident`: the first member with that key.
    pub fn member(&self, ident: &String) -> (r: Option<&Value>)
        ensures
            match find_member(self.members@, ident@, 0) {
                Some(i) => r == Some(&self.members@[i].value),
                None => r is None,
            },
    {
        match find_member_index(&self.members, ident) {
            Some(i) => Some(&self.members[i].value),
            None => None,
        }
    }

    /// Sees the instance through the interface called `interface`: granted
    /// when its concrete type is registered and stores that interface's tag;
    /// otherwise the instance is handed back.
    pub fn into_interface(self, registry: &Registry, interface: &String) -> (r: Result<
        InterfaceHandle,
        Instance,
    >)
        ensures
            implements_interface(registry.types@, self.object_name@, interface@) ==> r == Ok::<
                InterfaceHandle,
                Instance,
            >(InterfaceHandle { interface: *interface, instance: self }),
            !implements_interface(registry.types@, self.object_name@, interface@) ==> r == Err::<
                InterfaceHandle,
                Instance,
            >(self),
    {
        match find_object_index(&registry.types, &self.object_name) {
            Some(ti) => if has_mark(&registry.types[ti].marks, interface) {
                Ok(InterfaceHandle { interface: interface.clone(), instance: self })
            } else {
                Err(self)
            },
            None => Err(self),
        }
    }
}

fn own(r: &Resolver) -> (e: Option<Execution>)
    ensures
        opt_execution(e) == own_execution(*r),
{
    match r {
        Resolver::Member(m) => Some(Execution::Member(m.clone())),
        Resolver::Method(m) => Some(Execution::Method(m.clone())),
        Resolver::Abstract(_) => None,
    }
}

/// How the field `field` of an instance of the type called `object_name` is
/// executed.
pub fn execute(registry: &Registry, object_name: &String, field: &String) -> (r: Option<Execution>)
    ensures
        opt_execution(r) == execution_of(registry.types@, object_name@, field@),
{
    let types = &registry.types;
    let ti = match find_object_index(types, object_name) {
        Some(ti) => ti,
        None => return None,
    };
    let def = &types[ti];
    match find_field_index(&def.fields, field) {
        Some(fi) => return own(&def.fields[fi].resolver),
        None => {},
    }
    let names = &def.implements;
    let mut k: usize = 0;
    while k < names.len()
        invariant
            types == &registry.types,
            ti < types@.len(),
            find_object(types@, object_name@) == Some(ti as int),
            find_field(types@[ti as int].fields@, field@, 0) is None,
            names == &types@[ti as int].implements,
            k <= names@.len(),
            via_interfaces(types@, names@, field@, 0) == via_interfaces(
                types@,
                names@,
                field@,
                k as int,
            ),
        decreases names@.len() - k,
    {
        match find_interface_index(types, &names[k]) {
            Some(ii) => match find_field_index(&types[ii].fields, field) {
                Some(fi) => match &types[ii].fields[fi].resolver {
                    Resolver::Abstract(m) => return Some(Execution::Method(m.clone())),
                    _ => {},
                },
                None => {},
            },
            None => {},
        }
        k = k + 1;
    }
    None
}

/// How the field `field` is executed through an interface handle.
pub open spec fn handle_execution(
    types: Seq<TypeDefinition>,
    handle: InterfaceHandle,
    field: Seq<char>,
) -> Option<ExecutionView> {
    if interface_declares(types, handle.interface@, field) {
        execution_of(types, handle.instance.object_name@, field)
    } else {
        None
    }
}

/// The value an instance stores under `ident`.
pub open spec fn member_value(instance: Instance, ident: Seq<char>) -> Option<Value> {
    match find_member(instance.members@, ident, 0) {
        Some(i) => Some(instance.members@[i].value),
        None => None,
    }
}

/// How the field `field` is executed through an interface handle: only the
/// interface's own fields can be asked for, and each is executed as on the
/// instance's concrete type.
pub fn execute_interface(registry: &Registry, handle: &InterfaceHandle, field: &String) -> (r:
    Option<Execution>)
    ensures
        opt_execution(r) == handle_execution(registry.types@, *handle, field@),
{
    let declared = match find_interface_index(&registry.types, &handle.interface) {
        Some(ii) => find_field_index(&registry.types[ii].fields, field).is_some(),
        None => false,
    };
    if declared {
        execute(registry, &handle.instance.object_name, field)
    } else {
        None
    }
}

/// The value supplied for the argument `name`: the first entry with that key.
pub open spec fn supplied_arg(args: Seq<Entry>, name: Seq<char>) -> Option<Value> {
    match find_member(args, name, 0) {
        Some(i) => Some(args[i].value),
        None => None,
    }
}

/// Whether `result` is the outcome of binding the argument `name` from the
/// supplied `args`: the first entry with that key, converted as `T`, its error
/// carrying the argument's name appended to the breadcrumb.
pub open spec fn binds<T: FromValue>(args: Seq<Entry>, name: String, result: Result<T, InputError>) -> bool {
    match result {
        Ok(x) => T::converts(supplied_arg(args, name@), Ok(x)),
        Err(e) => exists|inner: InputError|
            #![trigger T::converts(supplied_arg(args, name@), Err(inner))]
            T::converts(supplied_arg(args, name@), Err(inner)) && e.reason == inner.reason && e.path@
                == inner.path@.push(PathSegment::Name(name)),
    }
}

/// Binds a named argument from the supplied arguments.
pub fn bind_argument<T: FromValue>(args: &Vec<Entry>, name: &String) -> (r: Result<T, InputError>)
    ensures
        binds(args@, *name, r),
{
    let supplied = match find_member_index(args, name) {
        Some(i) => Some(&args[i].value),
        None => None,
    };
    let ghost expected = supplied_arg(args@, name@);
    assert(deref_opt(supplied) == expected);
    match T::from_value(supplied) {
        Ok(x) => Ok(x),
        Err(e) => {
            let mut e = e;
            let ghost inner = e;
            e.path.push(PathSegment::Name(name.clone()));
            assert(T::converts(expected, Err(inner)));
            Err(e)
        },
    }
}

/// Interface dispatch: an instance whose type stores the interface's tag, seen
/// through the handle the interface grants, resolves every field the interface
/// declares exactly as through its concrete type, against the same stored
/// members.
pub proof fn lemma_interface_dispatch(
    types: Seq<TypeDefinition>,
    instance: Instance,
    interface: String,
    field: Seq<char>,
)
    requires
        implements_interface(types, instance.object_name@, interface@),
        interface_declares(types, interface@, field),
    ensures
        ({
            let handle = InterfaceHandle { interface, instance };
            &&& handle_execution(types, handle, field) == execution_of(
                types,
                instance.object_name@,
                field,
            )
            &&& forall|m: Seq<char>| #[trigger]
                member_value(handle.instance, m) == member_value(instance, m)
        }),
{
}

/// A shared tag means shared membership, not shared data: two instances whose
/// types both store the interface's tag are each dispatched to their own
/// concrete type and their own stored members.
pub proof fn lemma_shared_tag(
    types: Seq<TypeDefinition>,
    a: Instance,
    b: Instance,
    interface: String,
    field: Seq<char>,
)
    requires
        implements_interface(types, a.object_name@, interface@),
        implements_interface(types, b.object_name@, interface@),
        interface_declares(types, interface@, field),
    ensures
        ({
            let ha = InterfaceHandle { interface, instance: a };
            let hb = InterfaceHandle { interface, instance: b };
            &&& handle_execution(types, ha, field) == execution_of(types, a.object_name@, field)
            &&& handle_execution(types, hb, field) == execution_of(types, b.object_name@, field)
            &&& forall|m: Seq<char>| #[trigger] member_value(ha.instance, m) == member_value(a, m)
            &&& forall|m: Seq<char>| #[trigger] member_value(hb.instance, m) == member_value(b, m)
        }),
{
    lemma_interface_dispatch(types, a, interface, field);
    lemma_interface_dispatch(types, b, interface, field);
}

/// The names of `fields`, in order.
pub open spec fn names_of(fields: Seq<FieldDefinition>) -> Seq<Seq<char>>
    decreases fields.len(),
{
    if fields.len() == 0 {
        Seq::empty()
    } else {
        names_of(fields.drop_last()).push(fields.last().name@)
    }
}

/// `acc` followed by the names of `fields` that it does not hold yet, in order.
pub open spec fn extend_names(acc: Seq<Seq<char>>, fields: Seq<FieldDefinition>) -> Seq<Seq<char>>
    decreases fields.len(),
{
    if fields.len() == 0 {
        acc
    } else {
        let a = extend_names(acc, fields.drop_last());
        if a.contains(fields.last().name@) {
            a
        } else {
            a.push(fields.last().name@)
        }
    }
}

/// `acc` extended by the fields of each registered interface of `names`, in
/// order.
pub open spec fn with_interfaces(
    types: Seq<TypeDefinition>,
    acc: Seq<Seq<char>>,
    names: Seq<String>,
) -> Seq<Seq<char>>
    decreases names.len(),
{
    if names.len() == 0 {
        acc
    } else {
        let a = with_interfaces(types, acc, names.drop_last());
        match find_interface(types, names.last()@) {
            Some(ii) => extend_names(a, types[ii].fields@),
            None => a,
        }
    }
}

/// The field list the schema shows for the type called `name`: an object's
/// own fields in declaration order, then the fields it takes from each
/// interface it implements that it does not declare itself; for any other
/// type, its own fields (a scalar has none).
pub open spec fn schema_fields(types: Seq<TypeDefinition>, name: Seq<char>) -> Option<
    Seq<Seq<char>>,
> {
    match find_type(types, name, 0) {
        Some(ti) => if types[ti].kind == TypeKind::Object {
            Some(with_interfaces(types, names_of(types[ti].fields@), types[ti].implements@))
        } else {
            Some(names_of(types[ti].fields@))
        },
        None => None,
    }
}

/// A sequence of strings, seen as character sequences.
pub open spec fn string_views(v: Seq<String>) -> Seq<Seq<char>> {
    Seq::new(v.len(), |i: int| v[i]@)
}

fn contains_name(names: &Vec<String>, name: &String) -> (r: bool)
    ensures
        r == string_views(names@).contains(name@),
{
    let mut i: usize = 0;
    while i < names.len()
        invariant
            i <= names@.len(),
            forall|j: int| 0 <= j < i ==> names@[j]@ != name@,
        decreases names@.len() - i,
    {
        if names[i] == *name {
            assert(string_views(names@)[i as int] == name@);
            return true;
        }
        i = i + 1;
    }
    proof {
        if string_views(names@).contains(name@) {
            let j = choose|j: int| 0 <= j < names@.len() && string_views(names@)[j] == name@;
            assert(names@[j]@ == name@);
        }
    }
    false
}

fn push_new_names(out: &mut Vec<String>, fields: &Vec<FieldDefinition>)
    ensures
        string_views(final(out)@) == extend_names(string_views(old(out)@), fields@),
{
    let ghost start = string_views(out@);
    let mut i: usize = 0;
    while i < fields.len()
        invariant
            i <= fields@.len(),
            string_views(out@) == extend_names(start, fields@.subrange(0, i as int)),
        decreases fields@.len() - i,
    {
        proof {
            assert(fields@.subrange(0, i + 1).drop_last() =~= fields@.subrange(0, i as int));
        }
        if !contains_name(out, &fields[i].name) {
            let ghost before = out@;
            out.push(fields[i].name.clone());
            proof {
                assert(string_views(out@) =~= string_views(before).push(fields@[i as int].name@));
            }
        }
        i = i + 1;
    }
    proof {
        assert(fields@.subrange(0, fields@.len() as int) =~= fields@);
    }
}

fn field_names(fields: &Vec<FieldDefinition>) -> (r: Vec<String>)
    ensures
        string_views(r@) == names_of(fields@),
{
    let mut out: Vec<String> = Vec::new();
    let mut i: usize = 0;
    while i < fields.len()
        invariant
            i <= fields@.len(),
            string_views(out@) == names_of(fields@.subrange(0, i as int)),
        decreases fields@.len() - i,
    {
        proof {
            assert(fields@.subrange(0, i + 1).drop_last() =~= fields@.subrange(0, i as int));
        }
        let ghost before = out@;
        out.push(fields[i].name.clone());
        proof {
            assert(string_views(out@) =~= string_views(before).push(fields@[i as int].name@));
        }
        i = i + 1;
    }
    proof {
        assert(fields@.subrange(0, fields@.len() as int) =~= fields@);
    }
    out
}

/// The field list the schema shows for the registered type called `name`.
pub fn get_schema_fields(registry: &Registry, name: &String) -> (r: Option<Vec<String>>)
    ensures
        match r {
            Some(v) => schema_fields(registry.types@, name@) == Some(string_views(v@)),
            None => schema_fields(registry.types@, name@) is None,
        },
{
    let types = &registry.types;
    let ti = match find_type_index(types, name) {
        Some(ti) => ti,
        None => return None,
    };
    let mut out = field_names(&types[ti].fields);
    if types[ti].kind != TypeKind::Object {
        return Some(out);
    }
    let names = &types[ti].implements;
    let mut k: usize = 0;
    while k < names.len()
        invariant
            types == &registry.types,
            ti < types@.len(),
            names == &types@[ti as int].implements,
            k <= names@.len(),
            string_views(out@) == with_interfaces(
                types@,
                names_of(types@[ti as int].fields@),
                names@.subrange(0, k as int),
            ),
        decreases names@.len() - k,
    {
        proof {
            assert(names@.subrange(0, k + 1).drop_last() =~= names@.subrange(0, k as int));
        }
        match find_interface_index(types, &names[k]) {
            Some(ii) => push_new_names(&mut out, &types[ii].fields),
            None => {},
        }
        k = k + 1;
    }
    proof {
        assert(names@.subrange(0, names@.len() as int) =~= names@);
    }
    Some(out)
}

} // verus!
