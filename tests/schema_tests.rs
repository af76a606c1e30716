use dynamic_graphql::common::{get_field_name, get_type_name, Deprecation};
use dynamic_graphql::dispatch::{
    bind_argument, execute, execute_interface, get_schema_fields, Execution, Instance,
};
use dynamic_graphql::field::get_define_fields_code;
use dynamic_graphql::fn_arg::{BaseFnArg, SelfArg, TypedArg};
use dynamic_graphql::generics::{Generics, Segment, TypeExpr};
use dynamic_graphql::interface::{
    define_interface_struct, get_argument_definitions, impl_register, Interface, InterfaceMethod,
    InterfaceMethodArg,
};
use dynamic_graphql::interface_attr::InterfaceAttr;
use dynamic_graphql::interface_hash::get_interface_hash;
use dynamic_graphql::registry::{
    InterfaceMark, RegisterError, Registry, Resolver, TypeKind,
};
use dynamic_graphql::rename::RenameRule;
use dynamic_graphql::schema_data::SchemaData;
use dynamic_graphql::simple_object::{
    impl_resolvers, SimpleObject, SimpleObjectAttrs, SimpleObjectField, SimpleObjectFieldAttrs,
    SimpleObjectFieldContext,
};
use dynamic_graphql::value::{Entry, PathSegment, Reason, Value, ValueKind};
use proc_macro2::Span;

fn string_ty() -> TypeExpr {
    TypeExpr::Path(vec![Segment { ident: "String".to_string(), args: vec![] }])
}

fn member(ident: &str, skip: bool, name: Option<&str>) -> SimpleObjectField {
    SimpleObjectField {
        ident: ident.to_string(),
        ty: string_ty(),
        doc: None,
        attrs: SimpleObjectFieldAttrs {
            skip,
            name: name.map(|n| n.to_string()),
            deprecation: Deprecation::NoDeprecated,
        },
        ctx: SimpleObjectFieldContext::default(),
    }
}

fn attr(name: &str) -> InterfaceAttr {
    InterfaceAttr { inner: name.to_string(), span: Span::call_site() }
}

fn attrs(root: bool, implement: Vec<InterfaceAttr>) -> SimpleObjectAttrs {
    SimpleObjectAttrs {
        root,
        mutation_root: false,
        name: None,
        rename_fields: None,
        mark_as: vec![],
        mark_with: vec![],
        implement,
    }
}

fn object(ident: &str, a: SimpleObjectAttrs, fields: Vec<SimpleObjectField>) -> SimpleObject {
    SimpleObject::new(ident.to_string(), Generics { params: vec![] }, None, a, fields)
}

fn node_interface() -> Interface {
    Interface {
        ident: "Node".to_string(),
        name: None,
        doc: Some("An object with an ID".to_string()),
        rename_fields: None,
        rename_args: None,
        methods: vec![
            InterfaceMethod {
                ident: "id".to_string(),
                ty: string_ty(),
                doc: None,
                skip: false,
                name: None,
                deprecation: Deprecation::NoDeprecated,
                args: vec![InterfaceMethodArg {
                    arg: BaseFnArg::Receiver(SelfArg {
                        index: 0,
                        is_mut: false,
                        is_ref: true,
                        span: Span::call_site(),
                    }),
                    name: None,
                    ctx: false,
                    rename_args: None,
                }],
                rename_fields: None,
                rename_args: None,
            },
            InterfaceMethod {
                ident: "get_id".to_string(),
                ty: string_ty(),
                doc: None,
                skip: true,
                name: None,
                deprecation: Deprecation::NoDeprecated,
                args: vec![],
                rename_fields: None,
                rename_args: None,
            },
        ],
    }
}

fn field_names(reg: &Registry, index: usize) -> Vec<String> {
    reg.types[index].fields.iter().map(|f| f.name.clone()).collect()
}

fn instance(object_name: &str, members: Vec<(&str, &str)>) -> Instance {
    Instance {
        object_name: object_name.to_string(),
        members: members
            .into_iter()
            .map(|(k, v)| Entry { key: k.to_string(), value: Value::String(v.to_string()) })
            .collect(),
    }
}

#[test]
fn fields_keep_declaration_order_and_skip() {
    let o = object(
        "User",
        attrs(false, vec![]),
        vec![member("zeta", false, None), member("secret", true, None), member("alpha_beta", false, None)],
    );
    let reg = o.register(Registry::new()).unwrap();
    assert_eq!(reg.types.len(), 1);
    assert_eq!(reg.types[0].name, "User");
    assert_eq!(reg.types[0].kind, TypeKind::Object);
    assert_eq!(field_names(&reg, 0), vec!["zeta".to_string(), "alphaBeta".to_string()]);
    assert!(matches!(&reg.types[0].fields[1].resolver, Resolver::Member(m) if m == "alpha_beta"));
    assert!(reg.root.is_none());
}

#[test]
fn explicit_names_win_over_rules() {
    let mut a = attrs(false, vec![]);
    a.rename_fields = Some(RenameRule::ScreamingSnake);
    a.name = Some("Person".to_string());
    let o = object("User", a, vec![member("user_name", false, None), member("x", false, Some("renamed_x"))]);
    assert_eq!(get_type_name(&o), "Person");
    assert_eq!(get_field_name(&o.fields[0]), "USER_NAME");
    assert_eq!(get_field_name(&o.fields[1]), "renamed_x");
    let reg = o.register(Registry::new()).unwrap();
    assert_eq!(field_names(&reg, 0), vec!["USER_NAME".to_string(), "renamed_x".to_string()]);
}

#[test]
fn root_recorded_and_second_root_refused() {
    let q = object("Query", attrs(true, vec![]), vec![]);
    let reg = q.register(Registry::new()).unwrap();
    assert_eq!(reg.root.as_deref(), Some("Query"));
    let other = object("Other", attrs(true, vec![]), vec![]);
    match other.register(reg) {
        Err(RegisterError::RootConflict(existing)) => assert_eq!(existing, "Query"),
        other => panic!("unexpected {:?}", other),
    }
}

#[test]
fn mutation_root_conflict() {
    let mut a = attrs(false, vec![]);
    a.mutation_root = true;
    let m = object("Mutation", a, vec![]);
    let reg = m.register(Registry::new()).unwrap();
    assert_eq!(reg.mutation.as_deref(), Some("Mutation"));
    let mut b = attrs(false, vec![]);
    b.mutation_root = true;
    let m2 = object("Mutation2", b, vec![]);
    assert!(matches!(m2.register(reg), Err(RegisterError::MutationRootConflict(_))));
}

#[test]
fn marks_store_interface_tags() {
    let o = object("FooNode", attrs(false, vec![attr("Node")]), vec![]);
    assert_eq!(o.marks.len(), 1);
    assert_eq!(o.marks[0].interface, "Node");
    assert_eq!(o.marks[0].tag, get_interface_hash("Node"));
    let reg = o.register(Registry::new()).unwrap();
    assert_eq!(reg.types[0].implements, vec!["Node".to_string()]);
}

#[test]
fn mismatched_mark_is_refused() {
    let mut o = object("FooNode", attrs(false, vec![attr("Node")]), vec![]);
    o.marks = vec![InterfaceMark { interface: "Node".to_string(), tag: get_interface_hash("Node") ^ 1 }];
    match o.register(Registry::new()) {
        Err(RegisterError::InterfaceMarkMismatch { interface, .. }) => assert_eq!(interface, "Node"),
        other => panic!("unexpected {:?}", other),
    }
}

#[test]
fn interface_registration_and_tag() {
    let node = node_interface();
    let info = define_interface_struct(&node);
    assert_eq!(info.name, "Node");
    assert_eq!(info.mark, get_interface_hash("Node"));
    let reg = impl_register(&node, Registry::new());
    assert_eq!(reg.types[0].kind, TypeKind::Interface);
    assert_eq!(reg.types[0].description.as_deref(), Some("An object with an ID"));
    assert_eq!(field_names(&reg, 0), vec!["id".to_string()]);
    assert!(matches!(&reg.types[0].fields[0].resolver, Resolver::Abstract(m) if m == "id"));
    assert!(reg.types[0].fields[0].args.is_empty());
}

#[test]
fn argument_definitions_skip_receiver_and_context() {
    let typed = |index: usize, ident: &str, ctx: bool, name: Option<&str>| InterfaceMethodArg {
        arg: BaseFnArg::Typed(TypedArg {
            index,
            ident: ident.to_string(),
            ty: TypeExpr::Reference {
                lifetime: Some("a".to_string()),
                mutable: false,
                elem: Box::new(TypeExpr::Other("str".to_string())),
            },
            span: Span::call_site(),
        }),
        name: name.map(|n| n.to_string()),
        ctx,
        rename_args: None,
    };
    let args = vec![
        InterfaceMethodArg {
            arg: BaseFnArg::Receiver(SelfArg { index: 0, is_mut: false, is_ref: true, span: Span::call_site() }),
            name: None,
            ctx: false,
            rename_args: None,
        },
        typed(1, "ctx", true, None),
        typed(2, "first_name", false, None),
        typed(3, "x", false, Some("given")),
    ];
    let defs = get_argument_definitions(&args);
    assert_eq!(defs.len(), 2);
    assert_eq!(defs[0].name, "firstName");
    assert_eq!(defs[1].name, "given");
    match &defs[0].ty {
        TypeExpr::Reference { lifetime, .. } => assert_eq!(lifetime.as_deref(), Some("static")),
        other => panic!("unexpected {:?}", other),
    }
}

#[test]
fn resolvers_named_after_members() {
    let o = object("User", attrs(false, vec![]), vec![member("a", false, None), member("b", true, None), member("c", false, None)]);
    let r = impl_resolvers(&o);
    assert_eq!(r.len(), 2);
    assert_eq!(r[0].name, "__resolve_a");
    assert_eq!(r[1].name, "__resolve_c");
    assert_eq!(r[1].index, 2);
    let defs = get_define_fields_code(&o.fields);
    assert_eq!(defs.len(), 2);
}

fn node_schema() -> Registry {
    let foo = object(
        "FooNode",
        attrs(false, vec![attr("Node")]),
        vec![member("id", true, None), member("name", false, None)],
    );
    let bar = object(
        "BarNode",
        attrs(false, vec![attr("Node")]),
        vec![member("label", false, None)],
    );
    let reg = foo.register(Registry::new()).unwrap();
    let reg = impl_register(&node_interface(), reg);
    bar.register(reg).unwrap()
}

/// The user's `Node::id` default: the type's name and the stored id.
fn node_id(instance: &Instance) -> String {
    let raw = match instance.member(&"id".to_string()) {
        Some(Value::String(s)) => s.clone(),
        _ => String::new(),
    };
    format!("{}:{}", instance.object_name, raw)
}

fn resolve(instance: &Instance, e: Execution) -> String {
    match e {
        Execution::Member(m) => match instance.member(&m) {
            Some(Value::String(s)) => s.clone(),
            other => panic!("unexpected {:?}", other),
        },
        Execution::Method(m) => {
            assert_eq!(m, "id");
            node_id(instance)
        },
    }
}

type GetNode = fn(&str) -> Instance;

fn get_foo_node(id: &str) -> Instance {
    instance("FooNode", vec![("id", id), ("name", "foo")])
}

/// The user's `node(id:)` resolver: `Type:raw` looked up in the node table.
fn node(data: &SchemaData<GetNode>, id: &str) -> Option<Instance> {
    let mut split = id.split(':');
    let name = split.next()?;
    let raw = split.next()?;
    let get = data.get(&name.to_string())?;
    Some(get(raw))
}

#[test]
fn test() {
    let reg = node_schema();
    let mut data: SchemaData<GetNode> = SchemaData::new();
    data.insert("FooNode".to_string(), get_foo_node);
    assert_eq!(
        get_schema_fields(&reg, &"FooNode".to_string()).unwrap(),
        vec!["name".to_string(), "id".to_string()]
    );
    assert_eq!(get_schema_fields(&reg, &"Node".to_string()).unwrap(), vec!["id".to_string()]);
    assert!(get_schema_fields(&reg, &"Missing".to_string()).is_none());
    let foo = node(&data, "FooNode:1").unwrap();
    let handle = foo.into_interface(&reg, &"Node".to_string()).unwrap();
    let id = execute_interface(&reg, &handle, &"id".to_string()).unwrap();
    assert_eq!(resolve(&handle.instance, id), "FooNode:1");
    assert!(execute_interface(&reg, &handle, &"name".to_string()).is_none());
    let name = execute(&reg, &handle.instance.object_name, &"name".to_string()).unwrap();
    assert_eq!(resolve(&handle.instance, name), "foo");
    assert!(node(&data, "BarNode:1").is_none());
}

#[test]
fn schema_data_insert_replace_get() {
    let mut data: SchemaData<u32> = SchemaData::new();
    assert!(data.get(&"a".to_string()).is_none());
    data.insert("a".to_string(), 1);
    data.insert("b".to_string(), 2);
    data.insert("a".to_string(), 3);
    assert_eq!(data.get(&"a".to_string()), Some(&3));
    assert_eq!(data.get(&"b".to_string()), Some(&2));
    assert!(data.get(&"c".to_string()).is_none());
}

#[test]
fn interface_handle_matches_direct_access() {
    let reg = node_schema();
    let foo = instance("FooNode", vec![("id", "7"), ("name", "seven")]);
    let direct = execute(&reg, &foo.object_name, &"id".to_string());
    let handle = foo.into_interface(&reg, &"Node".to_string()).unwrap();
    let through = execute_interface(&reg, &handle, &"id".to_string());
    assert_eq!(direct, through);
    assert_eq!(resolve(&handle.instance, through.unwrap()), "FooNode:7");
}

#[test]
fn shared_tag_dispatches_to_own_data() {
    let reg = node_schema();
    let foo = instance("FooNode", vec![("id", "1"), ("name", "foo")]);
    let bar = instance("BarNode", vec![("id", "1"), ("label", "bar")]);
    let hf = foo.into_interface(&reg, &"Node".to_string()).unwrap();
    let hb = bar.into_interface(&reg, &"Node".to_string()).unwrap();
    let ef = execute_interface(&reg, &hf, &"id".to_string()).unwrap();
    let eb = execute_interface(&reg, &hb, &"id".to_string()).unwrap();
    assert_eq!(resolve(&hf.instance, ef), "FooNode:1");
    assert_eq!(resolve(&hb.instance, eb), "BarNode:1");
    assert_eq!(
        resolve(&hb.instance, execute(&reg, &hb.instance.object_name, &"label".to_string()).unwrap()),
        "bar"
    );
}

#[test]
fn handle_refused_without_mark() {
    let reg = node_schema();
    let plain = object("Plain", attrs(false, vec![]), vec![]);
    let reg = plain.register(reg).unwrap();
    let p = instance("Plain", vec![]);
    let back = p.into_interface(&reg, &"Node".to_string()).unwrap_err();
    assert_eq!(back.object_name, "Plain");
    let unknown = instance("Unknown", vec![]);
    assert!(unknown.into_interface(&reg, &"Node".to_string()).is_err());
}

#[test]
fn bind_argument_appends_name() {
    let args = vec![
        Entry { key: "limit".to_string(), value: Value::Int(10) },
        Entry { key: "ids".to_string(), value: Value::List(vec![Value::Int(1), Value::Boolean(true)]) },
    ];
    assert_eq!(bind_argument::<u32>(&args, &"limit".to_string()).unwrap(), 10);
    let e = bind_argument::<Vec<i64>>(&args, &"ids".to_string()).unwrap_err();
    assert_eq!(e.reason, Reason::Expected(ValueKind::Integer));
    assert_eq!(e.path.len(), 2);
    assert!(matches!(e.path[0], PathSegment::Index(1)));
    assert!(matches!(&e.path[1], PathSegment::Name(n) if n == "ids"));
    let e = bind_argument::<String>(&args, &"missing".to_string()).unwrap_err();
    assert_eq!(e.reason, Reason::Missing);
    assert_eq!(bind_argument::<Option<String>>(&args, &"missing".to_string()).unwrap(), None);
}

#[test]
fn own_field_shadows_interface_field() {
    let foo = object(
        "FooNode",
        attrs(false, vec![attr("Node")]),
        vec![member("id", false, None), member("name", false, None)],
    );
    let reg = impl_register(&node_interface(), Registry::new());
    let reg = foo.register(reg).unwrap();
    assert_eq!(
        get_schema_fields(&reg, &"FooNode".to_string()).unwrap(),
        vec!["id".to_string(), "name".to_string()]
    );
    let e = execute(&reg, &"FooNode".to_string(), &"id".to_string()).unwrap();
    assert_eq!(e, Execution::Member("id".to_string()));
}
