use dynamic_graphql::errors::BuildErrorKind;
use dynamic_graphql::fn_arg::{BaseFnArg, FnArgDecl, FromFnArg, Pattern};
use dynamic_graphql::generics::{
    add_new_lifetime_to_generics, replace_type_generics_with_static, GenericArg, GenericParam,
    Generics, Segment, TypeExpr,
};
use dynamic_graphql::interface_attr::{InterfaceAttr, Literal};
use dynamic_graphql::interface_hash::{get_interface_hash, FNV_OFFSET_BASIS};
use dynamic_graphql::rename::RenameRule;
use dynamic_graphql::tuple_access::tuple_field_accesses;
use proc_macro2::Span;

#[test]
fn rename_rules_on_snake_identifier() {
    assert_eq!(RenameRule::Camel.apply("user_name_2"), "userName2");
    assert_eq!(RenameRule::Pascal.apply("user_name"), "UserName");
    assert_eq!(RenameRule::Snake.apply("user_name"), "user_name");
    assert_eq!(RenameRule::ScreamingSnake.apply("user_name"), "USER_NAME");
    assert_eq!(RenameRule::Lower.apply("User_Name"), "user_name");
    assert_eq!(RenameRule::Upper.apply("user_name"), "USER_NAME");
}

#[test]
fn rename_rules_on_camel_identifier() {
    assert_eq!(RenameRule::Snake.apply("userName"), "user_name");
    assert_eq!(RenameRule::ScreamingSnake.apply("FooBar"), "FOO_BAR");
    assert_eq!(RenameRule::Camel.apply("FooBar"), "fooBar");
    assert_eq!(RenameRule::Pascal.apply("fooBar"), "FooBar");
    assert_eq!(RenameRule::Camel.apply("_leading__double_"), "leadingDouble");
    assert_eq!(RenameRule::Camel.apply(""), "");
    assert_eq!(RenameRule::Snake.apply("v2Value"), "v2_value");
}

#[test]
fn interface_tags_are_fnv1a() {
    assert_eq!(get_interface_hash(""), FNV_OFFSET_BASIS);
    assert_eq!(get_interface_hash("a"), 0xaf63dc4c8601ec8c);
    assert_eq!(get_interface_hash("foobar"), 0x85944171f73967e8);
    assert_eq!(get_interface_hash("Node"), get_interface_hash("Node"));
    assert_ne!(get_interface_hash("Node"), get_interface_hash("node"));
}

fn path(ident: &str, args: Vec<GenericArg>) -> TypeExpr {
    TypeExpr::Path(vec![Segment { ident: ident.to_string(), args }])
}

#[test]
fn lifetimes_become_static_at_every_depth() {
    // Wrapper<'a, Inner<'b>, &'c str, 3>
    let ty = path(
        "Wrapper",
        vec![
            GenericArg::Lifetime("a".to_string()),
            GenericArg::Type(path("Inner", vec![GenericArg::Lifetime("b".to_string())])),
            GenericArg::Type(TypeExpr::Reference {
                lifetime: Some("c".to_string()),
                mutable: true,
                elem: Box::new(path("Cow", vec![GenericArg::Lifetime("d".to_string())])),
            }),
            GenericArg::Other("3".to_string()),
        ],
    );
    let out = replace_type_generics_with_static(&ty);
    let expected = path(
        "Wrapper",
        vec![
            GenericArg::Lifetime("static".to_string()),
            GenericArg::Type(path("Inner", vec![GenericArg::Lifetime("static".to_string())])),
            GenericArg::Type(TypeExpr::Reference {
                lifetime: Some("static".to_string()),
                mutable: true,
                elem: Box::new(path("Cow", vec![GenericArg::Lifetime("static".to_string())])),
            }),
            GenericArg::Other("3".to_string()),
        ],
    );
    assert_eq!(format!("{:?}", out), format!("{:?}", expected));
}

#[test]
fn plain_types_pass_through() {
    let ty = TypeExpr::Other("(u8, u16)".to_string());
    let out = replace_type_generics_with_static(&ty);
    assert!(matches!(out, TypeExpr::Other(ref s) if s == "(u8, u16)"));
    let r = TypeExpr::Reference { lifetime: None, mutable: false, elem: Box::new(TypeExpr::Other("str".to_string())) };
    assert!(matches!(replace_type_generics_with_static(&r), TypeExpr::Reference { lifetime: None, mutable: false, .. }));
}

#[test]
fn new_lifetime_appended() {
    let g = Generics { params: vec![GenericParam::Type("T".to_string())] };
    let (g2, p) = add_new_lifetime_to_generics(&g);
    assert_eq!(g2.params.len(), 2);
    assert!(matches!(&g2.params[0], GenericParam::Type(t) if t == "T"));
    assert!(matches!(&p, GenericParam::Lifetime(l) if l == "__dynamic_graphql_lifetime"));
    assert!(matches!(&g2.params[1], GenericParam::Lifetime(l) if l == "__dynamic_graphql_lifetime"));
}

#[test]
fn function_arguments_read() {
    let r = BaseFnArg::from_fn_arg(
        FnArgDecl::Receiver { is_mut: false, is_ref: true, span: Span::call_site() },
        0,
    )
    .unwrap();
    assert!(matches!(r, BaseFnArg::Receiver(ref s) if s.is_ref && !s.is_mut && s.index == 0));
    assert_eq!(r.get_index(), 0);
    let t = BaseFnArg::from_fn_arg(
        FnArgDecl::Typed {
            pat: Pattern::Ident("limit".to_string()),
            ty: TypeExpr::Other("u32".to_string()),
            span: Span::call_site(),
        },
        2,
    )
    .unwrap();
    assert_eq!(t.get_index(), 2);
    assert!(matches!(t, BaseFnArg::Typed(ref a) if a.ident == "limit"));
    let e = BaseFnArg::from_fn_arg(
        FnArgDecl::Typed { pat: Pattern::Other, ty: TypeExpr::Other("u32".to_string()), span: Span::call_site() },
        1,
    )
    .unwrap_err();
    assert_eq!(e.kind, BuildErrorKind::UnnamedArgument);
}

#[test]
fn interface_attribute_needs_string_literal() {
    let a = InterfaceAttr::from_value(Literal::Str("Node".to_string(), Span::call_site())).unwrap();
    assert_eq!(a.deref(), "Node");
    let e = InterfaceAttr::from_value(Literal::Other(Span::call_site())).unwrap_err();
    assert_eq!(e.kind, BuildErrorKind::ExpectedStringLiteral);
}

#[test]
fn tuple_accesses_cover_every_member() {
    assert_eq!(tuple_field_accesses(3), vec![0, 1, 2]);
    assert!(tuple_field_accesses(0).is_empty());
}
