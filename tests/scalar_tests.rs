use dynamic_graphql::registry::{Registry, TypeKind};
use dynamic_graphql::scalar::Scalar;

#[test]
fn test_impl_scalar() {
    let s = Scalar { ident: "MyString".to_string(), name: None, doc: None };
    assert_eq!(s.get_scalar_type_name(), "MyString");
}

#[test]
fn test_impl_scalar_with_rename() {
    let s = Scalar { ident: "MyString".to_string(), name: Some("OtherString".to_string()), doc: None };
    assert_eq!(s.get_scalar_type_name(), "OtherString");
}

#[test]
fn scalar_registers_with_description() {
    let s = Scalar {
        ident: "MyString".to_string(),
        name: None,
        doc: Some("A string of mine".to_string()),
    };
    let reg = s.register(Registry::new());
    assert_eq!(reg.types.len(), 1);
    assert_eq!(reg.types[0].kind, TypeKind::Scalar);
    assert_eq!(reg.types[0].name, "MyString");
    assert_eq!(reg.types[0].description.as_deref(), Some("A string of mine"));
    assert!(reg.types[0].fields.is_empty());
}
