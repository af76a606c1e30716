use dynamic_graphql::from_value::{FromValue, Id, MaybeUndefined, ToValue};
use dynamic_graphql::value::{PathSegment, Reason, Value, ValueKind};

fn s(x: &str) -> Value {
    Value::String(x.to_string())
}

#[test]
fn string_from_string_node() {
    let v = s("foo");
    assert_eq!(String::from_value(Some(&v)).unwrap(), "foo");
}

#[test]
fn string_missing_and_mismatch() {
    let e = String::from_value(None).unwrap_err();
    assert_eq!(e.reason, Reason::Missing);
    assert!(e.path.is_empty());
    let v = Value::Int(3);
    let e = String::from_value(Some(&v)).unwrap_err();
    assert_eq!(e.reason, Reason::Expected(ValueKind::String));
    let v = Value::Null;
    let e = String::from_value(Some(&v)).unwrap_err();
    assert_eq!(e.reason, Reason::Expected(ValueKind::String));
}

#[test]
fn id_and_bool() {
    let v = s("FooNode:1");
    assert_eq!(Id::from_value(Some(&v)).unwrap(), Id("FooNode:1".to_string()));
    let v = Value::Boolean(true);
    assert!(bool::from_value(Some(&v)).unwrap());
    let e = bool::from_value(Some(&s("true"))).unwrap_err();
    assert_eq!(e.reason, Reason::Expected(ValueKind::Boolean));
}

#[test]
fn integers_truncate_uniformly() {
    assert_eq!(u8::from_value(Some(&Value::Int(300))).unwrap(), 44);
    assert_eq!(i8::from_value(Some(&Value::Int(200))).unwrap(), -56);
    assert_eq!(u16::from_value(Some(&Value::Int(-1))).unwrap(), 65535);
    assert_eq!(i32::from_value(Some(&Value::Int(-7))).unwrap(), -7);
    assert_eq!(u64::from_value(Some(&Value::Int(u64::MAX as i128))).unwrap(), u64::MAX);
    assert_eq!(i64::from_value(Some(&Value::Int(i64::MIN as i128))).unwrap(), i64::MIN);
    assert_eq!(u32::from_value(Some(&Value::Int(1 << 32))).unwrap(), 0);
    assert_eq!(isize::from_value(Some(&Value::Int(5))).unwrap(), 5);
    assert_eq!(usize::from_value(Some(&Value::Int(5))).unwrap(), 5);
    assert_eq!(i16::from_value(Some(&Value::Int(40000))).unwrap(), -25536);
    let e = i32::from_value(Some(&s("1"))).unwrap_err();
    assert_eq!(e.reason, Reason::Expected(ValueKind::Integer));
    let e = u8::from_value(None).unwrap_err();
    assert_eq!(e.reason, Reason::Missing);
}

fn round_trip<T: ToValue + PartialEq + std::fmt::Debug>(x: T) {
    let v = x.to_value();
    assert_eq!(T::from_value(Some(&v)).unwrap(), x);
}

#[test]
fn primitives_round_trip() {
    round_trip("héllo".to_string());
    round_trip(String::new());
    round_trip(Id("x".to_string()));
    round_trip(true);
    round_trip(false);
    round_trip(u8::MAX);
    round_trip(u16::MAX);
    round_trip(u32::MAX);
    round_trip(u64::MAX);
    round_trip(usize::MAX);
    round_trip(i8::MIN);
    round_trip(i16::MIN);
    round_trip(i32::MIN);
    round_trip(i64::MIN);
    round_trip(isize::MAX);
    round_trip(0u8);
    assert_eq!(7u8.to_value(), Value::Int(7));
}

#[test]
fn option_absent_null_and_value() {
    assert_eq!(Option::<i32>::from_value(None).unwrap(), None);
    assert_eq!(Option::<i32>::from_value(Some(&Value::Null)).unwrap(), None);
    assert_eq!(Option::<i32>::from_value(Some(&Value::Int(4))).unwrap(), Some(4));
    let e = Option::<i32>::from_value(Some(&s("x"))).unwrap_err();
    assert_eq!(e.reason, Reason::Expected(ValueKind::Integer));
    assert!(e.path.is_empty());
}

#[test]
fn tri_state_branches() {
    assert!(matches!(MaybeUndefined::<String>::from_value(None).unwrap(), MaybeUndefined::Undefined));
    assert!(matches!(
        MaybeUndefined::<String>::from_value(Some(&Value::Null)).unwrap(),
        MaybeUndefined::Null
    ));
    match MaybeUndefined::<String>::from_value(Some(&s("v"))).unwrap() {
        MaybeUndefined::Value(x) => assert_eq!(x, "v"),
        other => panic!("unexpected {:?}", other),
    }
    let e = MaybeUndefined::<String>::from_value(Some(&Value::Boolean(false))).unwrap_err();
    assert_eq!(e.reason, Reason::Expected(ValueKind::String));
}

#[test]
fn sequence_empty_and_values() {
    let v = Value::List(vec![]);
    assert!(Vec::<i32>::from_value(Some(&v)).unwrap().is_empty());
    let v = Value::List(vec![Value::Int(1), Value::Int(2), Value::Int(3)]);
    assert_eq!(Vec::<i32>::from_value(Some(&v)).unwrap(), vec![1, 2, 3]);
    let e = Vec::<i32>::from_value(Some(&Value::Int(1))).unwrap_err();
    assert_eq!(e.reason, Reason::Expected(ValueKind::List));
    let e = Vec::<i32>::from_value(None).unwrap_err();
    assert_eq!(e.reason, Reason::Missing);
}

#[test]
fn sequence_first_failure_aborts_with_index() {
    let v = Value::List(vec![Value::Int(1), s("two"), Value::Boolean(true)]);
    let e = Vec::<i32>::from_value(Some(&v)).unwrap_err();
    assert_eq!(e.reason, Reason::Expected(ValueKind::Integer));
    assert_eq!(e.path.len(), 1);
    assert!(matches!(e.path[0], PathSegment::Index(1)));
}

#[test]
fn nested_sequence_breadcrumb_innermost_first() {
    let v = Value::List(vec![
        Value::List(vec![Value::Int(1)]),
        Value::List(vec![Value::Int(2), Value::Null]),
    ]);
    let e = Vec::<Vec<i32>>::from_value(Some(&v)).unwrap_err();
    assert_eq!(e.reason, Reason::Expected(ValueKind::Integer));
    assert_eq!(e.path.len(), 2);
    assert!(matches!(e.path[0], PathSegment::Index(1)));
    assert!(matches!(e.path[1], PathSegment::Index(1)));
}

#[test]
fn list_of_optionals_accepts_nulls() {
    let v = Value::List(vec![Value::Null, Value::Int(9)]);
    assert_eq!(Vec::<Option<u8>>::from_value(Some(&v)).unwrap(), vec![None, Some(9)]);
}
