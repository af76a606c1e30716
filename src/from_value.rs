//! Inbound conversion: from one node of the untyped value tree (or its
//! absence) to a typed value.
//!
//! Integer policy: every integer node converts to every integer width by the
//! width's own truncating cast (two's complement wrap-around), uniformly for all
//! signed and unsigned widths.
use vstd::prelude::*;

use crate::value::{deref_opt, fails_bare, InputError, PathSegment, Reason, Value, ValueKind};

verus! {

/// A type that can be read out of the untyped value tree.
pub trait FromValue: Sized {
    /// Whether `result` is the outcome of converting `value` (`None`: the value
    /// was not supplied).
    spec fn converts(value: Option<Value>, result: Result<Self, InputError>) -> bool;

    fn from_value(value: Option<&Value>) -> (r: Result<Self, InputError>)
        ensures
            Self::converts(deref_opt(value), r),
    ;

    /// No value both converts and fails to convert.
    proof fn lemma_outcome_unique(
        value: Option<Value>,
        r1: Result<Self, InputError>,
        r2: Result<Self, InputError>,
    )
        requires
            Self::converts(value, r1),
            Self::converts(value, r2),
        ensures
            r1 is Ok <==> r2 is Ok,
    ;
}

/// A GraphQL `ID`: an opaque string identifier.
#[derive(Clone, Debug, PartialEq, Eq)]
pub struct Id(pub String);

/// A tri-state input: not supplied, supplied as null, or supplied with a value.
#[derive(Clone, Debug)]
pub enum MaybeUndefined<T> {
    Undefined,
    Null,
    Value(T),
}

impl FromValue for String {
    open spec fn converts(value: Option<Value>, result: Result<String, InputError>) -> bool {
        match value {
            None => fails_bare(result, Reason::Missing),
            Some(Value::String(s)) => result == Ok::<String, InputError>(s),
            Some(_) => fails_bare(result, Reason::Expected(ValueKind::String)),
        }
    }

    fn from_value(value: Option<&Value>) -> (r: Result<String, InputError>) {
        match value {
            None => Err(InputError::new(Reason::Missing)),
            Some(Value::String(s)) => Ok(s.clone()),
            Some(_) => Err(InputError::new(Reason::Expected(ValueKind::String))),
        }
    }

    proof fn lemma_outcome_unique(
        value: Option<Value>,
        r1: Result<String, InputError>,
        r2: Result<String, InputError>,
    ) {
    }
}

impl FromValue for Id {
    open spec fn converts(value: Option<Value>, result: Result<Id, InputError>) -> bool {
        match value {
            None => fails_bare(result, Reason::Missing),
            Some(Value::String(s)) => result == Ok::<Id, InputError>(Id(s)),
            Some(_) => fails_bare(result, Reason::Expected(ValueKind::String)),
        }
    }

    fn from_value(value: Option<&Value>) -> (r: Result<Id, InputError>) {
        match value {
            None => Err(InputError::new(Reason::Missing)),
            Some(Value::String(s)) => Ok(Id(s.clone())),
            Some(_) => Err(InputError::new(Reason::Expected(ValueKind::String))),
        }
    }

    proof fn lemma_outcome_unique(
        value: Option<Value>,
        r1: Result<Id, InputError>,
        r2: Result<Id, InputError>,
    ) {
    }
}

impl FromValue for bool {
    open spec fn converts(value: Option<Value>, result: Result<bool, InputError>) -> bool {
        match value {
            None => fails_bare(result, Reason::Missing),
            Some(Value::Boolean(b)) => result == Ok::<bool, InputError>(b),
            Some(_) => fails_bare(result, Reason::Expected(ValueKind::Boolean)),
        }
    }

    fn from_value(value: Option<&Value>) -> (r: Result<bool, InputError>) {
        match value {
            None => Err(InputError::new(Reason::Missing)),
            Some(Value::Boolean(b)) => Ok(*b),
            Some(_) => Err(InputError::new(Reason::Expected(ValueKind::Boolean))),
        }
    }

    proof fn lemma_outcome_unique(
        value: Option<Value>,
        r1: Result<bool, InputError>,
        r2: Result<bool, InputError>,
    ) {
    }
}

impl FromValue for u8 {
    open spec fn converts(value: Option<Value>, result: Result<u8, InputError>) -> bool {
        match value {
            None => fails_bare(result, Reason::Missing),
            Some(Value::Int(n)) => result == Ok::<u8, InputError>(n as u8),
            Some(_) => fails_bare(result, Reason::Expected(ValueKind::Integer)),
        }
    }

    fn from_value(value: Option<&Value>) -> (r: Result<u8, InputError>) {
        match value {
            None => Err(InputError::new(Reason::Missing)),
            Some(Value::Int(n)) => Ok(#[verifier::truncate] (*n as u8)),
            Some(_) => Err(InputError::new(Reason::Expected(ValueKind::Integer))),
        }
    }

    proof fn lemma_outcome_unique(
        value: Option<Value>,
        r1: Result<u8, InputError>,
        r2: Result<u8, InputError>,
    ) {
    }
}

impl FromValue for u16 {
    open spec fn converts(value: Option<Value>, result: Result<u16, InputError>) -> bool {
        match value {
            None => fails_bare(result, Reason::Missing),
            Some(Value::Int(n)) => result == Ok::<u16, InputError>(n as u16),
            Some(_) => fails_bare(result, Reason::Expected(ValueKind::Integer)),
        }
    }

    fn from_value(value: Option<&Value>) -> (r: Result<u16, InputError>) {
        match value {
            None => Err(InputError::new(Reason::Missing)),
            Some(Value::Int(n)) => Ok(#[verifier::truncate] (*n as u16)),
            Some(_) => Err(InputError::new(Reason::Expected(ValueKind::Integer))),
        }
    }

    proof fn lemma_outcome_unique(
        value: Option<Value>,
        r1: Result<u16, InputError>,
        r2: Result<u16, InputError>,
    ) {
    }
}

impl FromValue for u32 {
    open spec fn converts(value: Option<Value>, result: Result<u32, InputError>) -> bool {
        match value {
            None => fails_bare(result, Reason::Missing),
            Some(Value::Int(n)) => result == Ok::<u32, InputError>(n as u32),
            Some(_) => fails_bare(result, Reason::Expected(ValueKind::Integer)),
        }
    }

    fn from_value(value: Option<&Value>) -> (r: Result<u32, InputError>) {
        match value {
            None => Err(InputError::new(Reason::Missing)),
            Some(Value::Int(n)) => Ok(#[verifier::truncate] (*n as u32)),
            Some(_) => Err(InputError::new(Reason::Expected(ValueKind::Integer))),
        }
    }

    proof fn lemma_outcome_unique(
        value: Option<Value>,
        r1: Result<u32, InputError>,
        r2: Result<u32, InputError>,
    ) {
    }
}

impl FromValue for u64 {
    open spec fn converts(value: Option<Value>, result: Result<u64, InputError>) -> bool {
        match value {
            None => fails_bare(result, Reason::Missing),
            Some(Value::Int(n)) => result == Ok::<u64, InputError>(n as u64),
            Some(_) => fails_bare(result, Reason::Expected(ValueKind::Integer)),
        }
    }

    fn from_value(value: Option<&Value>) -> (r: Result<u64, InputError>) {
        match value {
            None => Err(InputError::new(Reason::Missing)),
            Some(Value::Int(n)) => Ok(#[verifier::truncate] (*n as u64)),
            Some(_) => Err(InputError::new(Reason::Expected(ValueKind::Integer))),
        }
    }

    proof fn lemma_outcome_unique(
        value: Option<Value>,
        r1: Result<u64, InputError>,
        r2: Result<u64, InputError>,
    ) {
    }
}

impl FromValue for usize {
    open spec fn converts(value: Option<Value>, result: Result<usize, InputError>) -> bool {
        match value {
            None => fails_bare(result, Reason::Missing),
            Some(Value::Int(n)) => result == Ok::<usize, InputError>(n as usize),
            Some(_) => fails_bare(result, Reason::Expected(ValueKind::Integer)),
        }
    }

    fn from_value(value: Option<&Value>) -> (r: Result<usize, InputError>) {
        match value {
            None => Err(InputError::new(Reason::Missing)),
            Some(Value::Int(n)) => Ok(#[verifier::truncate] (*n as usize)),
            Some(_) => Err(InputError::new(Reason::Expected(ValueKind::Integer))),
        }
    }

    proof fn lemma_outcome_unique(
        value: Option<Value>,
        r1: Result<usize, InputError>,
        r2: Result<usize, InputError>,
    ) {
    }
}

impl FromValue for i8 {
    open spec fn converts(value: Option<Value>, result: Result<i8, InputError>) -> bool {
        match value {
            None => fails_bare(result, Reason::Missing),
            Some(Value::Int(n)) => result == Ok::<i8, InputError>(n as i8),
            Some(_) => fails_bare(result, Reason::Expected(ValueKind::Integer)),
        }
    }

    fn from_value(value: Option<&Value>) -> (r: Result<i8, InputError>) {
        match value {
            None => Err(InputError::new(Reason::Missing)),
            Some(Value::Int(n)) => Ok(#[verifier::truncate] (*n as i8)),
            Some(_) => Err(InputError::new(Reason::Expected(ValueKind::Integer))),
        }
    }

    proof fn lemma_outcome_unique(
        value: Option<Value>,
        r1: Result<i8, InputError>,
        r2: Result<i8, InputError>,
    ) {
    }
}

impl FromValue for i16 {
    open spec fn converts(value: Option<Value>, result: Result<i16, InputError>) -> bool {
        match value {
            None => fails_bare(result, Reason::Missing),
            Some(Value::Int(n)) => result == Ok::<i16, InputError>(n as i16),
            Some(_) => fails_bare(result, Reason::Expected(ValueKind::Integer)),
        }
    }

    fn from_value(value: Option<&Value>) -> (r: Result<i16, InputError>) {
        match value {
            None => Err(InputError::new(Reason::Missing)),
            Some(Value::Int(n)) => Ok(#[verifier::truncate] (*n as i16)),
            Some(_) => Err(InputError::new(Reason::Expected(ValueKind::Integer))),
        }
    }

    proof fn lemma_outcome_unique(
        value: Option<Value>,
        r1: Result<i16, InputError>,
        r2: Result<i16, InputError>,
    ) {
    }
}

impl FromValue for i32 {
    open spec fn converts(value: Option<Value>, result: Result<i32, InputError>) -> bool {
        match value {
            None => fails_bare(result, Reason::Missing),
            Some(Value::Int(n)) => result == Ok::<i32, InputError>(n as i32),
            Some(_) => fails_bare(result, Reason::Expected(ValueKind::Integer)),
        }
    }

    fn from_value(value: Option<&Value>) -> (r: Result<i32, InputError>) {
        match value {
            None => Err(InputError::new(Reason::Missing)),
            Some(Value::Int(n)) => Ok(#[verifier::truncate] (*n as i32)),
            Some(_) => Err(InputError::new(Reason::Expected(ValueKind::Integer))),
        }
    }

    proof fn lemma_outcome_unique(
        value: Option<Value>,
        r1: Result<i32, InputError>,
        r2: Result<i32, InputError>,
    ) {
    }
}

impl FromValue for i64 {
    open spec fn converts(value: Option<Value>, result: Result<i64, InputError>) -> bool {
        match value {
            None => fails_bare(result, Reason::Missing),
            Some(Value::Int(n)) => result == Ok::<i64, InputError>(n as i64),
            Some(_) => fails_bare(result, Reason::Expected(ValueKind::Integer)),
        }
    }

    fn from_value(value: Option<&Value>) -> (r: Result<i64, InputError>) {
        match value {
            None => Err(InputError::new(Reason::Missing)),
            Some(Value::Int(n)) => Ok(#[verifier::truncate] (*n as i64)),
            Some(_) => Err(InputError::new(Reason::Expected(ValueKind::Integer))),
        }
    }

    proof fn lemma_outcome_unique(
        value: Option<Value>,
        r1: Result<i64, InputError>,
        r2: Result<i64, InputError>,
    ) {
    }
}

impl FromValue for isize {
    open spec fn converts(value: Option<Value>, result: Result<isize, InputError>) -> bool {
        match value {
            None => fails_bare(result, Reason::Missing),
            Some(Value::Int(n)) => result == Ok::<isize, InputError>(n as isize),
            Some(_) => fails_bare(result, Reason::Expected(ValueKind::Integer)),
        }
    }

    fn from_value(value: Option<&Value>) -> (r: Result<isize, InputError>) {
        match value {
            None => Err(InputError::new(Reason::Missing)),
            Some(Value::Int(n)) => Ok(#[verifier::truncate] (*n as isize)),
            Some(_) => Err(InputError::new(Reason::Expected(ValueKind::Integer))),
        }
    }

    proof fn lemma_outcome_unique(
        value: Option<Value>,
        r1: Result<isize, InputError>,
        r2: Result<isize, InputError>,
    ) {
    }
}

/// An absent value and an explicit null both give `None`; any other value is
/// converted as `T`, and its failure is passed on unchanged.
impl<T: FromValue> FromValue for Option<T> {
    open spec fn converts(value: Option<Value>, result: Result<Option<T>, InputError>) -> bool {
        match value {
            None => result == Ok::<Option<T>, InputError>(None),
            Some(Value::Null) => result == Ok::<Option<T>, InputError>(None),
            Some(v) => match result {
                Ok(Some(x)) => T::converts(Some(v), Ok(x)),
                Ok(None) => false,
                Err(e) => T::converts(Some(v), Err(e)),
            },
        }
    }

    fn from_value(value: Option<&Value>) -> (r: Result<Option<T>, InputError>) {
        match value {
            None => Ok(None),
            Some(Value::Null) => Ok(None),
            Some(v) => match T::from_value(Some(v)) {
                Ok(x) => Ok(Some(x)),
                Err(e) => Err(e),
            },
        }
    }

    proof fn lemma_outcome_unique(
        value: Option<Value>,
        r1: Result<Option<T>, InputError>,
        r2: Result<Option<T>, InputError>,
    ) {
        match (r1, r2) {
            (Ok(Some(x)), Err(e)) => T::lemma_outcome_unique(value, Ok(x), Err(e)),
            (Err(e), Ok(Some(x))) => T::lemma_outcome_unique(value, Err(e), Ok(x)),
            _ => {},
        }
    }
}

/// Three mutually exclusive branches: absent gives `Undefined`, an explicit
/// null gives `Null`, anything else is converted as `T` into `Value`.
impl<T: FromValue> FromValue for MaybeUndefined<T> {
    open spec fn converts(
        value: Option<Value>,
        result: Result<MaybeUndefined<T>, InputError>,
    ) -> bool {
        match value {
            None => result == Ok::<MaybeUndefined<T>, InputError>(MaybeUndefined::Undefined),
            Some(Value::Null) => result == Ok::<MaybeUndefined<T>, InputError>(
                MaybeUndefined::Null,
            ),
            Some(v) => match result {
                Ok(MaybeUndefined::Value(x)) => T::converts(Some(v), Ok(x)),
                Ok(_) => false,
                Err(e) => T::converts(Some(v), Err(e)),
            },
        }
    }

    fn from_value(value: Option<&Value>) -> (r: Result<MaybeUndefined<T>, InputError>) {
        match value {
            None => Ok(MaybeUndefined::Undefined),
            Some(Value::Null) => Ok(MaybeUndefined::Null),
            Some(v) => match T::from_value(Some(v)) {
                Ok(x) => Ok(MaybeUndefined::Value(x)),
                Err(e) => Err(e),
            },
        }
    }

    proof fn lemma_outcome_unique(
        value: Option<Value>,
        r1: Result<MaybeUndefined<T>, InputError>,
        r2: Result<MaybeUndefined<T>, InputError>,
    ) {
        match (r1, r2) {
            (Ok(MaybeUndefined::Value(x)), Err(e)) => T::lemma_outcome_unique(value, Ok(x), Err(e)),
            (Err(e), Ok(MaybeUndefined::Value(x))) => T::lemma_outcome_unique(value, Err(e), Ok(x)),
            _ => {},
        }
    }
}

/// Whether converting each of `items` as `T` gives `out`, element by element.
pub open spec fn all_convert<T: FromValue>(items: Seq<Value>, out: Seq<T>) -> bool {
    &&& out.len() == items.len()
    &&& forall|j: int| 0 <= j < items.len() ==> #[trigger] T::converts(Some(items[j]), Ok(out[j]))
}

/// Whether the element at `j` converts successfully as `T`.
pub open spec fn element_succeeds<T: FromValue>(items: Seq<Value>, j: int) -> bool {
    exists|x: T| #[trigger] T::converts(Some(items[j]), Ok(x))
}

/// Whether the element at `j` fails to convert as `T`.
pub open spec fn element_fails<T: FromValue>(items: Seq<Value>, j: int) -> bool {
    exists|e: InputError| #[trigger] T::converts(Some(items[j]), Err(e))
}

/// Whether `e` is the error of the first failing element of `items`: every
/// element before `i` converts, element `i` fails with an error that `e` repeats
/// with the index `i` appended to its breadcrumb.
pub open spec fn first_failure<T: FromValue>(items: Seq<Value>, i: int, e: InputError) -> bool {
    &&& 0 <= i < items.len()
    &&& forall|j: int| 0 <= j < i ==> #[trigger] element_succeeds::<T>(items, j)
    &&& exists|inner: InputError|
        #![trigger T::converts(Some(items[i]), Err(inner))]
        T::converts(Some(items[i]), Err(inner)) && e.reason == inner.reason && e.path@
            == inner.path@.push(PathSegment::Index(i as usize))
}

/// Whether `result` is the outcome of converting the list `items` element by
/// element as `T`.
pub open spec fn list_converts<T: FromValue>(items: Seq<Value>, result: Result<Vec<T>, InputError>) -> bool {
    match result {
        Ok(out) => all_convert::<T>(items, out@),
        Err(e) => exists|i: int| first_failure::<T>(items, i, e),
    }
}

proof fn lemma_list_ok_not_err<T: FromValue>(items: Seq<Value>, out: Seq<T>, e: InputError)
    ensures
        !(all_convert::<T>(items, out) && list_converts::<T>(items, Err(e))),
{
    if all_convert::<T>(items, out) && list_converts::<T>(items, Err(e)) {
        let i = choose|i: int| first_failure::<T>(items, i, e);
        let inner = choose|inner: InputError|
            #![trigger T::converts(Some(items[i]), Err(inner))]
            T::converts(Some(items[i]), Err(inner)) && e.reason == inner.reason && e.path@
                == inner.path@.push(PathSegment::Index(i as usize));
        assert(T::converts(Some(items[i]), Ok(out[i])));
        T::lemma_outcome_unique(Some(items[i]), Ok(out[i]), Err(inner));
    }
}

/// A list converts element by element; the first failing element aborts the
/// conversion, its index appended to the error's breadcrumb.
impl<T: FromValue> FromValue for Vec<T> {
    open spec fn converts(value: Option<Value>, result: Result<Vec<T>, InputError>) -> bool {
        match value {
            None => fails_bare(result, Reason::Missing),
            Some(Value::List(items)) => list_converts::<T>(items@, result),
            Some(_) => fails_bare(result, Reason::Expected(ValueKind::List)),
        }
    }

    fn from_value(value: Option<&Value>) -> (r: Result<Vec<T>, InputError>) {
        match value {
            None => Err(InputError::new(Reason::Missing)),
            Some(Value::List(items)) => {
                let mut out: Vec<T> = Vec::new();
                let mut i: usize = 0;
                while i < items.len()
                    invariant
                        deref_opt(value) == Some(Value::List(*items)),
                        i <= items@.len(),
                        out@.len() == i,
                        forall|j: int|
                            0 <= j < i ==> #[trigger] T::converts(Some(items@[j]), Ok(out@[j])),
                    decreases items@.len() - i,
                {
                    match T::from_value(Some(&items[i])) {
                        Ok(x) => {
                            out.push(x);
                        },
                        Err(e) => {
                            let mut e = e;
                            let ghost inner = e;
                            e.path.push(PathSegment::Index(i));
                            assert forall|j: int| 0 <= j < i implies #[trigger] element_succeeds::<
                                T,
                            >(items@, j) by {
                                assert(T::converts(Some(items@[j]), Ok(out@[j])));
                            }
                            assert(first_failure::<T>(items@, i as int, e));
                            assert(list_converts::<T>(items@, Err(e)));
                            return Err(e);
                        },
                    }
                    i = i + 1;
                }
                Ok(out)
            },
            Some(_) => Err(InputError::new(Reason::Expected(ValueKind::List))),
        }
    }

    proof fn lemma_outcome_unique(
        value: Option<Value>,
        r1: Result<Vec<T>, InputError>,
        r2: Result<Vec<T>, InputError>,
    ) {
        if let Some(Value::List(items)) = value {
            match (r1, r2) {
                (Ok(out), Err(e)) => lemma_list_ok_not_err::<T>(items@, out@, e),
                (Err(e), Ok(out)) => lemma_list_ok_not_err::<T>(items@, out@, e),
                _ => {},
            }
        }
    }
}

/// Tri-state conversion is exhaustive and exclusive: a value that was not
/// supplied gives `Undefined`, an explicit null gives `Null`, and any other value
/// gives `Value` of its conversion as `T` (or that conversion's error); no input
/// gives two of these.
pub proof fn lemma_tri_state<T: FromValue>(
    value: Option<Value>,
    r: Result<MaybeUndefined<T>, InputError>,
)
    requires
        MaybeUndefined::<T>::converts(value, r),
    ensures
        value is None <==> r == Ok::<MaybeUndefined<T>, InputError>(MaybeUndefined::Undefined),
        value == Some(Value::Null) <==> r == Ok::<MaybeUndefined<T>, InputError>(
            MaybeUndefined::Null,
        ),
        (r is Ok && r->Ok_0 is Value) <==> (value is Some && value != Some(Value::Null) && exists|
            x: T,
        | #[trigger] T::converts(value, Ok(x))),
        r is Ok && r->Ok_0 is Value ==> T::converts(value, Ok(r->Ok_0->Value_0)),
{
    if let Some(v) = value {
        if v != Value::Null {
            match r {
                Ok(MaybeUndefined::Value(x)) => {
                    assert(T::converts(value, Ok(x)));
                },
                Err(e) => {
                    assert forall|x: T| !#[trigger] T::converts(value, Ok(x)) by {
                        if T::converts(value, Ok(x)) {
                            T::lemma_outcome_unique(value, Ok(x), Err(e));
                        }
                    }
                },
                _ => {},
            }
        }
    }
}

/// Sequence conversion: an empty list gives an empty sequence; if any element
/// fails to convert, the whole conversion fails, with an error whose breadcrumb
/// ends with the index of the first failing element.
pub proof fn lemma_sequence<T: FromValue>(items: Seq<Value>, r: Result<Vec<T>, InputError>)
    requires
        list_converts::<T>(items, r),
    ensures
        items.len() == 0 ==> r is Ok && r->Ok_0@.len() == 0,
        (exists|j: int, e: InputError|
            0 <= j < items.len() && #[trigger] T::converts(Some(items[j]), Err(e))) ==> r is Err,
        r is Err ==> exists|i: int|
            0 <= i < items.len() && r->Err_0.path@.len() > 0 && r->Err_0.path@.last()
                == PathSegment::Index(i as usize) && #[trigger] element_fails::<T>(items, i)
                && forall|j: int| 0 <= j < i ==> #[trigger] element_succeeds::<T>(items, j),
{
    match r {
        Ok(out) => {
            if exists|j: int, e: InputError|
                0 <= j < items.len() && #[trigger] T::converts(Some(items[j]), Err(e)) {
                let (j, e) = choose|j: int, e: InputError|
                    0 <= j < items.len() && #[trigger] T::converts(Some(items[j]), Err(e));
                assert(T::converts(Some(items[j]), Ok(out@[j])));
                T::lemma_outcome_unique(Some(items[j]), Ok(out@[j]), Err(e));
            }
        },
        Err(e) => {
            let i = choose|i: int| first_failure::<T>(items, i, e);
            let inner = choose|inner: InputError|
                #![trigger T::converts(Some(items[i]), Err(inner))]
                T::converts(Some(items[i]), Err(inner)) && e.reason == inner.reason && e.path@
                    == inner.path@.push(PathSegment::Index(i as usize));
            assert(e.path@.last() == PathSegment::Index(i as usize));
            assert(element_fails::<T>(items, i));
        },
    }
}

/// A primitive that maps onto one node of the value tree and back without loss.
pub trait ToValue: FromValue {
    /// The node that the value maps to.
    spec fn encoded(&self) -> Value;

    fn to_value(&self) -> (v: Value)
        ensures
            v == self.encoded(),
    ;

    /// Decoding the encoding of `x` gives `x` back, and nothing else.
    proof fn lemma_round_trip(x: Self)
        ensures
            forall|r: Result<Self, InputError>|
                #![trigger Self::converts(Some(x.encoded()), r)]
                Self::converts(Some(x.encoded()), r) <==> r == Ok::<Self, InputError>(x),
    ;
}

impl ToValue for String {
    open spec fn encoded(&self) -> Value {
        Value::String(*self)
    }

    fn to_value(&self) -> (v: Value) {
        Value::String(self.clone())
    }

    proof fn lemma_round_trip(x: String) {
    }
}

impl ToValue for Id {
    open spec fn encoded(&self) -> Value {
        Value::String(self.0)
    }

    fn to_value(&self) -> (v: Value) {
        Value::String(self.0.clone())
    }

    proof fn lemma_round_trip(x: Id) {
    }
}

impl ToValue for bool {
    open spec fn encoded(&self) -> Value {
        Value::Boolean(*self)
    }

    fn to_value(&self) -> (v: Value) {
        Value::Boolean(*self)
    }

    proof fn lemma_round_trip(x: bool) {
    }
}

impl ToValue for u8 {
    open spec fn encoded(&self) -> Value {
        Value::Int(*self as i128)
    }

    fn to_value(&self) -> (v: Value) {
        Value::Int(*self as i128)
    }

    proof fn lemma_round_trip(x: u8) {
    }
}

impl ToValue for u16 {
    open spec fn encoded(&self) -> Value {
        Value::Int(*self as i128)
    }

    fn to_value(&self) -> (v: Value) {
        Value::Int(*self as i128)
    }

    proof fn lemma_round_trip(x: u16) {
    }
}

impl ToValue for u32 {
    open spec fn encoded(&self) -> Value {
        Value::Int(*self as i128)
    }

    fn to_value(&self) -> (v: Value) {
        Value::Int(*self as i128)
    }

    proof fn lemma_round_trip(x: u32) {
    }
}

impl ToValue for u64 {
    open spec fn encoded(&self) -> Value {
        Value::Int(*self as i128)
    }

    fn to_value(&self) -> (v: Value) {
        Value::Int(*self as i128)
    }

    proof fn lemma_round_trip(x: u64) {
    }
}

impl ToValue for usize {
    open spec fn encoded(&self) -> Value {
        Value::Int(*self as i128)
    }

    fn to_value(&self) -> (v: Value) {
        Value::Int(*self as i128)
    }

    proof fn lemma_round_trip(x: usize) {
    }
}

impl ToValue for i8 {
    open spec fn encoded(&self) -> Value {
        Value::Int(*self as i128)
    }

    fn to_value(&self) -> (v: Value) {
        Value::Int(*self as i128)
    }

    proof fn lemma_round_trip(x: i8) {
    }
}

impl ToValue for i16 {
    open spec fn encoded(&self) -> Value {
        Value::Int(*self as i128)
    }

    fn to_value(&self) -> (v: Value) {
        Value::Int(*self as i128)
    }

    proof fn lemma_round_trip(x: i16) {
    }
}

impl ToValue for i32 {
    open spec fn encoded(&self) -> Value {
        Value::Int(*self as i128)
    }

    fn to_value(&self) -> (v: Value) {
        Value::Int(*self as i128)
    }

    proof fn lemma_round_trip(x: i32) {
    }
}

impl ToValue for i64 {
    open spec fn encoded(&self) -> Value {
        Value::Int(*self as i128)
    }

    fn to_value(&self) -> (v: Value) {
        Value::Int(*self as i128)
    }

    proof fn lemma_round_trip(x: i64) {
    }
}

impl ToValue for isize {
    open spec fn encoded(&self) -> Value {
        Value::Int(*self as i128)
    }

    fn to_value(&self) -> (v: Value) {
        Value::Int(*self as i128)
    }

    proof fn lemma_round_trip(x: isize) {
    }
}

} // verus!
