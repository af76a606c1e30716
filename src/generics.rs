//! Type expressions and the lifetime-erasure normalizer.
//!
//! Generated implementations for generic and interface-bearing types are
//! written once, against the form of a type in which every lifetime is
//! `'static`.
use vstd::prelude::*;

verus! {

/// A declared type, as far as the normalizer reads it.
#[derive(Debug)]
pub enum TypeExpr {
    /// A path such as `a::b::C<'x, T>`.
    Path(Vec<Segment>),
    /// A reference `&'lifetime mut elem`; `lifetime` is the name without its
    /// apostrophe.
    Reference { lifetime: Option<String>, mutable: bool, elem: Box<TypeExpr> },
    /// Any other type (tuple, array, slice, ...), carried as its source text.
    Other(String),
}

/// One segment of a path with its angle-bracketed arguments (none when empty).
#[derive(Debug)]
pub struct Segment {
    pub ident: String,
    pub args: Vec<GenericArg>,
}

/// One angle-bracketed argument of a path segment.
#[derive(Debug)]
pub enum GenericArg {
    Type(TypeExpr),
    /// A lifetime, by its name without the apostrophe.
    Lifetime(String),
    /// Any other argument (a constant, an associated type binding, ...).
    Other(String),
}

/// Whether `r` is `t` with every lifetime in a generic argument or in a
/// reference, at any depth, replaced by `'static`; every other node is kept.
pub open spec fn erases_to(t: TypeExpr, r: TypeExpr) -> bool
    decreases t,
{
    match t {
        TypeExpr::Path(segs) => match r {
            TypeExpr::Path(rsegs) => {
                &&& rsegs@.len() == segs@.len()
                &&& forall|i: int|
                    #![trigger rsegs@[i]]
                    0 <= i < segs@.len() ==> {
                        &&& rsegs@[i].ident == segs@[i].ident
                        &&& rsegs@[i].args@.len() == segs@[i].args@.len()
                        &&& forall|j: int|
                            #![trigger rsegs@[i].args@[j]]
                            0 <= j < segs@[i].args@.len() ==> match segs@[i].args@[j] {
                                GenericArg::Type(a) => match rsegs@[i].args@[j] {
                                    GenericArg::Type(b) => erases_to(a, b),
                                    _ => false,
                                },
                                GenericArg::Lifetime(_) => match rsegs@[i].args@[j] {
                                    GenericArg::Lifetime(l) => l@ == STATIC_LIFETIME@,
                                    _ => false,
                                },
                                other => rsegs@[i].args@[j] == other,
                            }
                    }
            },
            _ => false,
        },
        TypeExpr::Reference { lifetime, mutable, elem } => match r {
            TypeExpr::Reference { lifetime: rl, mutable: rm, elem: re } => {
                &&& rm == mutable
                &&& match (lifetime, rl) {
                    (Some(_), Some(l)) => l@ == STATIC_LIFETIME@,
                    (None, None) => true,
                    _ => false,
                }
                &&& erases_to(*elem, *re)
            },
            _ => false,
        },
        TypeExpr::Other(_) => r == t,
    }
}

/// The name of the `'static` lifetime.
pub const STATIC_LIFETIME: &'static str = "static";

/// The form of `ty` in which every lifetime, in generic arguments and in
/// references at any depth, is `'static`; every other node is kept as it is.
pub fn replace_type_generics_with_static(ty: &TypeExpr) -> (r: TypeExpr)
    ensures
        erases_to(*ty, r),
    decreases ty,
{
    match ty {
        TypeExpr::Path(segs) => {
            let mut out: Vec<Segment> = Vec::new();
            let mut i: usize = 0;
            while i < segs.len()
                invariant
                    *ty == TypeExpr::Path(*segs),
                    i <= segs@.len(),
                    out@.len() == i,
                    forall|k: int|
                        #![trigger out@[k]]
                        0 <= k < i ==> {
                            &&& out@[k].ident == segs@[k].ident
                            &&& out@[k].args@.len() == segs@[k].args@.len()
                            &&& forall|j: int|
                                #![trigger out@[k].args@[j]]
                                0 <= j < segs@[k].args@.len() ==> match segs@[k].args@[j] {
                                    GenericArg::Type(a) => match out@[k].args@[j] {
                                        GenericArg::Type(b) => erases_to(a, b),
                                        _ => false,
                                    },
                                    GenericArg::Lifetime(_) => match out@[k].args@[j] {
                                        GenericArg::Lifetime(l) => l@ == STATIC_LIFETIME@,
                                        _ => false,
                                    },
                                    other => out@[k].args@[j] == other,
                                }
                        },
                decreases segs@.len() - i,
            {
                let seg = &segs[i];
                let mut args: Vec<GenericArg> = Vec::new();
                let mut j: usize = 0;
                while j < seg.args.len()
                    invariant
                        *ty == TypeExpr::Path(*segs),
                        i < segs@.len(),
                        *seg == segs@[i as int],
                        j <= seg.args@.len(),
                        args@.len() == j,
                        forall|m: int|
                            #![trigger args@[m]]
                            0 <= m < j ==> match seg.args@[m] {
                                GenericArg::Type(a) => match args@[m] {
                                    GenericArg::Type(b) => erases_to(a, b),
                                    _ => false,
                                },
                                GenericArg::Lifetime(_) => match args@[m] {
                                    GenericArg::Lifetime(l) => l@ == STATIC_LIFETIME@,
                                    _ => false,
                                },
                                other => args@[m] == other,
                            },
                    decreases seg.args@.len() - j,
                {
                    let arg = match &seg.args[j] {
                        GenericArg::Type(t) => {
                            proof {
                                assert(decreases_to!(*ty => ty->Path_0));
                                assert(decreases_to!(ty->Path_0 => ty->Path_0@));
                                assert(decreases_to!(ty->Path_0@ => ty->Path_0@[i as int]));
                                assert(decreases_to!(ty->Path_0@[i as int] => ty->Path_0@[i as int].args));
                                assert(decreases_to!(seg.args => seg.args@));
                                assert(decreases_to!(seg.args@ => seg.args@[j as int]));
                                assert(decreases_to!(seg.args@[j as int] => seg.args@[j as int]->Type_0));
                                assert(decreases_to!(*ty => *t));
                            }
                            GenericArg::Type(replace_type_generics_with_static(t))
                        },
                        GenericArg::Lifetime(_) => GenericArg::Lifetime(
                            String::from_str(STATIC_LIFETIME),
                        ),
                        GenericArg::Other(o) => GenericArg::Other(o.clone()),
                    };
                    args.push(arg);
                    j = j + 1;
                }
                out.push(Segment { ident: seg.ident.clone(), args });
                i = i + 1;
            }
            TypeExpr::Path(out)
        },
        TypeExpr::Reference { lifetime, mutable, elem } => {
            let rl = match lifetime {
                Some(_) => Some(String::from_str(STATIC_LIFETIME)),
                None => None,
            };
            TypeExpr::Reference {
                lifetime: rl,
                mutable: *mutable,
                elem: Box::new(replace_type_generics_with_static(elem)),
            }
        },
        TypeExpr::Other(o) => TypeExpr::Other(o.clone()),
    }
}

/// One generic parameter of a declaration, by name (lifetimes without their
/// apostrophe).
#[derive(Debug)]
pub enum GenericParam {
    Lifetime(String),
    Type(String),
    Const(String),
}

impl GenericParam {
    /// A field-for-field copy.
    pub fn copy(&self) -> (r: GenericParam)
        ensures
            r == *self,
    {
        match self {
            GenericParam::Lifetime(s) => GenericParam::Lifetime(s.clone()),
            GenericParam::Type(s) => GenericParam::Type(s.clone()),
            GenericParam::Const(s) => GenericParam::Const(s.clone()),
        }
    }
}

/// The generic parameters of a declaration, in declaration order.
#[derive(Debug)]
pub struct Generics {
    pub params: Vec<GenericParam>,
}

/// The lifetime that generated implementations add to a declaration's own
/// generics.
pub const REGISTRATION_LIFETIME: &'static str = "__dynamic_graphql_lifetime";

/// The generics extended by one lifetime parameter, and that parameter.
pub fn add_new_lifetime_to_generics(generics: &Generics) -> (r: (Generics, GenericParam))
    ensures
        r.1 is Lifetime,
        r.1->Lifetime_0@ == REGISTRATION_LIFETIME@,
        r.0.params@ == generics.params@.push(r.1),
{
    let mut params: Vec<GenericParam> = Vec::new();
    let mut i: usize = 0;
    while i < generics.params.len()
        invariant
            i <= generics.params@.len(),
            params@ == generics.params@.subrange(0, i as int),
        decreases generics.params@.len() - i,
    {
        params.push(generics.params[i].copy());
        proof {
            assert(params@ =~= generics.params@.subrange(0, i + 1));
        }
        i = i + 1;
    }
    let lifetime = GenericParam::Lifetime(String::from_str(REGISTRATION_LIFETIME));
    params.push(lifetime.copy());
    proof {
        assert(params@ =~= generics.params@.push(lifetime));
    }
    (Generics { params }, lifetime)
}

} // verus!
