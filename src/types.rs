//! The model of exported declarations: the types they use, the data layouts
//! and the function signatures.
use vstd::prelude::*;

verus! {

/// A type as it appears in an exported declaration.
#[derive(Debug)]
pub enum AbiType {
    Bool,
    U8,
    U16,
    U32,
    U64,
    I8,
    I16,
    I32,
    I64,
    Usize,
    Isize,
    /// An exported data layout, by its type name.
    Named(String),
    /// A raw address of a value; `true` when the pointee may be written.
    Ptr(bool, Box<AbiType>),
    /// A type that has no C counterpart (a slice, a generic, a trait object),
    /// kept with its source spelling so that an error can name it.
    Unsupported(String),
}

/// A field of an exported data layout.
#[derive(Debug)]
pub struct Field {
    pub name: String,
    pub ty: AbiType,
}

/// An exported data layout: a type name and its fields in declaration order.
#[derive(Debug)]
pub struct DataLayout {
    pub name: String,
    pub fields: Vec<Field>,
}

/// An exported function: its symbol, its parameter types in order, and its
/// return type (`None` for a function that returns nothing).
#[derive(Debug)]
pub struct FunctionDecl {
    pub symbol: String,
    pub params: Vec<AbiType>,
    pub ret: Option<AbiType>,
}

/// One exported declaration.
#[derive(Debug)]
pub enum Decl {
    Layout(DataLayout),
    Function(FunctionDecl),
}

/// Whether every part of `t` has a C counterpart.
pub open spec fn representable(t: AbiType) -> bool
    decreases t,
{
    match t {
        AbiType::Ptr(_, p) => representable(*p),
        AbiType::Unsupported(_) => false,
        _ => true,
    }
}

/// The source spelling of the type inside `t` that has no C counterpart.
pub open spec fn offending(t: AbiType) -> Seq<char>
    decreases t,
{
    match t {
        AbiType::Ptr(_, p) => offending(*p),
        AbiType::Unsupported(s) => s@,
        _ => Seq::empty(),
    }
}

/// The name under which a declaration is exported: a layout's type name or a
/// function's symbol.
pub open spec fn decl_name(d: Decl) -> Seq<char> {
    match d {
        Decl::Layout(l) => l.name@,
        Decl::Function(f) => f.symbol@,
    }
}

impl Decl {
    /// The name under which the declaration is exported.
    pub fn name(&self) -> (r: &String)
        ensures
            r@ == decl_name(*self),
    {
        match self {
            Decl::Layout(l) => &l.name,
            Decl::Function(f) => &f.symbol,
        }
    }
}

/// The types a declaration uses, in order: a layout's field types, or a
/// function's parameter types followed by its return type.
pub open spec fn decl_types(x: Decl) -> Seq<AbiType> {
    match x {
        Decl::Layout(l) => field_types(l.fields@),
        Decl::Function(f) => f.params@ + ret_types(f.ret),
    }
}

/// The field types of a layout, in declaration order.
pub open spec fn field_types(fs: Seq<Field>) -> Seq<AbiType> {
    fs.map_values(|f: Field| f.ty)
}

/// A return type as a sequence: empty for a function that returns nothing.
pub open spec fn ret_types(r: Option<AbiType>) -> Seq<AbiType> {
    match r {
        Some(t) => seq![t],
        None => Seq::empty(),
    }
}

/// The source spelling of the first type in `ts` that has no C counterpart,
/// or `None` when all have one.
pub open spec fn first_offending(ts: Seq<AbiType>) -> Option<Seq<char>>
    decreases ts.len(),
{
    if ts.len() == 0 {
        None
    } else if !representable(ts[0]) {
        Some(offending(ts[0]))
    } else {
        first_offending(ts.drop_first())
    }
}

/// Whether `t` has a C counterpart; when not, also the spelling to report.
pub fn check_type(t: &AbiType) -> (r: Option<String>)
    ensures
        r is None <==> representable(*t),
        r matches Some(s) ==> s@ == offending(*t),
    decreases t,
{
    match t {
        AbiType::Ptr(_, p) => check_type(p),
        AbiType::Unsupported(s) => Some(s.clone()),
        _ => None,
    }
}

/// A first failure in `a + b` is one of `a`, else one of `b`.
proof fn lemma_first_offending_append(a: Seq<AbiType>, b: Seq<AbiType>)
    ensures
        first_offending(a + b) == match first_offending(a) {
            Some(t) => Some(t),
            None => first_offending(b),
        },
    decreases a.len(),
{
    if a.len() == 0 {
        assert(a + b =~= b);
    } else {
        assert((a + b)[0] == a[0]);
        assert((a + b).drop_first() =~= a.drop_first() + b);
        lemma_first_offending_append(a.drop_first(), b);
    }
}

/// Scans the types from the front for one that has no C counterpart.
fn check_types(ts: &Vec<AbiType>) -> (r: Option<String>)
    ensures
        match r {
            Some(s) => first_offending(ts@) == Some(s@),
            None => first_offending(ts@) is None,
        },
{
    let mut i: usize = 0;
    assert(ts@.skip(0) =~= ts@);
    while i < ts.len()
        invariant
            i <= ts.len(),
            first_offending(ts@) == first_offending(ts@.skip(i as int)),
        decreases ts.len() - i,
    {
        let c = check_type(&ts[i]);
        assert(ts@.skip(i as int)[0] == ts@[i as int]);
        assert(ts@.skip(i as int).drop_first() =~= ts@.skip(i as int + 1));
        if c.is_some() {
            return c;
        }
        i = i + 1;
    }
    assert(ts@.skip(i as int) =~= Seq::<AbiType>::empty());
    None
}

/// Scans the field types from the front for one that has no C counterpart.
fn check_fields(fs: &Vec<Field>) -> (r: Option<String>)
    ensures
        match r {
            Some(s) => first_offending(field_types(fs@)) == Some(s@),
            None => first_offending(field_types(fs@)) is None,
        },
{
    let ghost ts = field_types(fs@);
    let mut i: usize = 0;
    assert(ts.skip(0) =~= ts);
    while i < fs.len()
        invariant
            i <= fs.len(),
            ts == field_types(fs@),
            first_offending(ts) == first_offending(ts.skip(i as int)),
        decreases fs.len() - i,
    {
        let c = check_type(&fs[i].ty);
        assert(ts.skip(i as int)[0] == ts[i as int]);
        assert(ts.skip(i as int).drop_first() =~= ts.skip(i as int + 1));
        if c.is_some() {
            return c;
        }
        i = i + 1;
    }
    assert(ts.skip(i as int) =~= Seq::<AbiType>::empty());
    None
}

/// The first type of a declaration that has no C counterpart, by its source
/// spelling, or `None` when every type it uses has one.
pub fn check_decl(x: &Decl) -> (r: Option<String>)
    ensures
        match r {
            Some(s) => first_offending(decl_types(*x)) == Some(s@),
            None => first_offending(decl_types(*x)) is None,
        },
{
    match x {
        Decl::Layout(l) => {
            let c = check_fields(&l.fields);
            assert(decl_types(*x) == field_types(l.fields@));
            c
        },
        Decl::Function(f) => {
            let ghost tail = ret_types(f.ret);
            proof {
                lemma_first_offending_append(f.params@, tail);
            }
            assert(decl_types(*x) == f.params@ + tail);
            let c = check_types(&f.params);
            if c.is_some() {
                return c;
            }
            match &f.ret {
                Some(t) => {
                    assert(tail[0] == *t);
                    assert(tail.drop_first() =~= Seq::<AbiType>::empty());
                    assert(first_offending(tail.drop_first()) is None);
                    check_type(t)
                },
                None => {
                    assert(first_offending(tail) is None);
                    None
                },
            }
        },
    }
}

} // verus!
