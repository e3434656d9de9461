//! The exported surface: the functions and data layouts offered to C callers.
use vstd::prelude::*;
use crate::surface::{has_name, AbiSurface};
use crate::types::{decl_name, AbiType, DataLayout, Decl, Field, FunctionDecl};

verus! {

/// A data layout exported to C: two unsigned 32-bit fields, `a` then `b`.
#[derive(Clone, Copy, Debug, PartialEq, Eq, Structural)]
pub struct ExampleStruct {
    pub a: u32,
    pub b: u32,
}

/// Adds two unsigned 32-bit integers.
///
/// A sum past `u32::MAX` is an invariant violation of the caller, on which the
/// exported symbol halts; the verified function leaves that input out.
pub fn example_one(a: u32, b: u32) -> (r: u32)
    requires
        a + b <= u32::MAX,
    ensures
        r == a + b,
{
    a + b
}

impl ExampleStruct {
    /// Accepts a buffer and leaves the struct as it was.
    pub fn example_two(&mut self, data: &[u8])
        ensures
            *final(self) == *old(self),
    {
        let _ = data;
    }
}

/// `ExampleStruct` as an exported data layout: `a` then `b`, both `u32`.
pub open spec fn is_example_struct_layout(x: Decl) -> bool {
    &&& x matches Decl::Layout(l)
    &&& l.name@ == "ExampleStruct"@
    &&& l.fields@.len() == 2
    &&& l.fields@[0].name@ == "a"@
    &&& l.fields@[0].ty matches AbiType::U32
    &&& l.fields@[1].name@ == "b"@
    &&& l.fields@[1].ty matches AbiType::U32
}

/// `example_one` as an exported function: two `u32` in, one `u32` out.
pub open spec fn is_example_one_decl(x: Decl) -> bool {
    &&& x matches Decl::Function(f)
    &&& f.symbol@ == "example_one"@
    &&& f.params@.len() == 2
    &&& f.params@[0] matches AbiType::U32
    &&& f.params@[1] matches AbiType::U32
    &&& f.ret matches Some(AbiType::U32)
}

/// The declarations this library exports to C, in declaration order.
pub fn this_library() -> (r: AbiSurface)
    ensures
        r.wf(),
        r@.len() == 2,
        is_example_struct_layout(r@[0]),
        is_example_one_decl(r@[1]),
{
    let mut fields: Vec<Field> = Vec::new();
    fields.push(Field { name: String::from_str("a"), ty: AbiType::U32 });
    fields.push(Field { name: String::from_str("b"), ty: AbiType::U32 });
    let layout = Decl::Layout(DataLayout { name: String::from_str("ExampleStruct"), fields });
    let mut params: Vec<AbiType> = Vec::new();
    params.push(AbiType::U32);
    params.push(AbiType::U32);
    let function = Decl::Function(
        FunctionDecl { symbol: String::from_str("example_one"), params, ret: Some(AbiType::U32) },
    );
    let mut surface = AbiSurface::new();
    let _ = surface.declare(layout);
    proof {
        reveal_strlit("ExampleStruct");
        reveal_strlit("example_one");
        assert("ExampleStruct"@.len() != "example_one"@.len());
        assert(surface@.len() == 1);
        assert(decl_name(surface@[0]) == "ExampleStruct"@);
        assert(!has_name(surface@, "example_one"@));
    }
    let _ = surface.declare(function);
    surface
}

} // verus!
