//! Rendering exported declarations as C text in a chosen dialect.
use vstd::prelude::*;
use crate::text::concat;
use crate::types::{AbiType, DataLayout, Decl, Field, FunctionDecl};

verus! {

/// A header dialect: the rules that spell types and open a header. Adding a
/// dialect adds a variant and its spellings; the emission order stays as it is.
#[derive(Clone, Copy, Debug, PartialEq, Eq, Structural)]
pub enum Dialect {
    C99,
}

/// How `t` is spelled in dialect `d`.
pub open spec fn spelling(d: Dialect, t: AbiType) -> Seq<char>
    decreases t,
{
    match d {
        Dialect::C99 => match t {
            AbiType::Bool => "bool"@,
            AbiType::U8 => "uint8_t"@,
            AbiType::U16 => "uint16_t"@,
            AbiType::U32 => "uint32_t"@,
            AbiType::U64 => "uint64_t"@,
            AbiType::I8 => "int8_t"@,
            AbiType::I16 => "int16_t"@,
            AbiType::I32 => "int32_t"@,
            AbiType::I64 => "int64_t"@,
            AbiType::Usize => "uintptr_t"@,
            AbiType::Isize => "intptr_t"@,
            AbiType::Named(n) => n@,
            AbiType::Ptr(m, p) => spelling(d, *p) + if m {
                "*"@
            } else {
                " const*"@
            },
            AbiType::Unsupported(s) => s@,
        },
    }
}

/// How a return type is spelled: `void` when the function returns nothing.
pub open spec fn ret_spelling(d: Dialect, r: Option<AbiType>) -> Seq<char> {
    match r {
        Some(t) => spelling(d, t),
        None => "void"@,
    }
}

/// The lines that open a header in dialect `d`.
pub open spec fn prologue(d: Dialect) -> Seq<char> {
    match d {
        Dialect::C99 => "#include <stdbool.h>\n#include <stdint.h>\n\n"@,
    }
}

/// The line that declares field `f` inside a struct.
pub open spec fn field_line(d: Dialect, f: Field) -> Seq<char> {
    "    "@ + spelling(d, f.ty) + " "@ + f.name@ + ";\n"@
}

/// One line per field, in declaration order.
pub open spec fn field_lines(d: Dialect, fields: Seq<Field>) -> Seq<Seq<char>> {
    fields.map_values(|f: Field| field_line(d, f))
}

/// The struct declaration of a data layout.
pub open spec fn layout_text(d: Dialect, l: DataLayout) -> Seq<char> {
    "typedef struct "@ + l.name@ + " {\n"@ + concat(field_lines(d, l.fields@)) + "} "@ + l.name@
        + ";\n\n"@
}

/// The pieces `parts` with `sep` between each two.
pub open spec fn join(parts: Seq<Seq<char>>, sep: Seq<char>) -> Seq<char>
    decreases parts.len(),
{
    if parts.len() == 0 {
        Seq::empty()
    } else if parts.len() == 1 {
        parts[0]
    } else {
        join(parts.drop_last(), sep) + sep + parts.last()
    }
}

/// The parameter list of a prototype: the types in order, or `void` when there
/// are none.
pub open spec fn param_list(d: Dialect, params: Seq<AbiType>) -> Seq<char> {
    if params.len() == 0 {
        "void"@
    } else {
        join(params.map_values(|t: AbiType| spelling(d, t)), ", "@)
    }
}

/// The prototype of an exported function, under its exact symbol.
pub open spec fn prototype(d: Dialect, f: FunctionDecl) -> Seq<char> {
    ret_spelling(d, f.ret) + " "@ + f.symbol@ + "("@ + param_list(d, f.params@) + ");\n\n"@
}

/// The text a declaration contributes to a header.
pub open spec fn decl_text(d: Dialect, x: Decl) -> Seq<char> {
    match x {
        Decl::Layout(l) => layout_text(d, l),
        Decl::Function(f) => prototype(d, f),
    }
}

/// The texts of the declarations, in their order.
pub open spec fn decl_texts(d: Dialect, ds: Seq<Decl>) -> Seq<Seq<char>> {
    ds.map_values(|x: Decl| decl_text(d, x))
}

/// The whole header for the declarations `ds`.
pub open spec fn header_text(d: Dialect, ds: Seq<Decl>) -> Seq<char> {
    prologue(d) + concat(decl_texts(d, ds))
}

/// Spells `t` in dialect `d`.
pub fn spell(d: Dialect, t: &AbiType) -> (r: String)
    ensures
        r@ == spelling(d, *t),
    decreases t,
{
    match d {
        Dialect::C99 => match t {
            AbiType::Bool => String::from_str("bool"),
            AbiType::U8 => String::from_str("uint8_t"),
            AbiType::U16 => String::from_str("uint16_t"),
            AbiType::U32 => String::from_str("uint32_t"),
            AbiType::U64 => String::from_str("uint64_t"),
            AbiType::I8 => String::from_str("int8_t"),
            AbiType::I16 => String::from_str("int16_t"),
            AbiType::I32 => String::from_str("int32_t"),
            AbiType::I64 => String::from_str("int64_t"),
            AbiType::Usize => String::from_str("uintptr_t"),
            AbiType::Isize => String::from_str("intptr_t"),
            AbiType::Named(n) => n.clone(),
            AbiType::Ptr(m, p) => {
                let mut s = spell(d, p);
                if *m {
                    s.append("*");
                } else {
                    s.append(" const*");
                }
                s
            },
            AbiType::Unsupported(s) => s.clone(),
        },
    }
}

/// Renders the lines that open a header in dialect `d`.
pub fn render_prologue(d: Dialect) -> (r: String)
    ensures
        r@ == prologue(d),
{
    match d {
        Dialect::C99 => String::from_str("#include <stdbool.h>\n#include <stdint.h>\n\n"),
    }
}

/// Renders the line of one struct field.
pub fn render_field(d: Dialect, f: &Field) -> (r: String)
    ensures
        r@ == field_line(d, *f),
{
    let mut s = String::from_str("    ");
    let t = spell(d, &f.ty);
    s.append(t.as_str());
    s.append(" ");
    s.append(f.name.as_str());
    s.append(";\n");
    s
}

/// Renders the struct declaration of a data layout, fields in declaration
/// order.
pub fn render_layout(d: Dialect, l: &DataLayout) -> (r: String)
    ensures
        r@ == layout_text(d, *l),
{
    let mut s = String::from_str("typedef struct ");
    s.append(l.name.as_str());
    s.append(" {\n");
    let ghost head = s@;
    let ghost fs = l.fields@;
    let mut i: usize = 0;
    while i < l.fields.len()
        invariant
            i <= fs.len(),
            fs == l.fields@,
            s@ == head + concat(field_lines(d, fs.take(i as int))),
        decreases fs.len() - i,
    {
        let line = render_field(d, &l.fields[i]);
        s.append(line.as_str());
        proof {
            let t = field_lines(d, fs.take(i as int + 1));
            assert(t.drop_last() =~= field_lines(d, fs.take(i as int)));
            assert(t.last() == field_line(d, fs[i as int]));
            assert(s@ =~= head + concat(t));
        }
        i = i + 1;
    }
    assert(fs.take(fs.len() as int) =~= fs);
    s.append("} ");
    s.append(l.name.as_str());
    s.append(";\n\n");
    s
}

/// Renders the parameter list of a prototype.
pub fn render_params(d: Dialect, params: &Vec<AbiType>) -> (r: String)
    ensures
        r@ == param_list(d, params@),
{
    if params.len() == 0 {
        return String::from_str("void");
    }
    let ghost parts = params@.map_values(|t: AbiType| spelling(d, t));
    let mut s = String::new();
    let mut i: usize = 0;
    while i < params.len()
        invariant
            i <= params.len(),
            parts == params@.map_values(|t: AbiType| spelling(d, t)),
            s@ == join(parts.take(i as int), ", "@),
        decreases params.len() - i,
    {
        if i > 0 {
            s.append(", ");
        }
        let t = spell(d, &params[i]);
        s.append(t.as_str());
        proof {
            let t = parts.take(i as int + 1);
            if i == 0 {
                assert(s@ =~= join(t, ", "@));
            } else {
                assert(t.drop_last() =~= parts.take(i as int));
                assert(s@ =~= join(t, ", "@));
            }
        }
        i = i + 1;
    }
    assert(parts.take(params.len() as int) =~= parts);
    s
}

/// Renders the prototype of an exported function.
pub fn render_prototype(d: Dialect, f: &FunctionDecl) -> (r: String)
    ensures
        r@ == prototype(d, *f),
{
    let mut s = match &f.ret {
        Some(t) => spell(d, t),
        None => String::from_str("void"),
    };
    s.append(" ");
    s.append(f.symbol.as_str());
    s.append("(");
    let ps = render_params(d, &f.params);
    s.append(ps.as_str());
    s.append(");\n\n");
    s
}

/// Renders the text one declaration contributes to a header.
pub fn render_decl(d: Dialect, x: &Decl) -> (r: String)
    ensures
        r@ == decl_text(d, *x),
{
    match x {
        Decl::Layout(l) => render_layout(d, l),
        Decl::Function(f) => render_prototype(d, f),
    }
}

} // verus!
