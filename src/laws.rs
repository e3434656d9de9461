//! What holds of every header the generator produces.
use vstd::prelude::*;
use crate::generator::{default_output_dir, generates, header_path, resolved_dir, Header, HeaderFile};
use crate::render::{
    decl_text, decl_texts, field_line, field_lines, header_text, layout_text, param_list, prologue,
    prototype, ret_spelling, Dialect,
};
use crate::surface::GenError;
use crate::text::{concat, lemma_concat_order, lemma_concat_piece, offset_of};
use crate::types::{DataLayout, Decl};

verus! {

/// Where the text of declaration `i` begins in the header for `ds`.
pub open spec fn decl_offset(d: Dialect, ds: Seq<Decl>, i: int) -> int {
    prologue(d).len() + offset_of(decl_texts(d, ds), i)
}

/// Where the line of field `i` begins in the struct declaration of `l`.
pub open spec fn field_offset(d: Dialect, l: DataLayout, i: int) -> int {
    ("typedef struct "@ + l.name@ + " {\n"@).len() + offset_of(field_lines(d, l.fields@), i)
}

/// Generating twice from the same declarations, header configuration and
/// override gives the same outcome: the same path and byte-identical
/// contents, or the same error.
pub proof fn lemma_generation_deterministic(
    r1: Result<HeaderFile, GenError>,
    r2: Result<HeaderFile, GenError>,
    o: Option<Seq<char>>,
    header: Header,
    ds: Seq<Decl>,
)
    requires
        generates(r1, o, header, ds),
        generates(r2, o, header, ds),
    ensures
        r1 is Ok <==> r2 is Ok,
        r1 matches Ok(f1) ==> r2 matches Ok(f2) && f1.path@ == f2.path@ && f1.contents@
            == f2.contents@,
        r1 matches Err(GenError::Unrepresentable { symbol: s1, offending_type: t1 }) ==> r2 matches Err(
            GenError::Unrepresentable { symbol: s2, offending_type: t2 },
        ) && s1@ == s2@ && t1@ == t2@,
        !(r1 matches Err(GenError::DuplicateName { .. })),
{
}

/// The header lists the declarations in the order they were declared: each
/// declaration's text stands in the header, and that of an earlier
/// declaration ends before that of a later one begins.
pub proof fn lemma_declaration_order(d: Dialect, ds: Seq<Decl>, i: int, j: int)
    requires
        0 <= i < j < ds.len(),
    ensures
        header_text(d, ds).subrange(
            decl_offset(d, ds, i),
            decl_offset(d, ds, i) + decl_text(d, ds[i]).len(),
        ) == decl_text(d, ds[i]),
        header_text(d, ds).subrange(
            decl_offset(d, ds, j),
            decl_offset(d, ds, j) + decl_text(d, ds[j]).len(),
        ) == decl_text(d, ds[j]),
        decl_offset(d, ds, i) + decl_text(d, ds[i]).len() <= decl_offset(d, ds, j),
{
    let parts = decl_texts(d, ds);
    let p = prologue(d);
    lemma_concat_piece(parts, i);
    lemma_concat_piece(parts, j);
    lemma_concat_order(parts, i, j);
    let h = header_text(d, ds);
    let c = concat(parts);
    assert(h.subrange(decl_offset(d, ds, i), decl_offset(d, ds, i) + parts[i].len())
        =~= c.subrange(offset_of(parts, i), offset_of(parts, i) + parts[i].len()));
    assert(h.subrange(decl_offset(d, ds, j), decl_offset(d, ds, j) + parts[j].len())
        =~= c.subrange(offset_of(parts, j), offset_of(parts, j) + parts[j].len()));
}

/// The struct declaration of a data layout holds one line per field, as many
/// lines as fields, each naming its field and spelling its type, in the order
/// the fields were declared.
pub proof fn lemma_layout_fidelity(d: Dialect, l: DataLayout, i: int, j: int)
    requires
        0 <= i < j < l.fields@.len(),
    ensures
        field_lines(d, l.fields@).len() == l.fields@.len(),
        layout_text(d, l) == "typedef struct "@ + l.name@ + " {\n"@ + concat(
            field_lines(d, l.fields@),
        ) + "} "@ + l.name@ + ";\n\n"@,
        layout_text(d, l).subrange(
            field_offset(d, l, i),
            field_offset(d, l, i) + field_line(d, l.fields@[i]).len(),
        ) == field_line(d, l.fields@[i]),
        layout_text(d, l).subrange(
            field_offset(d, l, j),
            field_offset(d, l, j) + field_line(d, l.fields@[j]).len(),
        ) == field_line(d, l.fields@[j]),
        field_offset(d, l, i) + field_line(d, l.fields@[i]).len() <= field_offset(d, l, j),
{
    let parts = field_lines(d, l.fields@);
    let head = "typedef struct "@ + l.name@ + " {\n"@;
    let tail = "} "@ + l.name@ + ";\n\n"@;
    lemma_concat_piece(parts, i);
    lemma_concat_piece(parts, j);
    lemma_concat_order(parts, i, j);
    let c = concat(parts);
    let t = layout_text(d, l);
    assert(t =~= head + c + tail);
    assert(t.subrange(field_offset(d, l, i), field_offset(d, l, i) + parts[i].len())
        =~= c.subrange(offset_of(parts, i), offset_of(parts, i) + parts[i].len()));
    assert(t.subrange(field_offset(d, l, j), field_offset(d, l, j) + parts[j].len())
        =~= c.subrange(offset_of(parts, j), offset_of(parts, j) + parts[j].len()));
}

/// With an override `P` that is not empty the header goes under `P`; with no
/// override, or an empty one, it goes under the default directory.
pub proof fn lemma_override_precedence(o: Option<Seq<char>>, name: Seq<char>)
    ensures
        o matches Some(p) ==> (p.len() > 0 ==> header_path(resolved_dir(o), name) == p + "/"@
            + name),
        o is None || o->Some_0.len() == 0 ==> header_path(resolved_dir(o), name)
            == default_output_dir() + "/"@ + name,
{
}

/// Every exported function's prototype stands in the header: its return
/// type, its exact symbol, and its parameter types in declared order.
pub proof fn lemma_prototype_in_header(d: Dialect, ds: Seq<Decl>, i: int)
    requires
        0 <= i < ds.len(),
        ds[i] is Function,
    ensures
        header_text(d, ds).subrange(
            decl_offset(d, ds, i),
            decl_offset(d, ds, i) + prototype(d, ds[i]->Function_0).len(),
        ) == prototype(d, ds[i]->Function_0),
        prototype(d, ds[i]->Function_0) == ret_spelling(d, ds[i]->Function_0.ret) + " "@
            + ds[i]->Function_0.symbol@ + "("@ + param_list(d, ds[i]->Function_0.params@)
            + ");\n\n"@,
{
    let parts = decl_texts(d, ds);
    lemma_concat_piece(parts, i);
    let h = header_text(d, ds);
    let c = concat(parts);
    assert(parts[i] == prototype(d, ds[i]->Function_0));
    assert(h.subrange(decl_offset(d, ds, i), decl_offset(d, ds, i) + parts[i].len())
        =~= c.subrange(offset_of(parts, i), offset_of(parts, i) + parts[i].len()));
}

} // verus!
