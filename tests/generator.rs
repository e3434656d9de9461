use rust_lib::abi::this_library;
use rust_lib::generator::{output_path, plan_build, resolve_output_dir, Header};
use rust_lib::render::{render_decl, render_field, render_params, spell, Dialect};
use rust_lib::surface::{render_header, AbiSurface, GenError};
use rust_lib::types::{check_decl, check_type, AbiType, DataLayout, Decl, Field, FunctionDecl};

fn field(name: &str, ty: AbiType) -> Field {
    Field { name: name.to_string(), ty }
}

fn layout(name: &str, fields: Vec<Field>) -> Decl {
    Decl::Layout(DataLayout { name: name.to_string(), fields })
}

fn function(symbol: &str, params: Vec<AbiType>, ret: Option<AbiType>) -> Decl {
    Decl::Function(FunctionDecl { symbol: symbol.to_string(), params, ret })
}

fn add_surface() -> AbiSurface {
    let mut s = AbiSurface::new();
    s.declare(layout("Pair", vec![field("a", AbiType::U32), field("b", AbiType::U32)]))
        .unwrap();
    s.declare(function("add", vec![AbiType::U32, AbiType::U32], Some(AbiType::U32)))
        .unwrap();
    s
}

const PRELUDE: &str = "#include <stdbool.h>\n#include <stdint.h>\n\n";

#[test]
fn scenario_add_and_struct_with_no_override() {
    let f = plan_build(None, &Header::c99(), &add_surface()).unwrap();
    assert_eq!(f.path, "../build/rust-lib.h");
    let expected = format!(
        "{}typedef struct Pair {{\n    uint32_t a;\n    uint32_t b;\n}} Pair;\n\nuint32_t add(uint32_t, uint32_t);\n\n",
        PRELUDE
    );
    assert_eq!(f.contents, expected);
}

#[test]
fn this_library_header() {
    let f = plan_build(None, &Header::c99(), &this_library()).unwrap();
    assert_eq!(f.path, "../build/rust-lib.h");
    let expected = format!(
        "{}typedef struct ExampleStruct {{\n    uint32_t a;\n    uint32_t b;\n}} ExampleStruct;\n\nuint32_t example_one(uint32_t, uint32_t);\n\n",
        PRELUDE
    );
    assert_eq!(f.contents, expected);
}

#[test]
fn generating_twice_is_byte_identical() {
    let s = this_library();
    let h = Header::c99();
    let f1 = plan_build(Some("out".to_string()), &h, &s).unwrap();
    let f2 = plan_build(Some("out".to_string()), &h, &s).unwrap();
    assert_eq!(f1.path, f2.path);
    assert_eq!(f1.contents.as_bytes(), f2.contents.as_bytes());
}

#[test]
fn declarations_keep_their_order() {
    let mut s = AbiSurface::new();
    s.declare(function("zeta", vec![], None)).unwrap();
    s.declare(layout("Alpha", vec![field("x", AbiType::I8)])).unwrap();
    s.declare(function("mid", vec![AbiType::Bool], Some(AbiType::I64))).unwrap();
    let text = s.render(Dialect::C99).unwrap();
    let a = text.find("void zeta(void);").unwrap();
    let b = text.find("typedef struct Alpha {").unwrap();
    let c = text.find("int64_t mid(bool);").unwrap();
    assert!(PRELUDE.len() <= a && a < b && b < c);
    assert!(text.starts_with(PRELUDE));
}

#[test]
fn layout_fields_in_declared_order_and_count() {
    let d = layout(
        "Mixed",
        vec![
            field("z", AbiType::U64),
            field("a", AbiType::I16),
            field("m", AbiType::Ptr(false, Box::new(AbiType::U8))),
        ],
    );
    assert_eq!(
        render_decl(Dialect::C99, &d),
        "typedef struct Mixed {\n    uint64_t z;\n    int16_t a;\n    uint8_t const* m;\n} Mixed;\n\n"
    );
}

#[test]
fn empty_layout_and_empty_surface() {
    assert_eq!(render_decl(Dialect::C99, &layout("Unit", vec![])), "typedef struct Unit {\n} Unit;\n\n");
    let s = AbiSurface::new();
    assert_eq!(s.render(Dialect::C99).unwrap(), PRELUDE);
    assert_eq!(render_header(Dialect::C99, &vec![]).unwrap(), PRELUDE);
}

#[test]
fn override_is_taken_when_not_empty() {
    assert_eq!(resolve_output_dir(Some("/tmp/cmake-out".to_string())), "/tmp/cmake-out");
    assert_eq!(resolve_output_dir(Some(String::new())), "../build");
    assert_eq!(resolve_output_dir(None), "../build");
    assert_eq!(output_path(Some("P".to_string()), "x.h"), "P/x.h");
    assert_eq!(output_path(Some(String::new()), "x.h"), "../build/x.h");
    assert_eq!(output_path(None, "x.h"), "../build/x.h");
    let f = plan_build(Some("/opt/b".to_string()), &Header::c99().name("api.h"), &this_library())
        .unwrap();
    assert_eq!(f.path, "/opt/b/api.h");
}

#[test]
fn header_builder() {
    let h = Header::c99();
    assert_eq!(h.dialect, Dialect::C99);
    assert_eq!(h.name, "rust-lib.h");
    let h = h.name("other.h");
    assert_eq!(h.dialect, Dialect::C99);
    assert_eq!(h.name, "other.h");
}

#[test]
fn type_spellings() {
    let d = Dialect::C99;
    assert_eq!(spell(d, &AbiType::Bool), "bool");
    assert_eq!(spell(d, &AbiType::U8), "uint8_t");
    assert_eq!(spell(d, &AbiType::U16), "uint16_t");
    assert_eq!(spell(d, &AbiType::U32), "uint32_t");
    assert_eq!(spell(d, &AbiType::U64), "uint64_t");
    assert_eq!(spell(d, &AbiType::I8), "int8_t");
    assert_eq!(spell(d, &AbiType::I16), "int16_t");
    assert_eq!(spell(d, &AbiType::I32), "int32_t");
    assert_eq!(spell(d, &AbiType::I64), "int64_t");
    assert_eq!(spell(d, &AbiType::Usize), "uintptr_t");
    assert_eq!(spell(d, &AbiType::Isize), "intptr_t");
    assert_eq!(spell(d, &AbiType::Named("ExampleStruct".to_string())), "ExampleStruct");
    let p = AbiType::Ptr(true, Box::new(AbiType::Named("ExampleStruct".to_string())));
    assert_eq!(spell(d, &p), "ExampleStruct*");
    let q = AbiType::Ptr(false, Box::new(AbiType::Ptr(true, Box::new(AbiType::U8))));
    assert_eq!(spell(d, &q), "uint8_t* const*");
}

#[test]
fn fields_and_params() {
    assert_eq!(render_field(Dialect::C99, &field("n", AbiType::Usize)), "    uintptr_t n;\n");
    assert_eq!(render_params(Dialect::C99, &vec![]), "void");
    assert_eq!(render_params(Dialect::C99, &vec![AbiType::I32]), "int32_t");
    assert_eq!(
        render_params(Dialect::C99, &vec![AbiType::I32, AbiType::Bool, AbiType::U8]),
        "int32_t, bool, uint8_t"
    );
}

#[test]
fn duplicate_name_is_refused() {
    let mut s = add_surface();
    match s.declare(function("Pair", vec![], None)) {
        Err(GenError::DuplicateName { name }) => assert_eq!(name, "Pair"),
        other => panic!("unexpected {:?}", other),
    }
    match s.declare(layout("add", vec![])) {
        Err(GenError::DuplicateName { name }) => assert_eq!(name, "add"),
        other => panic!("unexpected {:?}", other),
    }
    assert_eq!(s.decls().len(), 2);
}

#[test]
fn unrepresentable_type_names_symbol_and_type() {
    let mut s = AbiSurface::new();
    s.declare(function("fine", vec![AbiType::U8], None)).unwrap();
    s.declare(function(
        "example_two",
        vec![
            AbiType::Ptr(true, Box::new(AbiType::Named("ExampleStruct".to_string()))),
            AbiType::Ptr(false, Box::new(AbiType::Unsupported("[u8]".to_string()))),
        ],
        None,
    ))
    .unwrap();
    s.declare(layout("Later", vec![field("v", AbiType::Unsupported("Vec<u8>".to_string()))]))
        .unwrap();
    match plan_build(None, &Header::c99(), &s) {
        Err(GenError::Unrepresentable { symbol, offending_type }) => {
            assert_eq!(symbol, "example_two");
            assert_eq!(offending_type, "[u8]");
        }
        other => panic!("unexpected {:?}", other),
    }
}

#[test]
fn checks_of_types_and_declarations() {
    assert!(check_type(&AbiType::U32).is_none());
    assert_eq!(check_type(&AbiType::Unsupported("dyn Fn()".to_string())), Some("dyn Fn()".to_string()));
    let bad_ret = function("f", vec![AbiType::U8], Some(AbiType::Unsupported("String".to_string())));
    assert_eq!(check_decl(&bad_ret), Some("String".to_string()));
    let bad_field = layout("L", vec![field("a", AbiType::U8), field("b", AbiType::Unsupported("T".to_string()))]);
    assert_eq!(check_decl(&bad_field), Some("T".to_string()));
    assert_eq!(check_decl(&function("g", vec![], None)), None);
}
