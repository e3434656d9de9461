use rust_lib::abi::{example_one, this_library, ExampleStruct};
use rust_lib::types::{AbiType, Decl};

#[test]
fn it_works() {
    assert_eq!(example_one(1u32, 3u32), 4);
}

#[test]
fn example_one_adds_at_the_edge() {
    assert_eq!(example_one(0, 0), 0);
    assert_eq!(example_one(u32::MAX - 1, 1), u32::MAX);
}

#[test]
fn example_two_leaves_the_struct_unchanged() {
    let mut s = ExampleStruct { a: 7, b: 9 };
    s.example_two(&[1, 2, 3]);
    assert_eq!(s, ExampleStruct { a: 7, b: 9 });
    s.example_two(&[]);
    assert_eq!(s, ExampleStruct { a: 7, b: 9 });
}

#[test]
fn this_library_declares_struct_then_function() {
    let surface = this_library();
    let ds = surface.decls();
    assert_eq!(ds.len(), 2);
    match &ds[0] {
        Decl::Layout(l) => {
            assert_eq!(l.name, "ExampleStruct");
            assert_eq!(l.fields.len(), 2);
            assert_eq!(l.fields[0].name, "a");
            assert!(matches!(l.fields[0].ty, AbiType::U32));
            assert_eq!(l.fields[1].name, "b");
            assert!(matches!(l.fields[1].ty, AbiType::U32));
        }
        Decl::Function(_) => panic!("expected a data layout first"),
    }
    match &ds[1] {
        Decl::Function(f) => {
            assert_eq!(f.symbol, "example_one");
            assert_eq!(f.params.len(), 2);
            assert!(matches!(f.ret, Some(AbiType::U32)));
        }
        Decl::Layout(_) => panic!("expected a function second"),
    }
    assert_eq!(ds[0].name(), "ExampleStruct");
    assert_eq!(ds[1].name(), "example_one");
}
