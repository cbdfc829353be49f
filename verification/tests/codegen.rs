use tock_registers::codegen::ast::{BusAttr, Field, FieldDef, PerBusInt, RegisterSpec};
use tock_registers::codegen::block::{
    self, check_layout, span_size, Cumulative, FieldPlan, LayoutError, OffsetConst, OffsetTest,
};
use tock_registers::codegen::single::{self, ElementStruct, ImplBoundType, RealBase};
use tock_registers::codegen::{
    len_types, new_doc_comment, recognize_macro, BusBound, Env, LenType, MapMacro, RegisterKind,
};
use tock_registers::{Bus, Mmio32, Mmio64};

fn register(offsets: PerBusInt, name: &str, aliased: bool, operations: bool) -> Field {
    Field {
        offsets,
        field_def: FieldDef::Register {
            docs: vec![],
            aliased,
            name: name.to_string(),
            definition: RegisterSpec {
                element_type: "u8".to_string(),
                array_sizes: vec![],
                operations: if operations { Some(vec!["Read".to_string()]) } else { None },
            },
        },
    }
}

fn padding(offsets: PerBusInt, size: Option<PerBusInt>) -> Field {
    Field { offsets, field_def: FieldDef::Padding(size) }
}

fn test(field: usize, bus: usize, offset: usize, expected: Cumulative) -> OffsetTest {
    OffsetTest { field, bus, offset, expected }
}

use Cumulative::{Padding as P, Register as R, Start};
use PerBusInt::{Array as A, Single as S};

// The block of the original `offsets` code generation test:
//   0 => variable_size: usize, [4, 8] => size_variable_pos: u32, #[aliased] 6 => aliased: u16,
//   [8, 12] => _: [4, 0], 12 => fixed_pos: u32, 16 => _, [20, 24] => padded_pos: u8,
//   [21, 25] => _, [24, 32] => _: 0
fn offsets_block() -> Vec<Field> {
    vec![
        register(S(0), "variable_size", false, true),
        register(A(vec![4, 8]), "size_variable_pos", false, true),
        register(S(6), "aliased", true, true),
        padding(A(vec![8, 12]), Some(A(vec![4, 0]))),
        register(S(12), "fixed_pos", false, true),
        padding(S(16), None),
        register(A(vec![20, 24]), "padded_pos", false, true),
        padding(A(vec![21, 25]), None),
        padding(A(vec![24, 32]), Some(S(0))),
    ]
}

#[test]
fn block_test_offsets_offsets() {
    let fields = offsets_block();
    let plan = block::generate(2, &fields);
    assert_eq!(
        plan.offset_tests,
        vec![
            test(0, 0, 0, Start),
            test(0, 1, 0, Start),
            test(1, 0, 4, R { field: 0, offset: 0 }),
            test(1, 1, 8, R { field: 0, offset: 0 }),
            test(3, 0, 8, R { field: 1, offset: 4 }),
            test(3, 1, 12, R { field: 1, offset: 8 }),
            test(4, 0, 12, P { offset: 8, size: 4 }),
            test(4, 1, 12, P { offset: 12, size: 0 }),
            test(5, 0, 16, R { field: 4, offset: 12 }),
            test(5, 1, 16, R { field: 4, offset: 12 }),
            test(7, 0, 21, R { field: 6, offset: 20 }),
            test(7, 1, 25, R { field: 6, offset: 24 }),
        ]
    );
    assert_eq!(plan.size, vec![P { offset: 24, size: 0 }, P { offset: 32, size: 0 }]);
    // Span sizes of the registers on Mmio32 and Mmio64.
    let usize32 = <Mmio32 as Bus<usize>>::PADDED_SIZE;
    let usize64 = <Mmio64 as Bus<usize>>::PADDED_SIZE;
    let u32s = <Mmio32 as Bus<u32>>::PADDED_SIZE;
    let sizes = vec![
        vec![usize32, usize64],
        vec![u32s, u32s],
        vec![2, 2],
        vec![],
        vec![u32s, u32s],
        vec![],
        vec![1, 1],
        vec![],
        vec![],
    ];
    assert_eq!(check_layout(&plan, &sizes), Ok(vec![24, 32]));
    // Every register field, aliased or not, gets an accessor; per-bus offsets become constants of
    // each bus's impl (4/8 and 20/24), single offsets constants of the trait.
    let definition = |field: usize, name: &str, offset: OffsetConst| FieldPlan {
        field,
        kind: RegisterKind::Definition,
        bus_bound: BusBound::DataTypeBus,
        lens: vec![],
        offset,
        accessor_docs: vec![],
        struct_doc: Some(format!(
            "Struct that provides access to the `{name}` register on real hardware."
        )),
    };
    assert_eq!(
        plan.fields,
        vec![
            definition(0, "variable_size", OffsetConst::InTrait(0)),
            definition(1, "size_variable_pos", OffsetConst::PerBus(vec![4, 8])),
            definition(2, "aliased", OffsetConst::InTrait(6)),
            definition(4, "fixed_pos", OffsetConst::InTrait(12)),
            definition(6, "padded_pos", OffsetConst::PerBus(vec![20, 24])),
        ]
    );
}

#[test]
fn block_test_empty_empty() {
    let plan = block::generate(1, &[]);
    assert!(plan.offset_tests.is_empty());
    assert_eq!(plan.size, vec![Start]);
    assert_eq!(check_layout(&plan, &[]), Ok(vec![0]));
    assert!(plan.fields.is_empty());
}

#[test]
fn block_test_all_fields_all_field_types_example() {
    let fields = vec![
        register(S(0), "scalar_definition", false, true),
        register(S(1), "array_definition", false, true),
        padding(S(7), Some(S(1))),
        register(S(8), "scalar_reference", false, false),
        register(S(9), "array_reference", false, false),
        register(S(15), "flat_array_definition", false, true),
        register(S(17), "flat_array_reference", false, false),
    ];
    let plan = block::generate(2, &fields);
    let mut expected = vec![];
    let ends = [
        (0, 0, Start),
        (1, 1, R { field: 0, offset: 0 }),
        (2, 7, R { field: 1, offset: 1 }),
        (3, 8, P { offset: 7, size: 1 }),
        (4, 9, R { field: 3, offset: 8 }),
        (5, 15, R { field: 4, offset: 9 }),
        (6, 17, R { field: 5, offset: 15 }),
    ];
    for (field, offset, end) in ends {
        for bus in 0..2 {
            expected.push(test(field, bus, offset, end));
        }
    }
    assert_eq!(plan.offset_tests, expected);
    assert_eq!(plan.size, vec![R { field: 6, offset: 17 }, R { field: 6, offset: 17 }]);
    // u8 elements; [[u8; 2]; 3] spans 6 bytes; references to u8 registers span 1 byte; the
    // last reference is to a 2-byte register.
    let sizes = vec![
        vec![1, 1],
        vec![span_size(1, &[2, 3]).unwrap(); 2],
        vec![],
        vec![1, 1],
        vec![span_size(1, &[2, 3]).unwrap(); 2],
        vec![span_size(1, &[2]).unwrap(); 2],
        vec![span_size(2, &[2]).unwrap(); 2],
    ];
    assert_eq!(check_layout(&plan, &sizes), Ok(vec![21, 21]));
    let kinds: Vec<(usize, RegisterKind, BusBound)> =
        plan.fields.iter().map(|f| (f.field, f.kind, f.bus_bound)).collect();
    let definition = (RegisterKind::Definition, BusBound::DataTypeBus);
    let reference = (RegisterKind::Reference, BusBound::ReferencedBus);
    let expected: Vec<(usize, RegisterKind, BusBound)> =
        [(0, definition), (1, definition), (3, reference), (4, reference), (5, definition), (6, reference)]
            .into_iter()
            .map(|(field, (kind, bound))| (field, kind, bound))
            .collect();
    assert_eq!(kinds, expected);
}

#[test]
fn block_field_plans_of_nested_arrays() {
    let mut nested = register(A(vec![1, 2]), "array_definition", false, true);
    if let FieldDef::Register { definition, docs, .. } = &mut nested.field_def {
        definition.array_sizes = vec![2, 3];
        docs.push(" Doc comment on a nested array.".to_string());
    }
    let mut flat = register(S(7), "array_reference", false, false);
    if let FieldDef::Register { definition, .. } = &mut flat.field_def {
        definition.array_sizes = vec![4];
    }
    let plan = block::generate(2, &[padding(S(0), None), nested, flat]);
    assert_eq!(
        plan.fields,
        vec![
            FieldPlan {
                field: 1,
                kind: RegisterKind::Definition,
                bus_bound: BusBound::DataTypeBus,
                lens: vec![LenType { index: Some(0), len: 2 }, LenType { index: Some(1), len: 3 }],
                offset: OffsetConst::PerBus(vec![1, 2]),
                accessor_docs: vec![" Doc comment on a nested array.".to_string()],
                struct_doc: Some(
                    "Struct that provides access to the `array_definition` register on real \
                     hardware."
                        .to_string(),
                ),
            },
            FieldPlan {
                field: 2,
                kind: RegisterKind::Reference,
                bus_bound: BusBound::ReferencedBus,
                lens: vec![LenType { index: None, len: 4 }],
                offset: OffsetConst::InTrait(7),
                accessor_docs: vec![],
                struct_doc: None,
            },
        ]
    );
}

#[test]
fn block_module_allows() {
    assert_eq!(block::module_allows(Env::ProcMacro), vec!["non_camel_case_types"]);
    assert_eq!(
        block::module_allows(Env::External),
        vec!["non_camel_case_types", "dead_code", "non_upper_case_globals"]
    );
}

#[test]
fn layout_errors() {
    // A gap: the second register starts at 2 although the first ends at 1.
    let fields = vec![register(S(0), "a", false, true), register(S(2), "b", false, true)];
    let plan = block::generate(1, &fields);
    assert_eq!(
        check_layout(&plan, &[vec![1], vec![1]]),
        Err(LayoutError::OffsetMismatch { field: 1, bus: 0, offset: 2, expected: Some(1) })
    );
    // The first failing check is reported: bus 1 of field 1, before anything of field 2.
    let fields = vec![
        register(S(0), "a", false, true),
        register(A(vec![4, 4]), "b", false, true),
        register(S(100), "c", false, true),
    ];
    let plan = block::generate(2, &fields);
    assert_eq!(
        check_layout(&plan, &[vec![4, 8], vec![4, 4], vec![1, 1]]),
        Err(LayoutError::OffsetMismatch { field: 1, bus: 1, offset: 4, expected: Some(8) })
    );
    // An aliased register is not checked and does not count in the size.
    let fields = vec![
        register(S(0), "a", false, true),
        register(S(0), "b", true, true),
        register(S(1), "c", false, true),
    ];
    let plan = block::generate(1, &fields);
    assert_eq!(check_layout(&plan, &[vec![1], vec![4], vec![1]]), Ok(vec![2]));
    // A block ending in padding of unspecified size has no known size.
    let fields = vec![register(S(0), "a", false, true), padding(S(1), None)];
    let plan = block::generate(1, &fields);
    assert!(plan.size.is_empty());
    assert_eq!(check_layout(&plan, &[vec![1], vec![]]), Err(LayoutError::UnknownSize));
    // The field after padding of unspecified size is not checked.
    let fields = vec![padding(S(0), None), register(S(40), "a", false, true)];
    let plan = block::generate(1, &fields);
    assert_eq!(plan.offset_tests, vec![test(0, 0, 0, Start)]);
    assert_eq!(check_layout(&plan, &[vec![], vec![1]]), Ok(vec![41]));
    // Ends beyond the address space.
    let fields = vec![register(S(0), "a", false, true), padding(S(usize::MAX), Some(S(1)))];
    let plan = block::generate(1, &fields);
    assert_eq!(
        check_layout(&plan, &[vec![usize::MAX], vec![]]),
        Err(LayoutError::SizeOverflow { bus: 0 })
    );
    let fields = vec![
        register(S(usize::MAX), "a", false, true),
        register(S(0), "b", false, true),
    ];
    let plan = block::generate(1, &fields);
    assert_eq!(
        check_layout(&plan, &[vec![1], vec![1]]),
        Err(LayoutError::OffsetMismatch { field: 0, bus: 0, offset: usize::MAX, expected: Some(0) })
    );
    let fields = vec![
        padding(S(0), Some(S(usize::MAX))),
        padding(S(usize::MAX), Some(S(1))),
        register(S(0), "b", false, true),
    ];
    let plan = block::generate(1, &fields);
    assert_eq!(
        check_layout(&plan, &[vec![], vec![], vec![1]]),
        Err(LayoutError::OffsetMismatch { field: 2, bus: 0, offset: 0, expected: None })
    );
}

#[test]
fn span_sizes() {
    assert_eq!(span_size(4, &[]), Some(4));
    assert_eq!(span_size(1, &[2, 3, 4]), Some(24));
    assert_eq!(span_size(usize::MAX, &[2]), None);
    // Each nesting level must fit, even when a later length is 0.
    assert_eq!(span_size(usize::MAX / 2 + 1, &[4, 0]), None);
    assert_eq!(span_size(8, &[0, usize::MAX]), Some(0));
}

#[test]
fn length_types() {
    assert_eq!(len_types(&[]), vec![]);
    assert_eq!(len_types(&[2]), vec![LenType { index: None, len: 2 }]);
    assert_eq!(
        len_types(&[2, 3]),
        vec![LenType { index: Some(0), len: 2 }, LenType { index: Some(1), len: 3 }]
    );
}

fn spec(array_sizes: Vec<usize>, operations: bool) -> RegisterSpec {
    RegisterSpec {
        element_type: if operations { "u8".to_string() } else { "status".to_string() },
        array_sizes,
        operations: if operations { Some(vec!["Read".to_string()]) } else { None },
    }
}

#[test]
fn scalar_definition_example() {
    let plan = single::generate(&spec(vec![], true));
    assert_eq!(plan.kind, RegisterKind::Definition);
    assert_eq!(plan.element_definition, Some(ElementStruct::Real));
    assert_eq!(plan.real_alias, None);
    assert_eq!(plan.bus_bound, BusBound::DataTypeBus);
    assert_eq!(plan.allows, vec!["clippy::expl_impl_clone_on_copy"]);
    assert_eq!(plan.impl_bound_type, ImplBoundType::SelfType);
    assert!(plan.lens.is_empty());
}

#[test]
fn flat_array_definition_example() {
    let plan = single::generate(&spec(vec![2], true));
    assert_eq!(plan.element_definition, Some(ElementStruct::Element));
    assert_eq!(plan.real_alias, Some(RealBase::Element));
    assert_eq!(plan.bus_bound, BusBound::DataTypeBus);
    assert_eq!(plan.allows, vec!["clippy::expl_impl_clone_on_copy"]);
    assert_eq!(plan.impl_bound_type, ImplBoundType::Element);
    assert_eq!(plan.lens, vec![LenType { index: None, len: 2 }]);
}

#[test]
fn nested_array_definition_example() {
    let plan = single::generate(&spec(vec![2, 3], true));
    assert_eq!(plan.kind, RegisterKind::Definition);
    assert_eq!(plan.element_definition, Some(ElementStruct::Element));
    assert_eq!(plan.real_alias, Some(RealBase::Element));
    assert_eq!(plan.impl_bound_type, ImplBoundType::Element);
    assert_eq!(
        plan.lens,
        vec![LenType { index: Some(0), len: 2 }, LenType { index: Some(1), len: 3 }]
    );
}

#[test]
fn scalar_reference_example() {
    let plan = single::generate(&spec(vec![], false));
    assert_eq!(plan.kind, RegisterKind::Reference);
    assert_eq!(plan.element_definition, None);
    assert_eq!(plan.real_alias, Some(RealBase::Referenced));
    assert_eq!(plan.bus_bound, BusBound::ReferencedBus);
    assert!(plan.allows.is_empty());
    assert_eq!(plan.impl_bound_type, ImplBoundType::SelfType);
    assert!(plan.lens.is_empty());
}

#[test]
fn flat_array_reference_example() {
    let plan = single::generate(&spec(vec![2], false));
    assert_eq!(plan.element_definition, None);
    assert_eq!(plan.real_alias, Some(RealBase::Referenced));
    assert_eq!(plan.impl_bound_type, ImplBoundType::Reference);
    assert_eq!(plan.lens, vec![LenType { index: None, len: 2 }]);
}

#[test]
fn nested_array_reference_example() {
    let plan = single::generate(&spec(vec![2, 3], false));
    assert_eq!(plan.element_definition, None);
    assert_eq!(plan.impl_bound_type, ImplBoundType::Reference);
    assert_eq!(plan.lens.len(), 2);
}

#[test]
fn doc_comments() {
    assert_eq!(
        block::field_struct_doc_comment("array_definition"),
        "Struct that provides access to the `array_definition` register on real hardware."
    );
    assert_eq!(block::offset_mismatch_message("Mmio32"), "offset mismatch for bus Mmio32");
    assert_eq!(block::bus_doc_comment(), "Buses supported by this register block.");
    assert_eq!(single::bus_doc_comment(), "Buses supported by this register.");
    assert_eq!(
        single::struct_doc_comment(true),
        vec!["Struct that implements [Interface] for use with the real hardware."]
    );
    assert_eq!(
        single::struct_doc_comment(false),
        vec![
            "Implementation of an element of this register array for use with real hardware.",
            "This implements the tock_registers::Register trait as well as any operation traits",
            "specified in the register definition.",
        ]
    );
    assert_eq!(
        block::interface_doc_comment(),
        vec![
            "Trait representing this register block. Driver code can use this trait to work with",
            "both real hardware and fake implementations of the peripheral (for unit testing).",
        ]
    );
    assert_eq!(
        single::interface_doc_comment(),
        vec![
            "Trait representing this register's operations. Driver code can use this trait to work",
            "with both real hardware and fake implementations of the register (for unit testing).",
        ]
    );
    assert_eq!(new_doc_comment().len(), 11);
    assert_eq!(new_doc_comment()[10], "   at a time.");
}

#[test]
fn bus_attributes_and_per_bus_ints() {
    let one = BusAttr::Bus("Mmio32".to_string());
    let two = BusAttr::Buses(vec!["Mmio32".to_string(), "Mmio64".to_string()]);
    assert_eq!(one.len(), 1);
    assert_eq!(two.len(), 2);
    assert_eq!(one.as_slice(), &["Mmio32".to_string()]);
    assert_eq!(two.as_slice()[1], "Mmio64");
    assert_eq!(one.generic_default(), Some(&"Mmio32".to_string()));
    assert_eq!(two.generic_default(), None);
    assert_eq!(PerBusInt::Single(7).index(1), 7);
    assert_eq!(PerBusInt::Array(vec![1, 2, 1]).index(1), 2);
}

#[test]
fn recognizes_register_map_macros() {
    let path = |s: &[&str]| s.iter().map(|s| s.to_string()).collect::<Vec<_>>();
    assert_eq!(recognize_macro(&path(&["register_map"]), false), Some(MapMacro::RegisterMap));
    assert_eq!(
        recognize_macro(&path(&["mmio32_register_map"]), false),
        Some(MapMacro::Mmio32RegisterMap)
    );
    assert_eq!(
        recognize_macro(&path(&["tock_registers", "mmio64_register_map"]), true),
        Some(MapMacro::Mmio64RegisterMap)
    );
    assert_eq!(recognize_macro(&path(&["register_map"]), true), None);
    assert_eq!(recognize_macro(&path(&["other", "register_map"]), false), None);
    assert_eq!(recognize_macro(&path(&["println"]), false), None);
    assert_eq!(recognize_macro(&path(&[]), false), None);
}

#[test]
fn aliased_field_takes_no_part_in_checks_or_size() {
    let with = block::generate(2, &offsets_block());
    // Another aliased register in its place: same checks, same size.
    let mut replaced = offsets_block();
    replaced[2] = register(A(vec![1, 3]), "other", true, false);
    let plan = block::generate(2, &replaced);
    assert_eq!(plan.offset_tests, with.offset_tests);
    assert_eq!(plan.size, with.size);
    // Taken out: the same checks, with the fields after it numbered one lower.
    let mut removed = offsets_block();
    removed.remove(2);
    let plan = block::generate(2, &removed);
    let renumber = |c: Cumulative| match c {
        R { field, offset } if field > 2 => R { field: field - 1, offset },
        c => c,
    };
    let expected: Vec<OffsetTest> = with
        .offset_tests
        .iter()
        .map(|t| OffsetTest {
            field: if t.field > 2 { t.field - 1 } else { t.field },
            bus: t.bus,
            offset: t.offset,
            expected: renumber(t.expected),
        })
        .collect();
    assert_eq!(plan.offset_tests, expected);
    assert_eq!(plan.size, with.size.iter().map(|c| renumber(*c)).collect::<Vec<_>>());
}
