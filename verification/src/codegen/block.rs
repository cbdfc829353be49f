//! Offset checks and sizes of register blocks.
//!
//! The fields of a register block must follow each other without gaps: each field that is not
//! `#[aliased]` must start where the previous field ends. The generated code checks this at
//! compile time, field by field and bus by bus, and computes the block's size from the last
//! field. `generate` decides which checks there are and what the size is made of;
//! `check_layout` evaluates them once the size of each register on each bus is known.

use crate::codegen::ast::{Field, FieldDef, PerBusInt, RegisterSpec};
use crate::codegen::{
    bus_bound, len_types, register_kind, spec_bus_bound, spec_len_types, spec_register_kind, BusBound, Env,
    LenType, RegisterKind,
};
use vstd::prelude::*;
use vstd::string::StringExecFns;

verus! {

/// Where the fields of a block before a given field end, on one bus.
#[derive(Clone, Copy, PartialEq, Eq, Debug)]
pub enum Cumulative {
    /// No field precedes: the block's start, offset 0.
    Start,
    /// Padding of `size` bytes at `offset` precedes.
    Padding { offset: usize, size: usize },
    /// Register field number `field` at `offset` precedes; it ends after its span size.
    Register { field: usize, offset: usize },
}

/// A generated offset check: on bus number `bus`, field number `field` is at `offset`, which
/// must be where the preceding fields end (`expected`).
#[derive(Clone, Copy, PartialEq, Eq, Debug)]
pub struct OffsetTest {
    pub field: usize,
    pub bus: usize,
    pub offset: usize,
    pub expected: Cumulative,
}

/// Where a register field's offset constant (`<name>_offset`) is defined.
#[derive(PartialEq, Eq, Debug)]
pub enum OffsetConst {
    /// One offset for every bus: the `Bus` trait declares the constant with this value.
    InTrait(usize),
    /// One offset per bus, in bus order: the `Bus` trait declares the constant without a value,
    /// each bus's impl defines it, and the `BorrowedBus` impl forwards the borrowed bus's value.
    PerBus(Vec<usize>),
}

/// What the generated module holds for a register field: the field's `Interface` item and
/// accessor, its length types, the bound it puts on `Bus`, and its offset constant. The
/// accessor returns `Self::<name>::new(self.address.byte_add(<B as Bus>::<name>_offset))`.
#[derive(PartialEq, Eq, Debug)]
pub struct FieldPlan {
    /// The field's number among all fields of the block (padding included).
    pub field: usize,
    /// Decides the field's `Interface` bound (`Register<DataType = T>` and its operations, or
    /// the referenced module's `Interface`) and its real type (the generated `real_<name><B>`,
    /// or the referenced module's `Real<B>`).
    pub kind: RegisterKind,
    pub bus_bound: BusBound,
    /// The field's length types (`lens::<name>`), innermost first. The `Interface` bound is
    /// wrapped in `RegisterArray<lens::<len type>, Element: ..>` and the real type in
    /// `RealRegisterArray<.., lens::<len type>>` once for each, innermost first.
    pub lens: Vec<LenType>,
    pub offset: OffsetConst,
    /// The field's doc comment lines. They go on the accessor `fn <name>` of `Interface`; the
    /// `type <name>` item gets none.
    pub accessor_docs: Vec<String>,
    /// The doc comment of the struct generated for a definition (`real_<name>`); none for a
    /// reference, for which no struct is generated.
    pub struct_doc: Option<String>,
}

/// The offset checks of a block in the order they are generated, what its size is made of on
/// each bus (empty when the size is unknown, because the block ends in padding of unspecified
/// size), and the plan of each register field, in field order.
pub struct BlockPlan {
    pub offset_tests: Vec<OffsetTest>,
    pub size: Vec<Cumulative>,
    pub fields: Vec<FieldPlan>,
}

/// The numbers of the register fields among the first `k` fields, in order.
pub open spec fn register_fields(fields: Seq<Field>, k: int) -> Seq<int>
    decreases k,
{
    if k <= 0 {
        Seq::empty()
    } else if fields[k - 1].field_def is Register {
        register_fields(fields, k - 1).push(k - 1)
    } else {
        register_fields(fields, k - 1)
    }
}

/// `offset` defines the offset constant of a field at `offsets`: in the trait for a single
/// offset, per bus for one offset per bus.
pub open spec fn places_offset(offset: OffsetConst, offsets: PerBusInt) -> bool {
    match offsets {
        PerBusInt::Single(value) => offset == OffsetConst::InTrait(value),
        PerBusInt::Array(values) => offset matches OffsetConst::PerBus(per_bus) && per_bus@
            == values@,
    }
}

/// `plan` is the plan of register `register` at `offsets`.
pub open spec fn plans_register(plan: FieldPlan, offsets: PerBusInt, register: RegisterSpec) -> bool {
    &&& plan.kind == spec_register_kind(register)
    &&& plan.bus_bound == spec_bus_bound(plan.kind)
    &&& plan.lens@ == spec_len_types(register.array_sizes@)
    &&& places_offset(plan.offset, offsets)
}

/// The doc comment of the struct generated for the register field `name`.
pub open spec fn field_struct_doc(name: Seq<char>) -> Seq<char> {
    "Struct that provides access to the `"@ + name + "` register on real hardware."@
}

/// `plan` places the docs of the register field `name`, with doc lines `docs`, of kind `kind`.
pub open spec fn places_docs(plan: FieldPlan, docs: Seq<String>, name: String, kind: RegisterKind) -> bool {
    &&& plan.accessor_docs@ == docs
    &&& (plan.struct_doc is Some <==> kind == RegisterKind::Definition)
    &&& (plan.struct_doc matches Some(doc) ==> doc@ == field_struct_doc(name@))
}

/// `plan` is the plan of `field`, which is a register.
pub open spec fn plans_field(plan: FieldPlan, field: Field) -> bool {
    match field.field_def {
        FieldDef::Register { definition, docs, name, .. } => {
            &&& plans_register(plan, field.offsets, definition)
            &&& places_docs(plan, docs@, name, plan.kind)
        },
        FieldDef::Padding(_) => false,
    }
}

/// Returns a copy of the doc lines `docs`.
fn copy_docs(docs: &Vec<String>) -> (r: Vec<String>)
    ensures
        r@ == docs@,
{
    let mut out: Vec<String> = Vec::new();
    let mut k: usize = 0;
    while k < docs.len()
        invariant
            k <= docs@.len(),
            out@ == docs@.take(k as int),
        decreases docs@.len() - k,
    {
        out.push(docs[k].clone());
        proof {
            assert(docs@.take(k + 1) =~= docs@.take(k as int).push(docs@[k as int]));
        }
        k = k + 1;
    }
    proof {
        assert(docs@.take(docs@.len() as int) =~= docs@);
    }
    out
}

/// Returns a copy of `values`.
fn copy_values(values: &Vec<usize>) -> (r: Vec<usize>)
    ensures
        r@ == values@,
{
    let mut out: Vec<usize> = Vec::new();
    let mut k: usize = 0;
    while k < values.len()
        invariant
            k <= values@.len(),
            out@ == values@.take(k as int),
        decreases values@.len() - k,
    {
        out.push(values[k]);
        proof {
            assert(values@.take(k + 1) =~= values@.take(k as int).push(values@[k as int]));
        }
        k = k + 1;
    }
    proof {
        assert(values@.take(values@.len() as int) =~= values@);
    }
    out
}

/// The plan of field number `field`, the register `register` named `name`, with doc lines
/// `docs`, at `offsets`.
pub fn plan_field(
    field: usize,
    offsets: &PerBusInt,
    docs: &Vec<String>,
    name: &String,
    register: &RegisterSpec,
) -> (r: FieldPlan)
    ensures
        r.field == field,
        plans_register(r, *offsets, *register),
        places_docs(r, docs@, *name, r.kind),
{
    let kind = register_kind(register);
    let offset = match offsets {
        PerBusInt::Single(value) => OffsetConst::InTrait(*value),
        PerBusInt::Array(values) => OffsetConst::PerBus(copy_values(values)),
    };
    FieldPlan {
        field,
        kind,
        bus_bound: bus_bound(kind),
        lens: len_types(register.array_sizes.as_slice()),
        offset,
        accessor_docs: copy_docs(docs),
        struct_doc: match kind {
            RegisterKind::Definition => Some(field_struct_doc_comment(name.as_str())),
            RegisterKind::Reference => None,
        },
    }
}

/// Every bus's value is given by each offset and padding size of `fields`.
pub open spec fn fields_cover(fields: Seq<Field>, n: nat) -> bool {
    forall|i: int|
        0 <= i < fields.len() ==> {
            &&& (#[trigger] fields[i]).offsets.covers(n)
            &&& (fields[i].field_def matches FieldDef::Padding(Some(sizes)) ==> sizes.covers(n))
        }
}

/// The field is a register marked `#[aliased]`: it takes no part in the offset checks.
pub open spec fn is_aliased(field: Field) -> bool {
    field.field_def matches FieldDef::Register { aliased, .. } && aliased
}

/// Where the fields end after field number `i`, given where they ended before it.
pub open spec fn next_cumulative(fields: Seq<Field>, n: nat, i: int, prev: Seq<Cumulative>) -> Seq<
    Cumulative,
> {
    let offsets = fields[i].offsets;
    match fields[i].field_def {
        FieldDef::Padding(None) => Seq::empty(),
        FieldDef::Padding(Some(sizes)) => Seq::new(
            n,
            |b: int| Cumulative::Padding { offset: offsets.at(b), size: sizes.at(b) },
        ),
        FieldDef::Register { aliased, .. } => if aliased {
            prev
        } else {
            Seq::new(n, |b: int| Cumulative::Register { field: i as usize, offset: offsets.at(b) })
        },
    }
}

/// Where the fields before field number `i` end, on each of the `n` buses (empty when unknown).
pub open spec fn cumulative_before(fields: Seq<Field>, n: nat, i: int) -> Seq<Cumulative>
    decreases i,
{
    if i <= 0 {
        Seq::new(n, |b: int| Cumulative::Start)
    } else {
        next_cumulative(fields, n, i - 1, cumulative_before(fields, n, i - 1))
    }
}

/// The checks of field number `field` at `offsets` against the preceding extent `cumulative`, one
/// per bus.
pub open spec fn tests_for(field: int, offsets: PerBusInt, cumulative: Seq<Cumulative>) -> Seq<
    OffsetTest,
> {
    Seq::new(
        cumulative.len(),
        |b: int|
            OffsetTest {
                field: field as usize,
                bus: b as usize,
                offset: offsets.at(b),
                expected: cumulative[b],
            },
    )
}

/// The checks of field number `i`: none for an aliased register.
pub open spec fn field_tests(fields: Seq<Field>, n: nat, i: int) -> Seq<OffsetTest> {
    if is_aliased(fields[i]) {
        Seq::empty()
    } else {
        tests_for(i, fields[i].offsets, cumulative_before(fields, n, i))
    }
}

/// The checks of the first `k` fields, in order.
pub open spec fn planned_tests(fields: Seq<Field>, n: nat, k: int) -> Seq<OffsetTest>
    decreases k,
{
    if k <= 0 {
        Seq::empty()
    } else {
        planned_tests(fields, n, k - 1) + field_tests(fields, n, k - 1)
    }
}

/// Appends to `offset_tests` the checks of field number `field`, at `offsets`, against the
/// extent `cumulative` of the preceding fields: one per bus, none when that extent is unknown.
pub fn add_offset_tests(
    offset_tests: &mut Vec<OffsetTest>,
    field: usize,
    cumulative: &Vec<Cumulative>,
    offsets: &PerBusInt,
)
    requires
        cumulative@.len() == 0 || offsets.covers(cumulative@.len()),
    ensures
        final(offset_tests)@ == old(offset_tests)@ + tests_for(
            field as int,
            *offsets,
            cumulative@,
        ),
{
    let ghost start = offset_tests@;
    let mut bus: usize = 0;
    while bus < cumulative.len()
        invariant
            bus <= cumulative@.len(),
            cumulative@.len() == 0 || offsets.covers(cumulative@.len()),
            offset_tests@ == start + tests_for(field as int, *offsets, cumulative@).take(
                bus as int,
            ),
        decreases cumulative@.len() - bus,
    {
        let test = OffsetTest {
            field,
            bus,
            offset: offsets.index(bus),
            expected: cumulative[bus],
        };
        offset_tests.push(test);
        proof {
            assert(tests_for(field as int, *offsets, cumulative@).take(bus + 1) =~= tests_for(
                field as int,
                *offsets,
                cumulative@,
            ).take(bus as int).push(test));
        }
        bus = bus + 1;
    }
    proof {
        assert(tests_for(field as int, *offsets, cumulative@).take(cumulative@.len() as int)
            =~= tests_for(field as int, *offsets, cumulative@));
    }
}

/// The offset checks of a block with fields `fields` on `buses` buses, and what its size is made
/// of.
pub fn generate(buses: usize, fields: &[Field]) -> (plan: BlockPlan)
    requires
        fields_cover(fields@, buses as nat),
        fields@.len() < usize::MAX,
    ensures
        plan.offset_tests@ == planned_tests(fields@, buses as nat, fields@.len() as int),
        plan.size@ == cumulative_before(fields@, buses as nat, fields@.len() as int),
        plan.fields@.len() == register_fields(fields@, fields@.len() as int).len(),
        forall|j: int|
            0 <= j < plan.fields@.len() ==> {
                &&& (#[trigger] plan.fields@[j]).field == register_fields(
                    fields@,
                    fields@.len() as int,
                )[j]
                &&& plans_field(plan.fields@[j], fields@[plan.fields@[j].field as int])
            },
{
    let mut offset_tests: Vec<OffsetTest> = Vec::new();
    let mut field_plans: Vec<FieldPlan> = Vec::new();
    let mut cumulative: Vec<Cumulative> = Vec::new();
    let mut bus: usize = 0;
    while bus < buses
        invariant
            bus <= buses,
            cumulative@ == Seq::new(bus as nat, |b: int| Cumulative::Start),
        decreases buses - bus,
    {
        cumulative.push(Cumulative::Start);
        proof {
            assert(cumulative@ =~= Seq::new((bus + 1) as nat, |b: int| Cumulative::Start));
        }
        bus = bus + 1;
    }
    let mut i: usize = 0;
    while i < fields.len()
        invariant
            i <= fields@.len(),
            fields@.len() < usize::MAX,
            fields_cover(fields@, buses as nat),
            cumulative@ == cumulative_before(fields@, buses as nat, i as int),
            cumulative@.len() == 0 || cumulative@.len() == buses,
            offset_tests@ == planned_tests(fields@, buses as nat, i as int),
            field_plans@.len() == register_fields(fields@, i as int).len(),
            forall|j: int|
                0 <= j < field_plans@.len() ==> {
                    &&& (#[trigger] field_plans@[j]).field == register_fields(fields@, i as int)[j]
                    &&& plans_field(field_plans@[j], fields@[field_plans@[j].field as int])
                },
        decreases fields@.len() - i,
    {
        let field = &fields[i];
        assert(fields_cover(fields@, buses as nat) ==> fields@[i as int].offsets.covers(
            buses as nat,
        ));
        match &field.field_def {
            FieldDef::Padding(sizes) => {
                add_offset_tests(&mut offset_tests, i, &cumulative, &field.offsets);
                let mut next: Vec<Cumulative> = Vec::new();
                match sizes {
                    Some(sizes) => {
                        let mut bus: usize = 0;
                        while bus < buses
                            invariant
                                bus <= buses,
                                field.offsets.covers(buses as nat),
                                sizes.covers(buses as nat),
                                next@ == Seq::new(
                                    bus as nat,
                                    |b: int|
                                        Cumulative::Padding {
                                            offset: field.offsets.at(b),
                                            size: sizes.at(b),
                                        },
                                ),
                            decreases buses - bus,
                        {
                            next.push(
                                Cumulative::Padding {
                                    offset: field.offsets.index(bus),
                                    size: sizes.index(bus),
                                },
                            );
                            proof {
                                assert(next@ =~= Seq::new(
                                    (bus + 1) as nat,
                                    |b: int|
                                        Cumulative::Padding {
                                            offset: field.offsets.at(b),
                                            size: sizes.at(b),
                                        },
                                ));
                            }
                            bus = bus + 1;
                        }
                    },
                    None => {},
                }
                cumulative = next;
            },
            FieldDef::Register { aliased, definition, docs, name } => {
                let ghost before = field_plans@;
                field_plans.push(plan_field(i, &field.offsets, docs, name, definition));
                proof {
                    assert(register_fields(fields@, i + 1) == register_fields(fields@, i as int).push(
                        i as int,
                    ));
                    assert forall|j: int| 0 <= j < field_plans@.len() implies {
                        &&& (#[trigger] field_plans@[j]).field == register_fields(
                            fields@,
                            i + 1,
                        )[j]
                        &&& plans_field(field_plans@[j], fields@[field_plans@[j].field as int])
                    } by {
                        if j < before.len() {
                            assert(field_plans@[j] == before[j]);
                        }
                    }
                }
                if !*aliased {
                    add_offset_tests(&mut offset_tests, i, &cumulative, &field.offsets);
                    let mut next: Vec<Cumulative> = Vec::new();
                    let mut bus: usize = 0;
                    while bus < buses
                        invariant
                            bus <= buses,
                            field.offsets.covers(buses as nat),
                            next@ == Seq::new(
                                bus as nat,
                                |b: int|
                                    Cumulative::Register {
                                        field: i,
                                        offset: field.offsets.at(b),
                                    },
                            ),
                        decreases buses - bus,
                    {
                        next.push(Cumulative::Register { field: i, offset: field.offsets.index(bus) });
                        proof {
                            assert(next@ =~= Seq::new(
                                (bus + 1) as nat,
                                |b: int|
                                    Cumulative::Register {
                                        field: i,
                                        offset: field.offsets.at(b),
                                    },
                            ));
                        }
                        bus = bus + 1;
                    }
                    cumulative = next;
                }
            },
        }
        i = i + 1;
    }
    BlockPlan { offset_tests, size: cumulative, fields: field_plans }
}

/// Why a register block's layout is refused.
#[derive(Clone, Copy, PartialEq, Eq, Debug)]
pub enum LayoutError {
    /// On bus number `bus`, field number `field` is at `offset` but the preceding fields end at
    /// `expected` (`None`: beyond the end of the address space).
    OffsetMismatch { field: usize, bus: usize, offset: usize, expected: Option<usize> },
    /// The block ends in padding of unspecified size, so its size is unknown.
    UnknownSize,
    /// On bus number `bus` the block extends beyond the end of the address space.
    SizeOverflow { bus: usize },
}

/// The offset at which the fields described by `c` end on bus number `bus`, where
/// `sizes[f][b]` is the span size of register field number `f` on bus number `b`.
pub open spec fn extent(c: Cumulative, sizes: Seq<Vec<usize>>, bus: int) -> int {
    match c {
        Cumulative::Start => 0,
        Cumulative::Padding { offset, size } => offset + size,
        Cumulative::Register { field, offset } => offset + sizes[field as int]@[bus],
    }
}

/// `sizes` gives every span size that `c` needs on bus number `bus`.
pub open spec fn sizes_cover(c: Cumulative, sizes: Seq<Vec<usize>>, bus: int) -> bool {
    c matches Cumulative::Register { field, .. } ==> field < sizes.len() && 0 <= bus
        < sizes[field as int]@.len()
}

/// The check holds: the field starts where the preceding fields end.
pub open spec fn test_passes(t: OffsetTest, sizes: Seq<Vec<usize>>) -> bool {
    t.offset == extent(t.expected, sizes, t.bus as int)
}

/// `value` as a `usize`, if it fits.
pub open spec fn as_usize(value: int) -> Option<usize> {
    if 0 <= value <= usize::MAX {
        Some(value as usize)
    } else {
        None
    }
}

/// Computes the end of the fields described by `c` on bus number `bus`, if it fits in `usize`.
pub fn extent_of(c: Cumulative, sizes: &[Vec<usize>], bus: usize) -> (r: Option<usize>)
    requires
        sizes_cover(c, sizes@, bus as int),
    ensures
        r == as_usize(extent(c, sizes@, bus as int)),
{
    match c {
        Cumulative::Start => Some(0),
        Cumulative::Padding { offset, size } => offset.checked_add(size),
        Cumulative::Register { field, offset } => offset.checked_add(sizes[field][bus]),
    }
}

/// Evaluates the offset checks and the size of a block, where `sizes[f][b]` is the span size of
/// register field number `f` on bus number `b`. Returns the block's size on each bus, or the
/// first check that fails (checks are evaluated in order), or why the size cannot be had.
pub fn check_layout(plan: &BlockPlan, sizes: &[Vec<usize>]) -> (r: Result<Vec<usize>, LayoutError>)
    requires
        forall|k: int|
            0 <= k < plan.offset_tests@.len() ==> sizes_cover(
                (#[trigger] plan.offset_tests@[k]).expected,
                sizes@,
                plan.offset_tests@[k].bus as int,
            ),
        forall|b: int| 0 <= b < plan.size@.len() ==> sizes_cover(#[trigger] plan.size@[b], sizes@, b),
    ensures
        r is Ok ==> {
            &&& forall|k: int|
                0 <= k < plan.offset_tests@.len() ==> test_passes(
                    #[trigger] plan.offset_tests@[k],
                    sizes@,
                )
            &&& plan.size@.len() > 0
            &&& r->Ok_0@.len() == plan.size@.len()
            &&& forall|b: int|
                0 <= b < plan.size@.len() ==> #[trigger] r->Ok_0@[b] == extent(
                    plan.size@[b],
                    sizes@,
                    b,
                )
        },
        r matches Err(LayoutError::OffsetMismatch { field, bus, offset, expected }) ==> exists|
            k: int,
        |
            0 <= k < plan.offset_tests@.len() && !test_passes(
                #[trigger] plan.offset_tests@[k],
                sizes@,
            ) && (forall|j: int| 0 <= j < k ==> test_passes(plan.offset_tests@[j], sizes@))
                && plan.offset_tests@[k].field == field && plan.offset_tests@[k].bus == bus
                && plan.offset_tests@[k].offset == offset && expected == as_usize(
                extent(plan.offset_tests@[k].expected, sizes@, bus as int),
            ),
        r matches Err(LayoutError::UnknownSize) ==> {
            &&& forall|k: int|
                0 <= k < plan.offset_tests@.len() ==> test_passes(
                    #[trigger] plan.offset_tests@[k],
                    sizes@,
                )
            &&& plan.size@.len() == 0
        },
        r matches Err(LayoutError::SizeOverflow { bus }) ==> {
            &&& forall|k: int|
                0 <= k < plan.offset_tests@.len() ==> test_passes(
                    #[trigger] plan.offset_tests@[k],
                    sizes@,
                )
            &&& bus < plan.size@.len()
            &&& extent(plan.size@[bus as int], sizes@, bus as int) > usize::MAX
            &&& forall|b: int|
                0 <= b < bus ==> extent(#[trigger] plan.size@[b], sizes@, b) <= usize::MAX
        },
{
    let mut k: usize = 0;
    while k < plan.offset_tests.len()
        invariant
            k <= plan.offset_tests@.len(),
            forall|k: int|
                0 <= k < plan.offset_tests@.len() ==> sizes_cover(
                    (#[trigger] plan.offset_tests@[k]).expected,
                    sizes@,
                    plan.offset_tests@[k].bus as int,
                ),
            forall|j: int| 0 <= j < k ==> test_passes(#[trigger] plan.offset_tests@[j], sizes@),
        decreases plan.offset_tests@.len() - k,
    {
        let test = plan.offset_tests[k];
        let expected = extent_of(test.expected, sizes, test.bus);
        let passes = match expected {
            Some(end) => end == test.offset,
            None => false,
        };
        if !passes {
            return Err(
                LayoutError::OffsetMismatch {
                    field: test.field,
                    bus: test.bus,
                    offset: test.offset,
                    expected,
                },
            );
        }
        k = k + 1;
    }
    if plan.size.len() == 0 {
        return Err(LayoutError::UnknownSize);
    }
    let mut block: Vec<usize> = Vec::new();
    let mut bus: usize = 0;
    while bus < plan.size.len()
        invariant
            bus <= plan.size@.len(),
            forall|b: int| 0 <= b < plan.size@.len() ==> sizes_cover(#[trigger] plan.size@[b], sizes@, b),
            block@.len() == bus,
            forall|b: int| 0 <= b < bus ==> #[trigger] block@[b] == extent(plan.size@[b], sizes@, b),
            forall|j: int|
                0 <= j < plan.offset_tests@.len() ==> test_passes(
                    #[trigger] plan.offset_tests@[j],
                    sizes@,
                ),
        decreases plan.size@.len() - bus,
    {
        match extent_of(plan.size[bus], sizes, bus) {
            Some(end) => block.push(end),
            None => {
                assert forall|b: int| 0 <= b < bus implies extent(
                    #[trigger] plan.size@[b],
                    sizes@,
                    b,
                ) <= usize::MAX by {
                    assert(block@[b] == extent(plan.size@[b], sizes@, b));
                }
                return Err(LayoutError::SizeOverflow { bus });
            },
        }
        bus = bus + 1;
    }
    Ok(block)
}

/// Where the fields before field number `i` end is unknown or known on every bus, and a register
/// it names precedes field `i` and is not aliased.
proof fn lemma_cumulative_shape(fields: Seq<Field>, n: nat, i: int)
    requires
        fields_cover(fields, n),
        fields.len() <= usize::MAX,
        0 <= i <= fields.len(),
    ensures
        cumulative_before(fields, n, i).len() == 0 || cumulative_before(fields, n, i).len() == n,
        forall|b: int|
            0 <= b < cumulative_before(fields, n, i).len() ==> (#[trigger] cumulative_before(
                fields,
                n,
                i,
            )[b] matches Cumulative::Register { field, .. } ==> field < i && !is_aliased(
                fields[field as int],
            )),
    decreases i,
{
    if i > 0 {
        lemma_cumulative_shape(fields, n, i - 1);
        let prev = cumulative_before(fields, n, i - 1);
        let cur = cumulative_before(fields, n, i);
        assert(cur == next_cumulative(fields, n, i - 1, prev));
        assert forall|b: int|
            0 <= b < cur.len() implies (#[trigger] cur[b] matches Cumulative::Register {
                field,
                ..
            } ==> field < i && !is_aliased(fields[field as int])) by {
            if !is_aliased(fields[i - 1]) && fields[i - 1].field_def is Register {
                assert(cur[b] == Cumulative::Register {
                    field: (i - 1) as usize,
                    offset: fields[i - 1].offsets.at(b),
                });
            }
        }
    }
}

/// The checks planned for the first `k` fields come first among the checks of the first `m`.
proof fn lemma_planned_prefix(fields: Seq<Field>, n: nat, k: int, m: int)
    requires
        0 <= k <= m,
    ensures
        planned_tests(fields, n, k).len() <= planned_tests(fields, n, m).len(),
        planned_tests(fields, n, m).take(planned_tests(fields, n, k).len() as int)
            == planned_tests(fields, n, k),
    decreases m,
{
    if k < m {
        lemma_planned_prefix(fields, n, k, m - 1);
        let pk = planned_tests(fields, n, k);
        let pm1 = planned_tests(fields, n, m - 1);
        assert(planned_tests(fields, n, m) == pm1 + field_tests(fields, n, m - 1));
        assert((pm1 + field_tests(fields, n, m - 1)).take(pk.len() as int) =~= pm1.take(
            pk.len() as int,
        ));
    } else {
        assert(planned_tests(fields, n, m).take(planned_tests(fields, n, m).len() as int)
            =~= planned_tests(fields, n, m));
    }
}

/// Every check planned for the first `k` fields belongs to one of them that is not aliased.
proof fn lemma_planned_fields(fields: Seq<Field>, n: nat, k: int)
    requires
        0 <= k <= fields.len(),
        fields.len() <= usize::MAX,
    ensures
        forall|j: int|
            0 <= j < planned_tests(fields, n, k).len() ==> (#[trigger] planned_tests(
                fields,
                n,
                k,
            )[j]).field < k && !is_aliased(fields[planned_tests(fields, n, k)[j].field as int]),
    decreases k,
{
    if k > 0 {
        lemma_planned_fields(fields, n, k - 1);
        let prev = planned_tests(fields, n, k - 1);
        let ft = field_tests(fields, n, k - 1);
        assert(planned_tests(fields, n, k) == prev + ft);
        assert forall|j: int| 0 <= j < (prev + ft).len() implies (#[trigger] (prev + ft)[j]).field
            < k && !is_aliased(fields[(prev + ft)[j].field as int]) by {
            if j >= prev.len() {
                assert(ft[j - prev.len()] == (prev + ft)[j]);
                assert(ft[j - prev.len()].field == (k - 1) as usize);
            } else {
                assert(prev[j] == (prev + ft)[j]);
            }
        }
    }
}

/// An `#[aliased]` register is never checked: every generated offset check is of a field that is
/// not aliased.
pub proof fn law_aliased_fields_are_not_checked(fields: Seq<Field>, n: nat)
    requires
        fields.len() <= usize::MAX,
    ensures
        forall|j: int|
            0 <= j < planned_tests(fields, n, fields.len() as int).len() ==> {
                let t = #[trigger] planned_tests(fields, n, fields.len() as int)[j];
                &&& t.field < fields.len()
                &&& !is_aliased(fields[t.field as int])
            },
{
    lemma_planned_fields(fields, n, fields.len() as int);
}

/// An `#[aliased]` register does not count towards the block's size: the size never ends with
/// an aliased register.
pub proof fn law_aliased_fields_do_not_size_the_block(fields: Seq<Field>, n: nat)
    requires
        fields_cover(fields, n),
        fields.len() <= usize::MAX,
    ensures
        forall|b: int|
            0 <= b < cumulative_before(fields, n, fields.len() as int).len() ==> (
            #[trigger] cumulative_before(fields, n, fields.len() as int)[b] matches Cumulative::Register {
                field,
                ..
            } ==> field < fields.len() && !is_aliased(fields[field as int])),
{
    lemma_cumulative_shape(fields, n, fields.len() as int);
}

/// Up to field number `k`, replacing the aliased register at `i` by another aliased register
/// changes neither where the fields end nor the checks.
proof fn lemma_aliased_replacement(fields: Seq<Field>, other: Field, i: int, n: nat, k: int)
    requires
        0 <= i < fields.len(),
        is_aliased(fields[i]),
        is_aliased(other),
        0 <= k <= fields.len(),
    ensures
        cumulative_before(fields.update(i, other), n, k) == cumulative_before(fields, n, k),
        planned_tests(fields.update(i, other), n, k) == planned_tests(fields, n, k),
    decreases k,
{
    if k > 0 {
        let g = fields.update(i, other);
        lemma_aliased_replacement(fields, other, i, n, k - 1);
        let prev = cumulative_before(fields, n, k - 1);
        assert(cumulative_before(g, n, k) == next_cumulative(g, n, k - 1, prev));
        assert(cumulative_before(fields, n, k) == next_cumulative(fields, n, k - 1, prev));
        assert(planned_tests(g, n, k) == planned_tests(fields, n, k - 1) + field_tests(g, n, k - 1));
        if k - 1 != i {
            assert(g[k - 1] == fields[k - 1]);
        }
    }
}

/// An `#[aliased]` register takes no part in the offset checks or the block's size: replacing it
/// by any other aliased register, at any offsets and of any type, changes neither.
pub proof fn law_aliased_field_changes_nothing(fields: Seq<Field>, other: Field, i: int, n: nat)
    requires
        0 <= i < fields.len(),
        is_aliased(fields[i]),
        is_aliased(other),
    ensures
        planned_tests(fields.update(i, other), n, fields.len() as int) == planned_tests(
            fields,
            n,
            fields.len() as int,
        ),
        cumulative_before(fields.update(i, other), n, fields.len() as int) == cumulative_before(
            fields,
            n,
            fields.len() as int,
        ),
{
    lemma_aliased_replacement(fields, other, i, n, fields.len() as int);
}

/// Where the fields end, `c`, once field number `i` is taken out: register fields after it move
/// down by one.
pub open spec fn renumber_cumulative(c: Cumulative, i: int) -> Cumulative {
    match c {
        Cumulative::Register { field, offset } => if field > i {
            Cumulative::Register { field: (field - 1) as usize, offset }
        } else {
            c
        },
        _ => c,
    }
}

/// The check `t` once field number `i` is taken out: fields after it move down by one.
pub open spec fn renumber_test(t: OffsetTest, i: int) -> OffsetTest {
    OffsetTest {
        field: if t.field > i {
            (t.field - 1) as usize
        } else {
            t.field
        },
        bus: t.bus,
        offset: t.offset,
        expected: renumber_cumulative(t.expected, i),
    }
}

/// Every check planned for the first `k` fields compares against where fields before `k` end.
proof fn lemma_planned_expected(fields: Seq<Field>, n: nat, k: int)
    requires
        fields_cover(fields, n),
        fields.len() <= usize::MAX,
        0 <= k <= fields.len(),
    ensures
        forall|j: int|
            0 <= j < planned_tests(fields, n, k).len() ==> ((#[trigger] planned_tests(
                fields,
                n,
                k,
            )[j]).expected matches Cumulative::Register { field, .. } ==> field < k),
    decreases k,
{
    if k > 0 {
        lemma_planned_expected(fields, n, k - 1);
        lemma_cumulative_shape(fields, n, k - 1);
        let prev = planned_tests(fields, n, k - 1);
        let ft = field_tests(fields, n, k - 1);
        assert(planned_tests(fields, n, k) == prev + ft);
        assert forall|j: int| 0 <= j < (prev + ft).len() implies ((#[trigger] (prev + ft)[j]).expected matches Cumulative::Register {
            field,
            ..
        } ==> field < k) by {
            if j >= prev.len() {
                assert(ft[j - prev.len()] == (prev + ft)[j]);
                assert(ft[j - prev.len()].expected == cumulative_before(fields, n, k - 1)[j
                    - prev.len()]);
            } else {
                assert(prev[j] == (prev + ft)[j]);
            }
        }
    }
}

/// Before the aliased field `i`, taking it out changes nothing.
proof fn lemma_removal_prefix(fields: Seq<Field>, i: int, n: nat, k: int)
    requires
        0 <= i < fields.len(),
        0 <= k <= i,
    ensures
        cumulative_before(fields.remove(i), n, k) == cumulative_before(fields, n, k),
        planned_tests(fields.remove(i), n, k) == planned_tests(fields, n, k),
    decreases k,
{
    if k > 0 {
        let g = fields.remove(i);
        lemma_removal_prefix(fields, i, n, k - 1);
        let prev = cumulative_before(fields, n, k - 1);
        assert(g[k - 1] == fields[k - 1]);
        assert(cumulative_before(g, n, k) == next_cumulative(g, n, k - 1, prev));
        assert(planned_tests(g, n, k) == planned_tests(fields, n, k - 1) + field_tests(g, n, k - 1));
    }
}

/// From the aliased field `i` on, the fields without it end where the fields with it end, and
/// get the same checks, up to the renumbering of the fields after it.
proof fn lemma_removal(fields: Seq<Field>, i: int, n: nat, k: int)
    requires
        fields_cover(fields, n),
        fields.len() <= usize::MAX,
        0 <= i < fields.len(),
        is_aliased(fields[i]),
        i < k <= fields.len(),
    ensures
        cumulative_before(fields.remove(i), n, k - 1) == cumulative_before(fields, n, k).map_values(
            |c: Cumulative| renumber_cumulative(c, i),
        ),
        planned_tests(fields.remove(i), n, k - 1) == planned_tests(fields, n, k).map_values(
            |t: OffsetTest| renumber_test(t, i),
        ),
    decreases k,
{
    let g = fields.remove(i);
    let renumber = |c: Cumulative| renumber_cumulative(c, i);
    let renumber_t = |t: OffsetTest| renumber_test(t, i);
    if k == i + 1 {
        lemma_removal_prefix(fields, i, n, i);
        lemma_cumulative_shape(fields, n, i);
        lemma_planned_fields(fields, n, i);
        lemma_planned_expected(fields, n, i);
        let cb = cumulative_before(fields, n, i);
        assert(cumulative_before(fields, n, k) == next_cumulative(fields, n, i, cb));
        assert(cb.map_values(renumber) =~= cb);
        let pt = planned_tests(fields, n, i);
        assert(planned_tests(fields, n, k) == pt + field_tests(fields, n, i));
        assert(pt + field_tests(fields, n, i) =~= pt);
        assert(pt.map_values(renumber_t) =~= pt);
    } else {
        lemma_removal(fields, i, n, k - 1);
        let f = fields[k - 1];
        assert(g[k - 2] == f);
        let prev = cumulative_before(fields, n, k - 1);
        let prev_g = cumulative_before(g, n, k - 2);
        assert(prev_g == prev.map_values(renumber));
        let cur = next_cumulative(fields, n, k - 1, prev);
        let cur_g = next_cumulative(g, n, k - 2, prev_g);
        assert(cumulative_before(fields, n, k) == cur);
        assert(cumulative_before(g, n, k - 1) == cur_g);
        assert(cur_g =~= cur.map_values(renumber));
        let pt = planned_tests(fields, n, k - 1);
        let ft = field_tests(fields, n, k - 1);
        let ft_g = field_tests(g, n, k - 2);
        assert(planned_tests(fields, n, k) == pt + ft);
        assert(planned_tests(g, n, k - 1) == planned_tests(g, n, k - 2) + ft_g);
        assert(ft_g =~= ft.map_values(renumber_t));
        assert((pt + ft).map_values(renumber_t) =~= pt.map_values(renumber_t) + ft.map_values(
            renumber_t,
        ));
    }
}

/// Taking an `#[aliased]` register out of a block changes no check and not the block's size:
/// the checks and what the size is made of are the same, up to the renumbering of the fields
/// after it.
pub proof fn law_removing_aliased_field_changes_nothing(fields: Seq<Field>, i: int, n: nat)
    requires
        fields_cover(fields, n),
        fields.len() <= usize::MAX,
        0 <= i < fields.len(),
        is_aliased(fields[i]),
    ensures
        planned_tests(fields.remove(i), n, fields.len() - 1) == planned_tests(
            fields,
            n,
            fields.len() as int,
        ).map_values(|t: OffsetTest| renumber_test(t, i)),
        cumulative_before(fields.remove(i), n, fields.len() - 1) == cumulative_before(
            fields,
            n,
            fields.len() as int,
        ).map_values(|c: Cumulative| renumber_cumulative(c, i)),
{
    lemma_removal(fields, i, n, fields.len() as int);
}

/// A block whose offset checks all hold has no gaps: on every bus, each field that is not
/// aliased starts exactly where the fields before it end, whenever that end is known.
pub proof fn law_accepted_block_is_contiguous(fields: Seq<Field>, n: nat, sizes: Seq<Vec<usize>>)
    requires
        fields_cover(fields, n),
        n <= usize::MAX,
        fields.len() <= usize::MAX,
        forall|k: int|
            0 <= k < planned_tests(fields, n, fields.len() as int).len() ==> test_passes(
                #[trigger] planned_tests(fields, n, fields.len() as int)[k],
                sizes,
            ),
    ensures
        forall|i: int, b: int|
            0 <= i < fields.len() && !is_aliased(fields[i]) && 0 <= b < cumulative_before(
                fields,
                n,
                i,
            ).len() ==> #[trigger] fields[i].offsets.at(b) == extent(
                #[trigger] cumulative_before(fields, n, i)[b],
                sizes,
                b,
            ),
{
    let len = fields.len() as int;
    assert forall|i: int, b: int|
        0 <= i < fields.len() && !is_aliased(fields[i]) && 0 <= b < cumulative_before(
            fields,
            n,
            i,
        ).len() implies #[trigger] fields[i].offsets.at(b) == extent(
        #[trigger] cumulative_before(fields, n, i)[b],
        sizes,
        b,
    ) by {
        lemma_planned_prefix(fields, n, i + 1, len);
        lemma_cumulative_shape(fields, n, i);
        let before = planned_tests(fields, n, i);
        let ft = field_tests(fields, n, i);
        assert(planned_tests(fields, n, i + 1) == before + ft);
        let k = before.len() + b;
        assert(ft[b] == (before + ft)[k]);
        assert(ft[b].offset == fields[i].offsets.at(b));
        assert(ft[b].bus as int == b);
        assert(ft[b].expected == cumulative_before(fields, n, i)[b]);
        let all = planned_tests(fields, n, len);
        assert(all.take((before + ft).len() as int)[k] == all[k]);
        assert(test_passes(all[k], sizes));
    }
}

/// The lints that a register block's module allows, one per entry: the generated names are not
/// camel case, and code that rustc compiles on its own may leave some of them unused.
pub fn module_allows(env: Env) -> (r: Vec<&'static str>)
    ensures
        env == Env::ProcMacro ==> r@.len() == 1,
        env == Env::External ==> r@.len() == 3,
        r@[0]@ == "non_camel_case_types"@,
        env == Env::External ==> r@[1]@ == "dead_code"@ && r@[2]@ == "non_upper_case_globals"@,
{
    let mut allows: Vec<&'static str> = Vec::new();
    allows.push("non_camel_case_types");
    match env {
        Env::ProcMacro => {},
        Env::External => {
            allows.push("dead_code");
            allows.push("non_upper_case_globals");
        },
    }
    allows
}

/// Doc comment lines of a register block's `Interface` trait.
pub fn interface_doc_comment() -> (r: Vec<&'static str>)
    ensures
        r@.len() == 2,
        r@[0]@ == "Trait representing this register block. Driver code can use this trait to work with"@,
        r@[1]@ == "both real hardware and fake implementations of the peripheral (for unit testing)."@,
{
    let mut lines: Vec<&'static str> = Vec::new();
    lines.push("Trait representing this register block. Driver code can use this trait to work with");
    lines.push("both real hardware and fake implementations of the peripheral (for unit testing).");
    lines
}

/// Doc comment of a register block's `Bus` trait.
pub fn bus_doc_comment() -> (r: &'static str)
    ensures
        r@ == "Buses supported by this register block."@,
{
    "Buses supported by this register block."
}

/// Doc comment of a register block's `Real` struct.
pub fn real_doc_comment() -> (r: &'static str)
    ensures
        r@ == "Struct implementing [Interface] for use with the real hardware."@,
{
    "Struct implementing [Interface] for use with the real hardware."
}

/// Doc comment of the struct generated for the register field `name`.
pub fn field_struct_doc_comment(name: &str) -> (r: String)
    ensures
        r@ == "Struct that provides access to the `"@ + name@ + "` register on real hardware."@,
{
    let mut msg = String::from_str("Struct that provides access to the `");
    msg.append(name);
    msg.append("` register on real hardware.");
    msg
}

/// The message of a failed offset check on the bus whose type is named `bus`.
pub fn offset_mismatch_message(bus: &str) -> (r: String)
    ensures
        r@ == "offset mismatch for bus "@ + bus@,
{
    let mut msg = String::from_str("offset mismatch for bus ");
    msg.append(bus);
    msg
}

/// The span size of an array of elements of size `element` with lengths `lengths` (innermost
/// first): the element size times every length.
pub open spec fn nested_size(element: int, lengths: Seq<usize>) -> int
    decreases lengths.len(),
{
    if lengths.len() == 0 {
        element
    } else {
        nested_size(element, lengths.drop_last()) * lengths.last()
    }
}

/// Every level of the nested array has a size that fits in `usize` (each level's size is a
/// constant of the generated code).
pub open spec fn nested_size_fits(element: int, lengths: Seq<usize>) -> bool {
    forall|k: int| 0 <= k <= lengths.len() ==> #[trigger] nested_size(element, lengths.take(k)) <= usize::MAX
}

/// The span size of a register whose elements take `element_size` bytes, as an array with
/// lengths `array_sizes` (innermost first); `None` when the size of some nesting level exceeds the
/// address space.
pub fn span_size(element_size: usize, array_sizes: &[usize]) -> (r: Option<usize>)
    ensures
        r is Some <==> nested_size_fits(element_size as int, array_sizes@),
        r matches Some(size) ==> size == nested_size(element_size as int, array_sizes@),
{
    let mut size = element_size;
    let mut k: usize = 0;
    proof {
        assert(array_sizes@.take(0) =~= Seq::<usize>::empty());
    }
    while k < array_sizes.len()
        invariant
            k <= array_sizes@.len(),
            size == nested_size(element_size as int, array_sizes@.take(k as int)),
            forall|j: int| 0 <= j <= k ==> #[trigger] nested_size(element_size as int, array_sizes@.take(j)) <= usize::MAX,
        decreases array_sizes@.len() - k,
    {
        proof {
            assert(array_sizes@.take(k + 1).drop_last() =~= array_sizes@.take(k as int));
            assert(array_sizes@.take(k + 1).last() == array_sizes@[k as int]);
        }
        match size.checked_mul(array_sizes[k]) {
            Some(next) => {
                size = next;
            },
            None => {
                assert(nested_size(element_size as int, array_sizes@.take(k + 1)) > usize::MAX);
                return None;
            },
        }
        k = k + 1;
    }
    proof {
        assert(array_sizes@.take(array_sizes@.len() as int) =~= array_sizes@);
    }
    Some(size)
}

/// Every padding of the block has a given size.
pub open spec fn padding_sized(fields: Seq<Field>) -> bool {
    forall|j: int| 0 <= j < fields.len() ==> !(#[trigger] fields[j].field_def matches FieldDef::Padding(None))
}

/// Where field number `j` ends on bus number `bus`: its offset plus its size (a padding's given
/// size, or the register's span size `sizes[j][bus]`).
pub open spec fn field_end(fields: Seq<Field>, sizes: Seq<Vec<usize>>, j: int, bus: int) -> int {
    fields[j].offsets.at(bus) + match fields[j].field_def {
        FieldDef::Padding(Some(size)) => size.at(bus) as int,
        FieldDef::Padding(None) => 0,
        FieldDef::Register { .. } => sizes[j]@[bus] as int,
    }
}

/// `sizes` gives the span size of every register field on each of the `n` buses.
pub open spec fn register_sizes_cover(fields: Seq<Field>, sizes: Seq<Vec<usize>>, n: nat) -> bool {
    forall|j: int|
        0 <= j < fields.len() && (#[trigger] fields[j]).field_def is Register ==> j < sizes.len()
            && sizes[j]@.len() == n
}

/// Before field number `k`, where the fields end is known and no non-aliased field ends later.
proof fn lemma_fields_end_before(fields: Seq<Field>, n: nat, sizes: Seq<Vec<usize>>, k: int)
    requires
        fields_cover(fields, n),
        n <= usize::MAX,
        fields.len() <= usize::MAX,
        padding_sized(fields),
        register_sizes_cover(fields, sizes, n),
        forall|i: int, b: int|
            0 <= i < fields.len() && !is_aliased(fields[i]) && 0 <= b < cumulative_before(
                fields,
                n,
                i,
            ).len() ==> #[trigger] fields[i].offsets.at(b) == extent(
                #[trigger] cumulative_before(fields, n, i)[b],
                sizes,
                b,
            ),
        0 <= k <= fields.len(),
    ensures
        cumulative_before(fields, n, k).len() == n,
        forall|j: int, b: int|
            0 <= j < k && 0 <= b < n && !is_aliased(fields[j]) ==> #[trigger] field_end(
                fields,
                sizes,
                j,
                b,
            ) <= extent(cumulative_before(fields, n, k)[b], sizes, b),
        forall|b: int| 0 <= b < n ==> 0 <= #[trigger] extent(cumulative_before(fields, n, k)[b], sizes, b),
    decreases k,
{
    if k > 0 {
        lemma_fields_end_before(fields, n, sizes, k - 1);
        let i = k - 1;
        let prev = cumulative_before(fields, n, i);
        let cur = cumulative_before(fields, n, k);
        assert(cur == next_cumulative(fields, n, i, prev));
        assert(!(fields[i].field_def matches FieldDef::Padding(None)));
        if !is_aliased(fields[i]) {
            assert forall|b: int| 0 <= b < n implies extent(cur[b], sizes, b) == field_end(
                fields,
                sizes,
                i,
                b,
            ) && field_end(fields, sizes, i, b) >= extent(prev[b], sizes, b) by {
                assert(fields[i].offsets.at(b) == extent(prev[b], sizes, b));
                if fields[i].field_def is Register {
                    assert(cur[b] == Cumulative::Register {
                        field: i as usize,
                        offset: fields[i].offsets.at(b),
                    });
                }
            }
        }
    }
}

/// A block whose offset checks all hold and whose paddings all have a size is as large as its
/// fields: on every bus, no field that is not aliased ends after the block's size.
pub proof fn law_accepted_block_contains_its_fields(
    fields: Seq<Field>,
    n: nat,
    sizes: Seq<Vec<usize>>,
)
    requires
        fields_cover(fields, n),
        n <= usize::MAX,
        fields.len() <= usize::MAX,
        padding_sized(fields),
        register_sizes_cover(fields, sizes, n),
        forall|k: int|
            0 <= k < planned_tests(fields, n, fields.len() as int).len() ==> test_passes(
                #[trigger] planned_tests(fields, n, fields.len() as int)[k],
                sizes,
            ),
    ensures
        cumulative_before(fields, n, fields.len() as int).len() == n,
        forall|j: int, b: int|
            0 <= j < fields.len() && 0 <= b < n && !is_aliased(fields[j]) ==> #[trigger] field_end(
                fields,
                sizes,
                j,
                b,
            ) <= extent(cumulative_before(fields, n, fields.len() as int)[b], sizes, b),
{
    law_accepted_block_is_contiguous(fields, n, sizes);
    lemma_fields_end_before(fields, n, sizes, fields.len() as int);
}

} // verus!
