//! The decisions behind the code that `register_map!` generates for each layout.

pub mod ast;
pub mod block;
pub mod single;

use crate::codegen::ast::RegisterSpec;
use vstd::prelude::*;
use vstd::string::StringExecFns;

verus! {

/// Where generated code goes: to a separate rustc invocation, or back to the compiler from a
/// procedural macro (which suppresses some lints itself, so the generated `allow` attributes
/// differ).
#[derive(Clone, Copy, PartialEq, Eq, Debug)]
pub enum Env {
    /// Code to feed into a separate rustc invocation.
    External,
    /// Code returned by the procedural macro.
    ProcMacro,
}

/// A generated length type of a register array: `Len` (or the field's name, in a block) for a
/// non-nested array, `Len<N>` for nesting level `N` of a nested array.
#[derive(Clone, Copy, PartialEq, Eq, Debug)]
pub struct LenType {
    /// The nesting level `N`, for nested arrays.
    pub index: Option<usize>,
    /// The array length the type stands for.
    pub len: usize,
}

/// Whether a register is defined in place (a data type and operations, for which a struct is
/// generated) or refers to the module generated for another register.
#[derive(Clone, Copy, PartialEq, Eq, Debug)]
pub enum RegisterKind {
    /// Its accessors are bound by `Register<DataType = T>` and its operations, and its real type
    /// is a struct generated for it.
    Definition,
    /// Its accessors are bound by the referenced module's `Interface`, and its real type is that
    /// module's `Real<B>`.
    Reference,
}

/// A register with operations is a definition; one without refers to another register.
pub open spec fn spec_register_kind(register: RegisterSpec) -> RegisterKind {
    if register.operations is Some {
        RegisterKind::Definition
    } else {
        RegisterKind::Reference
    }
}

/// Returns whether `register` is a definition or a reference.
pub fn register_kind(register: &RegisterSpec) -> (r: RegisterKind)
    ensures
        r == spec_register_kind(*register),
{
    if register.operations.is_some() {
        RegisterKind::Definition
    } else {
        RegisterKind::Reference
    }
}

/// The bound that a register puts on the generated `Bus` trait.
#[derive(Clone, Copy, PartialEq, Eq, Debug)]
pub enum BusBound {
    /// `DataTypeBus<T>` for the register's data type `T`: the bus can carry it.
    DataTypeBus,
    /// The referenced register module's `Bus`.
    ReferencedBus,
}

/// A definition needs a bus that carries its data type; a reference needs a bus of the
/// referenced module.
pub open spec fn spec_bus_bound(kind: RegisterKind) -> BusBound {
    match kind {
        RegisterKind::Definition => BusBound::DataTypeBus,
        RegisterKind::Reference => BusBound::ReferencedBus,
    }
}

/// Returns the bus bound of a register of kind `kind`.
pub fn bus_bound(kind: RegisterKind) -> (r: BusBound)
    ensures
        r == spec_bus_bound(kind),
{
    match kind {
        RegisterKind::Definition => BusBound::DataTypeBus,
        RegisterKind::Reference => BusBound::ReferencedBus,
    }
}

/// The length types of an array with lengths `sizes` (innermost first): none for a scalar, an
/// unindexed one for a single array, one per level for nested arrays.
pub open spec fn spec_len_types(sizes: Seq<usize>) -> Seq<LenType> {
    if sizes.len() == 1 {
        seq![LenType { index: None, len: sizes[0] }]
    } else {
        Seq::new(sizes.len(), |n: int| LenType { index: Some(n as usize), len: sizes[n] })
    }
}

/// Returns the length types of an array with lengths `sizes`, innermost first.
pub fn len_types(sizes: &[usize]) -> (r: Vec<LenType>)
    ensures
        r@ == spec_len_types(sizes@),
{
    let mut out: Vec<LenType> = Vec::new();
    if sizes.len() == 1 {
        out.push(LenType { index: None, len: sizes[0] });
        return out;
    }
    let mut n: usize = 0;
    while n < sizes.len()
        invariant
            n <= sizes@.len(),
            sizes@.len() != 1,
            out@ == Seq::new(n as nat, |k: int| LenType { index: Some(k as usize), len: sizes@[k] }),
        decreases sizes@.len() - n,
    {
        out.push(LenType { index: Some(n), len: sizes[n] });
        proof {
            assert(out@ =~= Seq::new(
                (n + 1) as nat,
                |k: int| LenType { index: Some(k as usize), len: sizes@[k] },
            ));
        }
        n = n + 1;
    }
    out
}

/// Doc comment lines of the `new` function of a register or register block.
pub fn new_doc_comment() -> (r: Vec<&'static str>)
    ensures
        r@.len() == 11,
        r@[0]@ == "Constructs an accessor for this register or register block."@,
        r@[1]@ == "# Safety"@,
        r@[2]@ == "1. `address` must point to register(s) on the bus corresponding to"@,
        r@[3]@ == "   `B`."@,
        r@[4]@ == "2. The register(s)' definition (as provided to the"@,
        r@[5]@ == "   `tock_registers::register_map!` macro) must correctly"@,
        r@[6]@ == "   describe the pointed-to register(s)."@,
        r@[7]@ == "3. The returned register accessor must not be used in a way that"@,
        r@[8]@ == "   causes data races. The exact requirements depend on the hardware,"@,
        r@[9]@ == "   but it's usually best to access a register from only one thread"@,
        r@[10]@ == "   at a time."@,
{
    let mut lines: Vec<&'static str> = Vec::new();
    lines.push("Constructs an accessor for this register or register block.");
    lines.push("# Safety");
    lines.push("1. `address` must point to register(s) on the bus corresponding to");
    lines.push("   `B`.");
    lines.push("2. The register(s)' definition (as provided to the");
    lines.push("   `tock_registers::register_map!` macro) must correctly");
    lines.push("   describe the pointed-to register(s).");
    lines.push("3. The returned register accessor must not be used in a way that");
    lines.push("   causes data races. The exact requirements depend on the hardware,");
    lines.push("   but it's usually best to access a register from only one thread");
    lines.push("   at a time.");
    lines
}

/// The register-map macros that code expansion recognizes.
#[derive(Clone, Copy, PartialEq, Eq, Debug)]
pub enum MapMacro {
    /// `register_map!`, with its buses given in the invocation.
    RegisterMap,
    /// `mmio32_register_map!`: `register_map!` on the 32-bit MMIO bus.
    Mmio32RegisterMap,
    /// `mmio64_register_map!`: `register_map!` on the 64-bit MMIO bus.
    Mmio64RegisterMap,
}

/// The macro named by a path with segments `segments` (and a leading `::` or not): a bare name,
/// or a name under `tock_registers`, that is one of the register-map macros.
pub open spec fn spec_recognize_macro(segments: Seq<Seq<char>>, leading_colon: bool) -> Option<
    MapMacro,
> {
    let name = if segments.len() == 1 && !leading_colon {
        Some(segments[0])
    } else if segments.len() == 2 && segments[0] == "tock_registers"@ {
        Some(segments[1])
    } else {
        None
    };
    match name {
        Some(n) => if n == "register_map"@ {
            Some(MapMacro::RegisterMap)
        } else if n == "mmio32_register_map"@ {
            Some(MapMacro::Mmio32RegisterMap)
        } else if n == "mmio64_register_map"@ {
            Some(MapMacro::Mmio64RegisterMap)
        } else {
            None
        },
        None => None,
    }
}

/// Which macro a path names depends only on its last name: a bare name is recognized without a
/// leading `::`, a two-segment path under `tock_registers` with or without one, and the three
/// register-map macros are recognized in each of these forms.
pub proof fn law_recognized_macro_paths(name: Seq<char>, leading_colon: bool)
    ensures
        spec_recognize_macro(seq!["tock_registers"@, name], leading_colon) == spec_recognize_macro(
            seq![name],
            false,
        ),
        spec_recognize_macro(seq![name], true) == None::<MapMacro>,
        spec_recognize_macro(seq!["tock_registers"@, "register_map"@], leading_colon) == Some(
            MapMacro::RegisterMap,
        ),
        spec_recognize_macro(seq!["tock_registers"@, "mmio32_register_map"@], leading_colon)
            == Some(MapMacro::Mmio32RegisterMap),
        spec_recognize_macro(seq!["tock_registers"@, "mmio64_register_map"@], leading_colon)
            == Some(MapMacro::Mmio64RegisterMap),
        spec_recognize_macro(seq!["register_map"@], false) == Some(MapMacro::RegisterMap),
        spec_recognize_macro(seq!["mmio32_register_map"@], false) == Some(
            MapMacro::Mmio32RegisterMap,
        ),
        spec_recognize_macro(seq!["mmio64_register_map"@], false) == Some(
            MapMacro::Mmio64RegisterMap,
        ),
{
    reveal_strlit("register_map");
    reveal_strlit("mmio32_register_map");
    reveal_strlit("mmio64_register_map");
    let two = seq!["tock_registers"@, name];
    assert(two[0] == "tock_registers"@ && two[1] == name);
    assert(seq![name][0] == name);
    assert("mmio32_register_map"@.len() != "register_map"@.len());
    assert("mmio64_register_map"@.len() != "register_map"@.len());
    assert("mmio64_register_map"@[4] != "mmio32_register_map"@[4]);
    let s32 = seq!["tock_registers"@, "mmio32_register_map"@];
    let s64 = seq!["tock_registers"@, "mmio64_register_map"@];
    assert(s32[0] == "tock_registers"@ && s32[1] == "mmio32_register_map"@);
    assert(s64[0] == "tock_registers"@ && s64[1] == "mmio64_register_map"@);
}

/// Recognizes a register-map macro invocation by its path: the path's segments, and whether it
/// starts with `::`.
pub fn recognize_macro(segments: &[String], leading_colon: bool) -> (r: Option<MapMacro>)
    ensures
        r == spec_recognize_macro(segments@.map_values(|s: String| s@), leading_colon),
{
    let ghost views = segments@.map_values(|s: String| s@);
    let crate_name = String::from_str("tock_registers");
    let name: Option<&String> = if segments.len() == 1 && !leading_colon {
        Some(&segments[0])
    } else if segments.len() == 2 && segments[0] == crate_name {
        Some(&segments[1])
    } else {
        None
    };
    proof {
        if segments@.len() == 1 || segments@.len() == 2 {
            assert(views[0] == segments@[0]@);
        }
        if segments@.len() == 2 {
            assert(views[1] == segments@[1]@);
        }
    }
    match name {
        Some(n) => {
            if *n == String::from_str("register_map") {
                Some(MapMacro::RegisterMap)
            } else if *n == String::from_str("mmio32_register_map") {
                Some(MapMacro::Mmio32RegisterMap)
            } else if *n == String::from_str("mmio64_register_map") {
                Some(MapMacro::Mmio64RegisterMap)
            } else {
                None
            }
        },
        None => None,
    }
}

} // verus!
