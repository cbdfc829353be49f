//! The shape of the module generated for a single register (scalar or array, definition or
//! reference).

use crate::codegen::ast::RegisterSpec;
use crate::codegen::{
    bus_bound, len_types, register_kind, spec_bus_bound, spec_len_types, spec_register_kind, BusBound,
    LenType, RegisterKind,
};
use vstd::prelude::*;

verus! {

/// The struct generated for a register definition: `Real` for a scalar, `Element` for the
/// elements of an array.
#[derive(Clone, Copy, PartialEq, Eq, Debug)]
pub enum ElementStruct {
    Real,
    Element,
}

/// The type whose operations the generated `Interface` impl requires: the register itself (a
/// scalar), the generated `Element` (an array definition), or the referenced register's `Real` (an
/// array reference).
#[derive(Clone, Copy, PartialEq, Eq, Debug)]
pub enum ImplBoundType {
    SelfType,
    Element,
    Reference,
}

/// What the `Real` type alias of a single register stands for: the innermost real type, wrapped
/// in `RealRegisterArray<.., Len>` once for each length type, innermost first.
#[derive(Clone, Copy, PartialEq, Eq, Debug)]
pub enum RealBase {
    /// The generated `Element<B>` (an array definition).
    Element,
    /// The referenced module's `Real<B>`.
    Referenced,
}

/// What the module generated for a single register consists of.
pub struct SinglePlan {
    /// Decides the bound of the register's elements: `Register<DataType = T>` and the
    /// operations, or the referenced module's `Interface`. `Interface` is that bound wrapped in
    /// `RegisterArray<Len, Element: ..>` once for each length type, innermost first.
    pub kind: RegisterKind,
    /// The struct generated for a definition; none for a reference.
    pub element_definition: Option<ElementStruct>,
    /// What the `Real` type alias stands for; none for a scalar definition, whose generated
    /// struct is itself named `Real`.
    pub real_alias: Option<RealBase>,
    pub impl_bound_type: ImplBoundType,
    /// The bound on `Bus`, besides its seal. `Bus` is implemented for each listed bus and for
    /// `BorrowedBus<'_, B>` of any `B: Bus`.
    pub bus_bound: BusBound,
    /// The lints the module allows, one per entry.
    pub allows: Vec<&'static str>,
    /// The array length types, innermost first.
    pub lens: Vec<LenType>,
}

/// The lints that the module of a register of kind `kind` allows: the `Clone` impl written by
/// hand for a definition's struct.
pub fn module_allows(kind: RegisterKind) -> (r: Vec<&'static str>)
    ensures
        kind == RegisterKind::Definition ==> r@.len() == 1 && r@[0]@
            == "clippy::expl_impl_clone_on_copy"@,
        kind == RegisterKind::Reference ==> r@.len() == 0,
{
    let mut allows: Vec<&'static str> = Vec::new();
    match kind {
        RegisterKind::Definition => allows.push("clippy::expl_impl_clone_on_copy"),
        RegisterKind::Reference => {},
    }
    allows
}

/// Decides the shape of the module generated for the single register `register`.
pub fn generate(register: &RegisterSpec) -> (r: SinglePlan)
    ensures
        r.kind == spec_register_kind(*register),
        r.element_definition == (if register.operations is Some {
            Some(
                if register.array_sizes@.len() == 0 {
                    ElementStruct::Real
                } else {
                    ElementStruct::Element
                },
            )
        } else {
            None
        }),
        r.real_alias == (if register.operations is None {
            Some(RealBase::Referenced)
        } else if register.array_sizes@.len() == 0 {
            None
        } else {
            Some(RealBase::Element)
        }),
        r.impl_bound_type == (if register.array_sizes@.len() == 0 {
            ImplBoundType::SelfType
        } else if register.operations is Some {
            ImplBoundType::Element
        } else {
            ImplBoundType::Reference
        }),
        r.bus_bound == spec_bus_bound(spec_register_kind(*register)),
        register.operations is Some ==> r.allows@.len() == 1 && r.allows@[0]@
            == "clippy::expl_impl_clone_on_copy"@,
        register.operations is None ==> r.allows@.len() == 0,
        r.lens@ == spec_len_types(register.array_sizes@),
{
    let is_scalar = register.array_sizes.len() == 0;
    let kind = register_kind(register);
    let is_definition = register.operations.is_some();
    let element_definition = if is_definition {
        Some(
            if is_scalar {
                ElementStruct::Real
            } else {
                ElementStruct::Element
            },
        )
    } else {
        None
    };
    let real_alias = if !is_definition {
        Some(RealBase::Referenced)
    } else if is_scalar {
        None
    } else {
        Some(RealBase::Element)
    };
    let impl_bound_type = if is_scalar {
        ImplBoundType::SelfType
    } else if is_definition {
        ImplBoundType::Element
    } else {
        ImplBoundType::Reference
    };
    SinglePlan {
        kind,
        element_definition,
        real_alias,
        impl_bound_type,
        bus_bound: bus_bound(kind),
        allows: module_allows(kind),
        lens: len_types(register.array_sizes.as_slice()),
    }
}

/// Doc comment lines of a register's `Interface` trait.
pub fn interface_doc_comment() -> (r: Vec<&'static str>)
    ensures
        r@.len() == 2,
        r@[0]@ == "Trait representing this register's operations. Driver code can use this trait to work"@,
        r@[1]@ == "with both real hardware and fake implementations of the register (for unit testing)."@,
{
    let mut lines: Vec<&'static str> = Vec::new();
    lines.push("Trait representing this register's operations. Driver code can use this trait to work");
    lines.push("with both real hardware and fake implementations of the register (for unit testing).");
    lines
}

/// Doc comment of a register's `Bus` trait.
pub fn bus_doc_comment() -> (r: &'static str)
    ensures
        r@ == "Buses supported by this register."@,
{
    "Buses supported by this register."
}

/// Doc comment lines of the struct generated for a register definition.
pub fn struct_doc_comment(is_scalar: bool) -> (r: Vec<&'static str>)
    ensures
        is_scalar ==> r@.len() == 1 && r@[0]@
            == "Struct that implements [Interface] for use with the real hardware."@,
        !is_scalar ==> {
            &&& r@.len() == 3
            &&& r@[0]@ == "Implementation of an element of this register array for use with real hardware."@
            &&& r@[1]@ == "This implements the tock_registers::Register trait as well as any operation traits"@
            &&& r@[2]@ == "specified in the register definition."@
        },
{
    let mut lines: Vec<&'static str> = Vec::new();
    if is_scalar {
        lines.push("Struct that implements [Interface] for use with the real hardware.");
    } else {
        lines.push("Implementation of an element of this register array for use with real hardware.");
        lines.push("This implements the tock_registers::Register trait as well as any operation traits");
        lines.push("specified in the register definition.");
    }
    lines
}

/// Doc comment of the `Real` type alias.
pub fn real_alias_doc_comment() -> (r: &'static str)
    ensures
        r@ == "Implementation of [Interface] for use with real hardware."@,
{
    "Implementation of [Interface] for use with real hardware."
}

} // verus!
