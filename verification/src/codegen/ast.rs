//! The description of a `register_map!` invocation, as plain values: register layouts, the
//! fields of register blocks and their per-bus offsets.

use vstd::prelude::*;

verus! {

/// The full input of a `register_map!` invocation: the path to this crate and the layouts.
pub struct Input {
    pub tock_registers: String,
    pub layouts: Vec<Layout>,
}

/// An individual register or register block layout.
pub struct Layout {
    /// Doc comment lines.
    pub docs: Vec<String>,
    pub bus: BusAttr,
    pub visibility: String,
    pub name: String,
    pub value: Value,
}

/// The `#[bus]` or `#[buses]` attribute of a layout, holding bus type paths.
pub enum BusAttr {
    Bus(String),
    Buses(Vec<String>),
}

impl BusAttr {
    /// The number of buses.
    pub open spec fn spec_len(&self) -> nat {
        match self {
            BusAttr::Bus(_) => 1,
            BusAttr::Buses(buses) => buses@.len(),
        }
    }

    /// The buses, in order.
    pub open spec fn spec_buses(&self) -> Seq<String> {
        match self {
            BusAttr::Bus(bus) => seq![*bus],
            BusAttr::Buses(buses) => buses@,
        }
    }

    /// Returns the number of buses.
    pub fn len(&self) -> (r: usize)
        ensures
            r == self.spec_len(),
    {
        match self {
            BusAttr::Bus(_) => 1,
            BusAttr::Buses(buses) => buses.len(),
        }
    }

    /// The buses as a list, in order.
    pub fn as_slice(&self) -> (r: &[String])
        ensures
            r@ == self.spec_buses(),
    {
        match self {
            BusAttr::Bus(bus) => std::slice::from_ref(bus),
            BusAttr::Buses(buses) => buses.as_slice(),
        }
    }

    /// The bus that the `B: Bus` argument of a real struct defaults to: the bus of a single
    /// `#[bus]` attribute, and none for `#[buses]`.
    pub fn generic_default(&self) -> (r: Option<&String>)
        ensures
            r == match self {
                BusAttr::Bus(bus) => Some(bus),
                BusAttr::Buses(_) => None::<&String>,
            },
    {
        match self {
            BusAttr::Bus(bus) => Some(bus),
            BusAttr::Buses(_) => None,
        }
    }
}

/// The part of a register layout after its name: a register block or a single register.
pub enum Value {
    Block(Vec<Field>),
    Single(RegisterSpec),
}

/// A field of a register block: padding or a register, with its offsets.
pub struct Field {
    pub offsets: PerBusInt,
    pub field_def: FieldDef,
}

/// The contents of a field.
pub enum FieldDef {
    /// Padding, with its per-bus size when given.
    Padding(Option<PerBusInt>),
    Register { docs: Vec<String>, aliased: bool, name: String, definition: RegisterSpec },
}

/// `std::slice::from_ref`: the documentation says it converts a reference into a slice of
/// length 1 holding the referenced value; that is all this states.
pub assume_specification<T>[ std::slice::from_ref::<T> ](s: &T) -> (r: &[T])
    ensures
        r@ == seq![*s],
;

/// A per-bus integer: one value for every bus, or one value per bus in bus order.
pub enum PerBusInt {
    Array(Vec<usize>),
    Single(usize),
}

impl PerBusInt {
    /// The value for bus number `bus`.
    pub open spec fn at(&self, bus: int) -> usize {
        match self {
            PerBusInt::Array(values) => values@[bus],
            PerBusInt::Single(value) => *value,
        }
    }

    /// The integer gives a value for each of `n` buses.
    pub open spec fn covers(&self, n: nat) -> bool {
        match self {
            PerBusInt::Array(values) => values@.len() == n,
            PerBusInt::Single(_) => true,
        }
    }

    /// Returns the value for bus number `bus`.
    pub fn index(&self, bus: usize) -> (r: usize)
        requires
            self is Array ==> bus < self->Array_0@.len(),
        ensures
            r == self.at(bus as int),
    {
        match self {
            PerBusInt::Array(values) => values[bus],
            PerBusInt::Single(value) => *value,
        }
    }
}

/// A register specification: a definition (element type and operations) or a reference to
/// another definition, possibly as a nested array.
pub struct RegisterSpec {
    /// A primitive type for definitions, a path to another definition for references. For an
    /// array this is the innermost element type.
    pub element_type: String,
    /// Array lengths from the innermost array to the outermost.
    pub array_sizes: Vec<usize>,
    /// The operations of a definition; `None` for a reference.
    pub operations: Option<Vec<String>>,
}

} // verus!
