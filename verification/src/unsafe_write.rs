//! Registers whose writes have hardware-specific conditions.

use crate::data_type::{DataType, Register};
use crate::fields::{is_within, merged, FieldValue, LocalRegisterCopy};
use vstd::prelude::*;

verus! {

/// A register that can be written, but only when hardware-specific conditions (documented with
/// the register layout) are met; writing it otherwise can cause undefined behavior. Every method
/// requires those conditions.
pub trait UnsafeWrite: Register {
    /// The hardware's conditions for writing this register are met. (An implementation that
    /// does not state them cannot be written by verified code.)
    open spec fn write_conditions_met(self) -> bool {
        false
    }

    /// A write of `value` to this register has taken place.
    open spec fn unsafe_set_performed(self, value: <Self::DataType as DataType>::Value) -> bool {
        true
    }

    /// Sets the raw register value.
    fn set(self, value: <Self::DataType as DataType>::Value)
        requires
            self.write_conditions_met(),
        ensures
            self.unsafe_set_performed(value),
    ;

    /// Writes the value of one or more fields, overwriting the other fields with zero.
    fn write(
        &self,
        field: FieldValue<
            <Self::DataType as DataType>::Value,
            <Self::DataType as DataType>::LongName,
        >,
    )
        requires
            self.write_conditions_met(),
        ensures
            self.unsafe_set_performed(field@.1),
            is_within(field@.1, field@.0),
    {
        self.set(field.value());
    }

    /// Writes the value of one or more fields, keeping the other fields as in `original`.
    fn modify_no_read(
        &self,
        original: LocalRegisterCopy<
            <Self::DataType as DataType>::Value,
            <Self::DataType as DataType>::LongName,
        >,
        field: FieldValue<
            <Self::DataType as DataType>::Value,
            <Self::DataType as DataType>::LongName,
        >,
    )
        requires
            self.write_conditions_met(),
        ensures
            self.unsafe_set_performed(merged(original@, field@.0, field@.1)),
    {
        let new = field.modify(original.get());
        self.set(new);
    }
}

} // verus!
