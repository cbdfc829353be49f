//! Writing registers.

use crate::bus::{Address, BorrowedBus, Bus};
use crate::data_type::{DataType, Register};
use crate::fields::{is_within, merged, FieldValue, LocalRegisterCopy, UIntLike};
use crate::read::Read;
use vstd::prelude::*;

verus! {

/// A register that can be written.
pub trait Write: Register {
    /// A write of `value` to this register has taken place. (For hardware registers this says
    /// nothing more; a fake register says what its write function did.)
    open spec fn set_performed(self, value: <Self::DataType as DataType>::Value) -> bool {
        true
    }

    /// Sets the raw register value.
    fn set(self, value: <Self::DataType as DataType>::Value)
        ensures
            self.set_performed(value),
    ;

    /// Writes the value of one or more fields, overwriting the other fields with zero: the
    /// register is set to the field value's bits, none of which lies outside its mask.
    fn write(
        &self,
        field: FieldValue<
            <Self::DataType as DataType>::Value,
            <Self::DataType as DataType>::LongName,
        >,
    )
        ensures
            self.set_performed(field@.1),
            is_within(field@.1, field@.0),
    {
        self.set(field.value());
    }

    /// Writes the value of one or more fields, keeping the other fields as in `original` (a
    /// value read before, instead of a new register read).
    fn modify_no_read(
        &self,
        original: LocalRegisterCopy<
            <Self::DataType as DataType>::Value,
            <Self::DataType as DataType>::LongName,
        >,
        field: FieldValue<
            <Self::DataType as DataType>::Value,
            <Self::DataType as DataType>::LongName,
        >,
    )
        ensures
            self.set_performed(merged(original@, field@.0, field@.1)),
    {
        self.set(field.modify(original.get()));
    }
}

/// A register that can be read and written with the same bitfield description.
pub trait ReadWrite: Read + Write {
    /// Writes the value of one or more fields, leaving the other fields as the register read
    /// just before.
    fn modify(
        &self,
        field: FieldValue<
            <Self::DataType as DataType>::Value,
            <Self::DataType as DataType>::LongName,
        >,
    )
        ensures
            exists|v: <Self::DataType as DataType>::Value|
                self.get_returns(v) && self.set_performed(merged(v, field@.0, field@.1)),
    {
        let current = self.get();
        self.set(field.modify(current));
    }
}

impl<R: Read + Write> ReadWrite for R {

}

/// A bus that carries writable registers of value type `T`. Other crates (such as LiteX
/// register crates) implement this for their own buses.
pub trait BusWrite<T: UIntLike>: Bus<T> {
    /// A writable register of type `T` is at this address, and its own access conditions are
    /// met. (An implementation that does not say so cannot be written by verified code.)
    open spec fn writable(self) -> bool {
        false
    }

    /// A write of `value` at this address has taken place.
    open spec fn write_performed(self, value: T) -> bool {
        true
    }

    /// Writes `value` to the register at this address.
    fn write(self, value: T)
        requires
            self.writable(),
        ensures
            self.write_performed(value),
    ;
}

impl<'b, T: UIntLike, A: Address + BusWrite<T>> BusWrite<T> for BorrowedBus<'b, A> {
    open spec fn writable(self) -> bool {
        self.inner().writable()
    }

    open spec fn write_performed(self, value: T) -> bool {
        self.inner().write_performed(value)
    }

    fn write(self, value: T) {
        self.address().write(value)
    }
}

} // verus!
