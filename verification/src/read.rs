//! Reading registers.

use crate::bus::{Address, BorrowedBus, Bus};
use crate::data_type::{DataType, Register};
use crate::debug::RegisterDebugValue;
use crate::fields::{Field, FieldValue, LocalRegisterCopy, TryFromValue, UIntLike};
use vstd::prelude::*;

verus! {

/// A register that can be read.
pub trait Read: Register {
    /// A read of this register can return `value`. (For hardware registers any value can be
    /// returned; a fake register says which.)
    open spec fn get_returns(self, value: <Self::DataType as DataType>::Value) -> bool {
        true
    }

    /// Gets the raw register value.
    fn get(self) -> (r: <Self::DataType as DataType>::Value)
        ensures
            self.get_returns(r),
    ;

    /// Reads the value of the given field.
    fn read(
        self,
        field: Field<<Self::DataType as DataType>::Value, <Self::DataType as DataType>::LongName>,
    ) -> (r: <Self::DataType as DataType>::Value)
        requires
            field.shift < <Self::DataType as DataType>::Value::bits(),
        ensures
            exists|v: <Self::DataType as DataType>::Value|
                self.get_returns(v) && r == field.spec_read(v),
    {
        field.read(self.get())
    }

    /// Reads the value of the given field as a member of enum `E`.
    fn read_as_enum<E: TryFromValue<<Self::DataType as DataType>::Value, EnumType = E>>(
        self,
        field: Field<<Self::DataType as DataType>::Value, <Self::DataType as DataType>::LongName>,
    ) -> (r: Option<E>)
        requires
            field.shift < <Self::DataType as DataType>::Value::bits(),
        ensures
            exists|v: <Self::DataType as DataType>::Value|
                self.get_returns(v) && (E::obeys_try_from_value() ==> r == E::spec_try_from_value(
                    field.spec_read(v),
                )),
    {
        field.read_as_enum(self.get())
    }

    /// Makes a local copy of the register.
    fn extract(self) -> (r: LocalRegisterCopy<
        <Self::DataType as DataType>::Value,
        <Self::DataType as DataType>::LongName,
    >)
        ensures
            self.get_returns(r@),
    {
        LocalRegisterCopy::new(self.get())
    }

    /// Reads the register once and returns the value tagged with the register's bitfield
    /// description, for printing with `Debug`.
    fn debug(self) -> (r: RegisterDebugValue<
        <Self::DataType as DataType>::Value,
        <Self::DataType as DataType>::LongName,
    >)
        ensures
            self.get_returns(r.data),
    {
        RegisterDebugValue::new(self.get())
    }

    /// Checks whether one or more bits of the given field are set.
    fn is_set(
        self,
        field: Field<<Self::DataType as DataType>::Value, <Self::DataType as DataType>::LongName>,
    ) -> (r: bool)
        requires
            field.shift < <Self::DataType as DataType>::Value::bits(),
        ensures
            exists|v: <Self::DataType as DataType>::Value|
                self.get_returns(v) && r == field.spec_is_set(v),
    {
        field.is_set(self.get())
    }

    /// Checks whether any bit covered by `field` is set. Like `is_set`, but the bits may lie in
    /// several non-contiguous parts of the register.
    fn any_matching_bits_set(
        self,
        field: FieldValue<
            <Self::DataType as DataType>::Value,
            <Self::DataType as DataType>::LongName,
        >,
    ) -> (r: bool)
        ensures
            exists|v: <Self::DataType as DataType>::Value|
                self.get_returns(v) && r == (v.spec_bit_and(field@.0)
                    != <Self::DataType as DataType>::Value::spec_zero()),
    {
        field.any_matching_bits_set(self.get())
    }

    /// Checks whether all the fields `field` covers hold its values.
    fn matches_all(
        self,
        field: FieldValue<
            <Self::DataType as DataType>::Value,
            <Self::DataType as DataType>::LongName,
        >,
    ) -> (r: bool)
        ensures
            exists|v: <Self::DataType as DataType>::Value|
                self.get_returns(v) && r == (v.spec_bit_and(field@.0) == field@.1),
    {
        field.matches_all(self.get())
    }

    /// Checks whether the fields covered by one of `fields` hold all of its values, in the
    /// register's value. The register is read once.
    fn matches_any(
        self,
        fields: &[FieldValue<
            <Self::DataType as DataType>::Value,
            <Self::DataType as DataType>::LongName,
        >],
    ) -> (r: bool)
        ensures
            exists|v: <Self::DataType as DataType>::Value|
                self.get_returns(v) && r == exists|i: int|
                    0 <= i < fields@.len() && #[trigger] v.spec_bit_and(fields@[i]@.0)
                        == fields@[i]@.1,
    {
        let copy: LocalRegisterCopy<
            <Self::DataType as DataType>::Value,
            <Self::DataType as DataType>::LongName,
        > = LocalRegisterCopy::new(self.get());
        copy.matches_any(fields)
    }
}

/// A bus that carries readable registers of value type `T`. Other crates (such as LiteX
/// register crates) implement this for their own buses.
pub trait BusRead<T: UIntLike>: Bus<T> {
    /// A readable register of type `T` is at this address, and its own access conditions are
    /// met. (An implementation that does not say so cannot be read by verified code.)
    open spec fn readable(self) -> bool {
        false
    }

    /// A read at this address can return `value`.
    open spec fn read_returns(self, value: T) -> bool {
        true
    }

    /// Reads the register at this address.
    fn read(self) -> (r: T)
        requires
            self.readable(),
        ensures
            self.read_returns(r),
    ;
}

impl<'b, T: UIntLike, A: Address + BusRead<T>> BusRead<T> for BorrowedBus<'b, A> {
    open spec fn readable(self) -> bool {
        self.inner().readable()
    }

    open spec fn read_returns(self, value: T) -> bool {
        self.inner().read_returns(value)
    }

    fn read(self) -> (r: T) {
        self.address().read()
    }
}

} // verus!
