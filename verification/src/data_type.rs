//! Registers and their data types.

use crate::fields::{RegisterLongName, UIntLike};
use vstd::prelude::*;

verus! {

/// Trait implemented by accessors for individual registers.
pub trait Register: Copy {
    /// The data type given for this register in its `register_map!` definition.
    type DataType: DataType;
}

/// What a register's data type says about it.
pub trait DataType {
    /// The value type passed over the bus when the register is accessed.
    type Value: UIntLike;

    /// The bitfield description of the register.
    type LongName: RegisterLongName;
}

impl<U: UIntLike> DataType for U {
    type Value = U;
    type LongName = ();
}

} // verus!
