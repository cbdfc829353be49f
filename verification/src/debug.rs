//! Register values tagged with the register they were read from, for printing.

use crate::fields::{RegisterLongName, UIntLike};
use core::marker::PhantomData;
use vstd::prelude::*;

verus! {

/// A value read from a register, tagged with the register's bitfield description `R`, so that
/// it can be printed with `Debug`.
#[derive(Debug)]
pub struct RegisterDebugValue<T: UIntLike, R: RegisterLongName> {
    /// The value that was read.
    pub data: T,
    pub associated_register: PhantomData<R>,
}

impl<T: UIntLike, R: RegisterLongName> RegisterDebugValue<T, R> {
    /// Tags `data` with the register description `R`.
    pub fn new(data: T) -> (r: Self)
        ensures
            r.data == data,
    {
        RegisterDebugValue { data, associated_register: PhantomData }
    }
}

} // verus!
