//! Memory-mapped IO buses. An MMIO address is a position in the memory address space; the
//! address arithmetic and the bus sizes live here, the volatile accesses themselves are made by
//! the code that owns the memory.

use crate::bus::{Address, Bus};
use vstd::prelude::*;

verus! {

/// MMIO register bus for 32-bit systems.
#[derive(Clone, Copy)]
pub struct Mmio32(usize);

impl Mmio32 {
    #[verifier::type_invariant]
    spec fn not_null(self) -> bool {
        self.0 != 0
    }
}

impl Mmio32 {
    /// The bus address pointing to `addr`. Address 0 cannot be reached through this bus (use
    /// the nullable bus for that).
    pub fn with_addr(addr: usize) -> (r: Self)
        requires
            addr != 0,
        ensures
            r.position() == addr,
    {
        Mmio32(addr)
    }

    /// The address this bus points to.
    pub fn addr(self) -> (r: usize)
        ensures
            r == self.position(),
    {
        self.0
    }
}

impl Address for Mmio32 {
    closed spec fn position(self) -> nat {
        self.0 as nat
    }

    open spec fn bus_end() -> nat {
        usize::MAX as nat
    }

    closed spec fn spec_byte_add(self, offset: usize) -> Self {
        Mmio32((self.0 + offset) as usize)
    }

    fn byte_add(self, offset: usize) -> (r: Self) {
        proof {
            use_type_invariant(&self);
        }
        Mmio32(self.0 + offset)
    }
}

impl Bus<u8> for Mmio32 {
    const PADDED_SIZE: usize = 1;
}

impl Bus<u16> for Mmio32 {
    const PADDED_SIZE: usize = 2;
}

impl Bus<u32> for Mmio32 {
    const PADDED_SIZE: usize = 4;
}

impl Bus<u64> for Mmio32 {
    const PADDED_SIZE: usize = 8;
}

impl Bus<usize> for Mmio32 {
    const PADDED_SIZE: usize = 4;
}

/// MMIO register bus for 64-bit systems.
#[derive(Clone, Copy)]
pub struct Mmio64(usize);

impl Mmio64 {
    #[verifier::type_invariant]
    spec fn not_null(self) -> bool {
        self.0 != 0
    }
}

impl Mmio64 {
    /// The bus address pointing to `addr`. Address 0 cannot be reached through this bus (use
    /// the nullable bus for that).
    pub fn with_addr(addr: usize) -> (r: Self)
        requires
            addr != 0,
        ensures
            r.position() == addr,
    {
        Mmio64(addr)
    }

    /// The address this bus points to.
    pub fn addr(self) -> (r: usize)
        ensures
            r == self.position(),
    {
        self.0
    }
}

impl Address for Mmio64 {
    closed spec fn position(self) -> nat {
        self.0 as nat
    }

    open spec fn bus_end() -> nat {
        usize::MAX as nat
    }

    closed spec fn spec_byte_add(self, offset: usize) -> Self {
        Mmio64((self.0 + offset) as usize)
    }

    fn byte_add(self, offset: usize) -> (r: Self) {
        proof {
            use_type_invariant(&self);
        }
        Mmio64(self.0 + offset)
    }
}

impl Bus<u8> for Mmio64 {
    const PADDED_SIZE: usize = 1;
}

impl Bus<u16> for Mmio64 {
    const PADDED_SIZE: usize = 2;
}

impl Bus<u32> for Mmio64 {
    const PADDED_SIZE: usize = 4;
}

impl Bus<u64> for Mmio64 {
    const PADDED_SIZE: usize = 8;
}

impl Bus<u128> for Mmio64 {
    const PADDED_SIZE: usize = 16;
}

impl Bus<usize> for Mmio64 {
    const PADDED_SIZE: usize = 8;
}

/// MMIO register bus for 32-bit systems that can point to a register at the 0 address.
#[derive(Clone, Copy)]
pub struct Mmio32Nullable(usize);

impl Mmio32Nullable {
    /// The bus address pointing to `addr`, which may be 0.
    pub fn with_addr(addr: usize) -> (r: Self)
        ensures
            r.position() == addr,
    {
        Mmio32Nullable(addr)
    }

    /// The address this bus points to.
    pub fn addr(self) -> (r: usize)
        ensures
            r == self.position(),
    {
        self.0
    }
}

impl Address for Mmio32Nullable {
    closed spec fn position(self) -> nat {
        self.0 as nat
    }

    open spec fn bus_end() -> nat {
        usize::MAX as nat
    }

    closed spec fn spec_byte_add(self, offset: usize) -> Self {
        Mmio32Nullable((self.0 + offset) as usize)
    }

    fn byte_add(self, offset: usize) -> (r: Self) {
        Mmio32Nullable(self.0 + offset)
    }
}

impl Bus<u8> for Mmio32Nullable {
    const PADDED_SIZE: usize = 1;
}

impl Bus<u16> for Mmio32Nullable {
    const PADDED_SIZE: usize = 2;
}

impl Bus<u32> for Mmio32Nullable {
    const PADDED_SIZE: usize = 4;
}

impl Bus<u64> for Mmio32Nullable {
    const PADDED_SIZE: usize = 8;
}

impl Bus<usize> for Mmio32Nullable {
    const PADDED_SIZE: usize = 4;
}

/// MMIO register bus for 64-bit systems that can point to a register at the 0 address.
#[derive(Clone, Copy)]
pub struct Mmio64Nullable(usize);

impl Mmio64Nullable {
    /// The bus address pointing to `addr`, which may be 0.
    pub fn with_addr(addr: usize) -> (r: Self)
        ensures
            r.position() == addr,
    {
        Mmio64Nullable(addr)
    }

    /// The address this bus points to.
    pub fn addr(self) -> (r: usize)
        ensures
            r == self.position(),
    {
        self.0
    }
}

impl Address for Mmio64Nullable {
    closed spec fn position(self) -> nat {
        self.0 as nat
    }

    open spec fn bus_end() -> nat {
        usize::MAX as nat
    }

    closed spec fn spec_byte_add(self, offset: usize) -> Self {
        Mmio64Nullable((self.0 + offset) as usize)
    }

    fn byte_add(self, offset: usize) -> (r: Self) {
        Mmio64Nullable(self.0 + offset)
    }
}

impl Bus<u8> for Mmio64Nullable {
    const PADDED_SIZE: usize = 1;
}

impl Bus<u16> for Mmio64Nullable {
    const PADDED_SIZE: usize = 2;
}

impl Bus<u32> for Mmio64Nullable {
    const PADDED_SIZE: usize = 4;
}

impl Bus<u64> for Mmio64Nullable {
    const PADDED_SIZE: usize = 8;
}

impl Bus<u128> for Mmio64Nullable {
    const PADDED_SIZE: usize = 16;
}

impl Bus<usize> for Mmio64Nullable {
    const PADDED_SIZE: usize = 8;
}

} // verus!
