//! Typed access to hardware registers and their bitfields, with fakes for unit tests and the
//! layout rules of register blocks.

pub mod array;
pub mod bus;
pub mod codegen;
pub mod data_type;
pub mod debug;
pub mod fake_register;
pub mod fields;
pub mod internal;
pub mod mmio;
pub mod read;
pub mod unsafe_read;
pub mod unsafe_write;
pub mod write;

pub use array::{Len, RealRegisterArray, RegisterArray};
pub use bus::{
    Address, BorrowedBus, Bus, DataTypeBus, RegisterSender, Span, SpanBorrow, SpanBorrowLaws,
};
pub use data_type::{DataType, Register};
pub use debug::RegisterDebugValue;
pub use fake_register::{Access, FakeRegister, FakeRegisterArray, NoAccess, Safe};
pub use fields::{
    Field, FieldValue, LocalRegisterCopy, RegisterLongName, TryFromValue, UIntLike,
};
pub use mmio::{Mmio32, Mmio32Nullable, Mmio64, Mmio64Nullable};
pub use read::{BusRead, Read};
pub use unsafe_read::UnsafeRead;
pub use unsafe_write::UnsafeWrite;
pub use write::{BusWrite, ReadWrite, Write};
