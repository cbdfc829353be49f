use std::sync::mpsc::channel;
use tock_registers::internal::RealPhantom;
use tock_registers::{
    Address, BorrowedBus, Bus, DataTypeBus, Len, Mmio32, Mmio32Nullable, Mmio64, Mmio64Nullable,
    RealRegisterArray, RegisterArray, RegisterSender, Span, SpanBorrow,
};

/// A 4-byte register accessor for the tests.
#[derive(Clone, Copy)]
struct Reg<A: Address>(A);

impl<A: Address> Span for Reg<A> {
    type Address = A;
    const SIZE: usize = 4;
    fn with_addr(address: A) -> Self {
        Reg(address)
    }
}

impl<A: Address> SpanBorrow for Reg<A> {
    type Borrowed<'b> = Reg<BorrowedBus<'b, A>>;
}

struct Four;
impl Len for Four {
    const LEN: usize = 4;
}

struct Two;
impl Len for Two {
    const LEN: usize = 2;
}

#[test]
fn mmio_addresses() {
    let a = Mmio32::with_addr(0x4000_0000);
    assert_eq!(a.addr(), 0x4000_0000);
    assert_eq!(a.byte_add(0x10).addr(), 0x4000_0010);
    assert_eq!(Mmio64::with_addr(8).byte_add(8).addr(), 16);
    assert_eq!(Mmio32Nullable::with_addr(0).addr(), 0);
    assert_eq!(Mmio64Nullable::with_addr(0).byte_add(3).addr(), 3);
}

#[test]
fn mmio_padded_sizes() {
    assert_eq!(<Mmio32 as Bus<u8>>::PADDED_SIZE, 1);
    assert_eq!(<Mmio32 as Bus<u16>>::PADDED_SIZE, 2);
    assert_eq!(<Mmio32 as Bus<u32>>::PADDED_SIZE, 4);
    assert_eq!(<Mmio32 as Bus<u64>>::PADDED_SIZE, 8);
    assert_eq!(<Mmio32 as Bus<usize>>::PADDED_SIZE, 4);
    assert_eq!(<Mmio64 as Bus<u128>>::PADDED_SIZE, 16);
    assert_eq!(<Mmio64 as Bus<usize>>::PADDED_SIZE, 8);
    assert_eq!(<Mmio32Nullable as Bus<usize>>::PADDED_SIZE, 4);
    assert_eq!(<Mmio64Nullable as Bus<usize>>::PADDED_SIZE, 8);
    assert_eq!(<Mmio64 as DataTypeBus<u32>>::PADDED_SIZE, 4);
    assert_eq!(<BorrowedBus<'static, Mmio64> as Bus<u16>>::PADDED_SIZE, 2);
}

#[test]
fn borrowed_bus() {
    let bus: BorrowedBus<'_, Mmio64> = BorrowedBus::new(Mmio64::with_addr(0x100));
    assert_eq!(bus.address().addr(), 0x100);
    assert_eq!(bus.byte_add(0x20).address().addr(), 0x120);
}

#[test]
fn register_array_elements() {
    let array = RealRegisterArray::<Reg<Mmio32>, Four>::new(Mmio32::with_addr(0x1000));
    assert_eq!(<RealRegisterArray<Reg<Mmio32>, Four> as Span>::SIZE, 16);
    assert_eq!(array.get(0).unwrap().0.addr(), 0x1000);
    assert_eq!(array.get(2).unwrap().0.addr(), 0x1008);
    assert_eq!(array.get_unchecked(3).0.addr(), 0x100c);
    assert!(array.get(4).is_none());
    assert!(array.get(usize::MAX).is_none());
    assert_eq!(array.element(1).0.addr(), 0x1004);
    assert!(array.element_checked(5).is_none());
}

#[test]
fn nested_register_arrays() {
    type Inner = RealRegisterArray<Reg<Mmio64>, Four>;
    let outer = RealRegisterArray::<Inner, Two>::new(Mmio64::with_addr(0x8000));
    assert_eq!(<RealRegisterArray<Inner, Two> as Span>::SIZE, 32);
    let inner = outer.get(1).unwrap();
    assert_eq!(inner.get(3).unwrap().0.addr(), 0x8000 + 16 + 12);
    let built = <RealRegisterArray<Inner, Two> as Span>::with_addr(Mmio64::with_addr(0x10));
    assert_eq!(built.get(0).unwrap().get(1).unwrap().0.addr(), 0x14);
}

#[test]
fn register_sender_moves_through_a_channel() {
    // A RegisterSender can be moved (it is `Send`); each borrow reaches the same registers.
    let (sender, receiver) = channel();
    let register_sender =
        RegisterSender::<RealRegisterArray<Reg<Mmio64>, Four>>::new(Mmio64::with_addr(0x2000));
    assert_eq!(register_sender.borrow().get(1).unwrap().0.address().addr(), 0x2004);
    sender.send(register_sender).unwrap();
    let register_sender: RegisterSender<RealRegisterArray<Reg<Mmio64>, Four>> =
        receiver.recv().unwrap();
    assert_eq!(register_sender.borrow().get(2).unwrap().0.address().addr(), 0x2008);
    assert!(register_sender.borrow().get(4).is_none());
}

#[test]
fn real_phantom() {
    let _a = RealPhantom::new();
    let _b: RealPhantom = Default::default();
}
