//! Addresses and buses.
//!
//! Registers are reached over different kinds of buses (memory-mapped IO, LiteX buses, port IO).
//! The type of an address says which bus it belongs to and its value which register on that bus
//! it points to. An address type implements [`Address`], and [`Bus<T>`] for every value type `T`
//! the bus carries.

use crate::data_type::DataType;
use core::marker::PhantomData;
use std::rc::Rc;
use vstd::prelude::*;

verus! {

/// Addresses that can be offset without changing their type.
pub trait Address: Copy {
    /// The position this address points to in its bus' address space. (An implementation that
    /// does not give positions can only be offset by 0 in verified code.)
    open spec fn position(self) -> nat {
        0
    }

    /// The last position of the bus' address space.
    open spec fn bus_end() -> nat {
        0
    }

    /// The address `offset` bytes after this one.
    open spec fn spec_byte_add(self, offset: usize) -> Self {
        self
    }

    /// Returns the address `offset` bytes after this one. The result must not pass the end of
    /// the bus' address space (the address must not wrap around).
    fn byte_add(self, offset: usize) -> (r: Self)
        requires
            self.position() + offset <= Self::bus_end(),
        ensures
            r == self.spec_byte_add(offset),
            r.position() == self.position() + offset,
    ;
}

/// Address types implement `Bus<T>` for each value type `T` their bus carries.
pub trait Bus<T>: Address {
    /// The size a value of type `T` takes in this bus' address space (LiteX buses pad some
    /// types).
    const PADDED_SIZE: usize;
}

/// An accessor for a span of registers: a register, a register block or a register array.
pub trait Span: Copy {
    type Address: Address;

    /// The size the span occupies in the bus' address space.
    const SIZE: usize;

    /// The span can be placed at `address`: it, and every register in it, lies within the bus'
    /// address space. (An implementation that does not say where it can be placed cannot be
    /// constructed by verified code.)
    open spec fn valid_at(address: Self::Address) -> bool {
        false
    }

    /// The address the accessor points to.
    open spec fn base(self) -> Self::Address {
        arbitrary()
    }

    /// Constructs an accessor for the span at `address`.
    fn with_addr(address: Self::Address) -> (r: Self)
        requires
            Self::valid_at(address),
        ensures
            r.base() == address,
    ;
}

/// An alias for `Bus<D::Value>`, for a register data type `D`.
pub trait DataTypeBus<D: DataType>: Bus<D::Value> {
    /// The size a register of data type `D` takes on this bus.
    const PADDED_SIZE: usize = <Self as Bus<D::Value>>::PADDED_SIZE;
}

impl<D: DataType, T: Bus<D::Value>> DataTypeBus<D> for T {

}

/// An address whose use is tied to a borrow (lifetime `'b`). Returned through
/// `RegisterSender::borrow`.
pub struct BorrowedBus<'b, A: Address> {
    address: A,
    _phantom: PhantomData<&'b Rc<()>>,
}

impl<'b, A: Address> Clone for BorrowedBus<'b, A> {
    fn clone(&self) -> (r: Self)
        ensures
            r == *self,
    {
        *self
    }
}

impl<'b, A: Address> Copy for BorrowedBus<'b, A> {

}

impl<'b, A: Address> BorrowedBus<'b, A> {
    /// The borrowed bus pointing to `address`.
    pub closed spec fn wrap(address: A) -> Self {
        BorrowedBus { address, _phantom: PhantomData }
    }

    /// The address this bus points to.
    pub closed spec fn inner(self) -> A {
        self.address
    }

    /// Constructs a new `BorrowedBus`. Usually `RegisterSender` constructs them; this allows
    /// building other abstractions like it.
    pub fn new(address: A) -> (r: Self)
        ensures
            r == Self::wrap(address),
            r.inner() == address,
    {
        BorrowedBus { address, _phantom: PhantomData }
    }

    /// Returns this bus' address.
    pub fn address(self) -> (r: A)
        ensures
            r == self.inner(),
    {
        self.address
    }
}

impl<'b, A: Address> Address for BorrowedBus<'b, A> {
    closed spec fn position(self) -> nat {
        self.address.position()
    }

    open spec fn bus_end() -> nat {
        A::bus_end()
    }

    closed spec fn spec_byte_add(self, offset: usize) -> Self {
        BorrowedBus { address: self.address.spec_byte_add(offset), _phantom: PhantomData }
    }

    fn byte_add(self, offset: usize) -> (r: Self) {
        BorrowedBus { address: self.address.byte_add(offset), _phantom: PhantomData }
    }
}

impl<'b, T, A: Address + Bus<T>> Bus<T> for BorrowedBus<'b, A> {
    const PADDED_SIZE: usize = A::PADDED_SIZE;
}

impl<'b, A: Address> BorrowedBus<'b, A> {
    /// A borrowed bus sits where its address does, and moves with it.
    pub proof fn lemma_borrowed_position(address: A, offset: usize)
        ensures
            Self::wrap(address).position() == address.position(),
            Self::wrap(address).spec_byte_add(offset) == Self::wrap(address.spec_byte_add(offset)),
    {
    }
}

/// Span accessors that can be rebuilt over a [`BorrowedBus`]: the same registers, reached
/// through a borrow.
pub trait SpanBorrow: Span {
    /// This span with its bus wrapped in `BorrowedBus`.
    type Borrowed<'b>: Span<Address = BorrowedBus<'b, Self::Address>>;
}

/// Spans whose borrowed form is proved to be the same span.
pub trait SpanBorrowLaws: SpanBorrow {
    /// The borrowed span has the same size.
    proof fn lemma_borrowed_size()
        ensures
            <Self::Borrowed<'static> as Span>::SIZE == Self::SIZE,
    ;

    /// Where the span can be placed, the borrowed span can be placed over the borrowed address.
    proof fn lemma_borrowed_valid(address: Self::Address)
        requires
            Self::valid_at(address),
        ensures
            <Self::Borrowed<'static> as Span>::valid_at(
                BorrowedBus::<'static, Self::Address>::wrap(address),
            ),
    ;
}

/// `std::cell::Cell`, declared so that `RegisterSender` can carry it as a marker (a `Cell` is
/// `Send` but not `Sync`). It is opaque: nothing is claimed about it.
#[verifier::external_type_specification]
#[verifier::external_body]
#[verifier::reject_recursive_types(T)]
pub struct ExCell<T: ?Sized>(std::cell::Cell<T>);

/// Shares a register span between threads. A `RegisterSender` can be sent to another thread
/// (when its bus can), but not shared: only one thread at a time borrows the registers, through
/// [`borrow`](RegisterSender::borrow).
pub struct RegisterSender<R: SpanBorrow> where R::Address: Send {
    address: R::Address,
    _phantom: PhantomData<std::cell::Cell<()>>,
}

impl<R: SpanBorrow> RegisterSender<R> where R::Address: Send {
    #[verifier::type_invariant]
    spec fn span_fits(self) -> bool {
        <R::Borrowed<'static> as Span>::valid_at(
            BorrowedBus::<'static, R::Address>::wrap(self.address),
        )
    }

    /// The address of the shared span.
    pub closed spec fn base(self) -> R::Address {
        self.address
    }

    /// Constructs a sender for the register span at `address`.
    pub fn new(address: R::Address) -> (r: Self)
        requires
            <R::Borrowed<'static> as Span>::valid_at(
                BorrowedBus::<'static, R::Address>::wrap(address),
            ),
        ensures
            r.base() == address,
    {
        RegisterSender { address, _phantom: PhantomData }
    }

    /// Borrows the register span. The returned handle borrows this sender, so it must be dropped
    /// before the sender is sent to another thread.
    pub fn borrow(&self) -> (r: R::Borrowed<'_>)
        ensures
            r.base() == BorrowedBus::<'static, R::Address>::wrap(self.base()),
    {
        proof {
            use_type_invariant(self);
        }
        let borrowed_bus = BorrowedBus::new(self.address);
        R::Borrowed::with_addr(borrowed_bus)
    }
}

/// The padded size of a register data type on a bus is the padded size of its value type.
pub proof fn law_data_type_padded_size<D: DataType, T: Bus<D::Value>>()
    ensures
        <T as DataTypeBus<D>>::PADDED_SIZE == <T as Bus<D::Value>>::PADDED_SIZE,
{
}

/// A borrowed bus has the padded sizes of the bus it wraps.
pub proof fn law_borrowed_padded_size<'b, T, A: Address + Bus<T>>()
    ensures
        <BorrowedBus<'b, A> as Bus<T>>::PADDED_SIZE == <A as Bus<T>>::PADDED_SIZE,
{
}

} // verus!
