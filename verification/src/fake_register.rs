//! Fake registers and register arrays for unit tests.
//!
//! A fake register is built with the builder pattern: `FakeRegister::new(data)` supports no
//! operation; `on_read` and `on_write` give it a read or a write function, each called with
//! `data` when the register is read or written. Code under test takes a register `Interface`
//! and the test passes a fake in place of the real hardware.

use crate::array::{Len, RegisterArray};
use crate::data_type::{DataType, Register};
use crate::read::Read;
use crate::write::Write;
use core::marker::PhantomData;
use vstd::prelude::*;

verus! {

/// Whether a fake register provides an operation: `NoAccess` or `Safe` (a function taking
/// `Args` and returning `Output`).
pub trait Access<Args, Output>: Copy {
    /// The operation can be performed with any arguments.
    spec fn callable(&self) -> bool;
}

/// The fake register does not provide the operation.
pub struct NoAccess;

impl Clone for NoAccess {
    fn clone(&self) -> (r: Self)
        ensures
            r == *self,
    {
        NoAccess
    }
}

impl Copy for NoAccess {

}

impl<Args, Output> Access<Args, Output> for NoAccess {
    open spec fn callable(&self) -> bool {
        true
    }
}

/// The fake register provides the operation by calling the function it holds.
pub struct Safe<F>(pub F);

impl<F: Copy> Clone for Safe<F> {
    fn clone(&self) -> (r: Self)
        ensures
            r == *self,
    {
        *self
    }
}

impl<F: Copy> Copy for Safe<F> {

}

impl<Data, V, F: Fn(Data) -> V + Copy> Access<(Data,), V> for Safe<F> {
    open spec fn callable(&self) -> bool {
        forall|data: Data| self.0.requires((data,))
    }
}

impl<Data, V, F: Fn(Data, V) + Copy> Access<(Data, V), ()> for Safe<F> {
    open spec fn callable(&self) -> bool {
        forall|data: Data, value: V| self.0.requires((data, value))
    }
}

/// A fake register, for unit tests. `data` is passed to its read and write functions (typically
/// a reference to the simulated hardware's state, or `()`).
pub struct FakeRegister<
    Data: Copy,
    DT: DataType,
    R: Access<(Data,), DT::Value>,
    W: Access<(Data, DT::Value), ()>,
> {
    data: Data,
    read: R,
    write: W,
    _phantom: PhantomData<DT>,
}

impl<
    Data: Copy,
    DT: DataType,
    R: Access<(Data,), DT::Value>,
    W: Access<(Data, DT::Value), ()>,
> FakeRegister<Data, DT, R, W> {
    #[verifier::type_invariant]
    spec fn operations_callable(self) -> bool {
        self.read.callable() && self.write.callable()
    }

    /// The data passed to the read and write functions.
    pub closed spec fn data(self) -> Data {
        self.data
    }

    /// The read access: `NoAccess`, or `Safe` with the read function.
    pub closed spec fn reader(self) -> R {
        self.read
    }

    /// The write access: `NoAccess`, or `Safe` with the write function.
    pub closed spec fn writer(self) -> W {
        self.write
    }

    /// Returns a new fake register that is read by calling `fcn` with the data.
    pub fn on_read<F: Fn(Data) -> DT::Value + Copy>(self, fcn: F) -> (r: FakeRegister<
        Data,
        DT,
        Safe<F>,
        W,
    >)
        requires
            forall|data: Data| fcn.requires((data,)),
        ensures
            r.data() == self.data(),
            r.reader() == Safe(fcn),
            r.writer() == self.writer(),
    {
        proof {
            use_type_invariant(&self);
        }
        FakeRegister { data: self.data, read: Safe(fcn), write: self.write, _phantom: PhantomData }
    }

    /// Returns a new fake register that is written by calling `fcn` with the data and the
    /// value.
    pub fn on_write<F: Fn(Data, DT::Value) + Copy>(self, fcn: F) -> (r: FakeRegister<
        Data,
        DT,
        R,
        Safe<F>,
    >)
        requires
            forall|data: Data, value: DT::Value| fcn.requires((data, value)),
        ensures
            r.data() == self.data(),
            r.reader() == self.reader(),
            r.writer() == Safe(fcn),
    {
        proof {
            use_type_invariant(&self);
        }
        FakeRegister { data: self.data, read: self.read, write: Safe(fcn), _phantom: PhantomData }
    }
}

/// A fake register is determined by its data, its read access and its write access. So
/// `on_read` and `on_write` give the same register whichever of them is called first, and
/// calling either again with the same function changes nothing.
pub proof fn law_fake_register_determined<
    Data: Copy,
    DT: DataType,
    R: Access<(Data,), DT::Value>,
    W: Access<(Data, DT::Value), ()>,
>(a: FakeRegister<Data, DT, R, W>, b: FakeRegister<Data, DT, R, W>)
    requires
        a.data() == b.data(),
        a.reader() == b.reader(),
        a.writer() == b.writer(),
    ensures
        a == b,
{
}

impl<Data: Copy, DT: DataType> FakeRegister<Data, DT, NoAccess, NoAccess> {
    /// A fake register with no operation, whose functions will be given `data`.
    pub fn new(data: Data) -> (r: Self)
        ensures
            r.data() == data,
            r.reader() == NoAccess,
            r.writer() == NoAccess,
    {
        FakeRegister { data, read: NoAccess, write: NoAccess, _phantom: PhantomData }
    }
}

impl<Data: Copy + Default, DT: DataType> Default for FakeRegister<Data, DT, NoAccess, NoAccess> {
    fn default() -> (r: Self)
        ensures
            r.reader() == NoAccess && r.writer() == NoAccess,
    {
        Self::new(Data::default())
    }
}

impl<
    Data: Copy,
    DT: DataType,
    R: Access<(Data,), DT::Value>,
    W: Access<(Data, DT::Value), ()>,
> Clone for FakeRegister<Data, DT, R, W> {
    fn clone(&self) -> (r: Self)
        ensures
            r == *self,
    {
        *self
    }
}

impl<
    Data: Copy,
    DT: DataType,
    R: Access<(Data,), DT::Value>,
    W: Access<(Data, DT::Value), ()>,
> Copy for FakeRegister<Data, DT, R, W> {

}

impl<
    Data: Copy,
    DT: DataType,
    R: Access<(Data,), DT::Value>,
    W: Access<(Data, DT::Value), ()>,
> Register for FakeRegister<Data, DT, R, W> {
    type DataType = DT;
}

impl<
    Data: Copy,
    DT: DataType,
    F: Fn(Data) -> DT::Value + Copy,
    W: Access<(Data, DT::Value), ()>,
> Read for FakeRegister<Data, DT, Safe<F>, W> {
    open spec fn get_returns(self, value: DT::Value) -> bool {
        self.reader().0.ensures((self.data(),), value)
    }

    fn get(self) -> (r: DT::Value) {
        proof {
            use_type_invariant(&self);
        }
        (self.read.0)(self.data)
    }
}

impl<
    Data: Copy,
    DT: DataType,
    R: Access<(Data,), DT::Value>,
    F: Fn(Data, DT::Value) + Copy,
> Write for FakeRegister<Data, DT, R, Safe<F>> {
    open spec fn set_performed(self, value: DT::Value) -> bool {
        self.writer().0.ensures((self.data(), value), ())
    }

    fn set(self, value: DT::Value) {
        proof {
            use_type_invariant(&self);
        }
        (self.write.0)(self.data, value)
    }
}

/// A fake register array, for unit tests. Indexing it calls its `get` function with the data and
/// the index. The element type can be anything, including fake register blocks.
#[verifier::reject_recursive_types(Data)]
#[verifier::reject_recursive_types(Element)]
pub struct FakeRegisterArray<Data: Copy, Element: Copy, L: Len, G: Fn(Data, usize) -> Option<
    Element,
> + Copy> {
    data: Data,
    get: G,
    _phantom: PhantomData<(Element, L)>,
}

/// The element function `get` can be called with any data and index, and returns `None` for every
/// index from `len` on.
pub open spec fn indexes_within<Data, Element, G: Fn(Data, usize) -> Option<Element>>(
    get: G,
    len: usize,
) -> bool {
    &&& forall|data: Data, index: usize| get.requires((data, index))
    &&& forall|data: Data, index: usize, r: Option<Element>|
        #[trigger] get.ensures((data, index), r) && index >= len ==> r is None
}

impl<Data: Copy, Element: Copy, L: Len, G: Fn(Data, usize) -> Option<Element> + Copy> FakeRegisterArray<
    Data,
    Element,
    L,
    G,
> {
    #[verifier::type_invariant]
    spec fn get_within(self) -> bool {
        indexes_within(self.get, L::LEN)
    }

    /// The data passed to the element function.
    pub closed spec fn data(self) -> Data {
        self.data
    }

    /// The element function.
    pub closed spec fn getter(self) -> G {
        self.get
    }

    /// A fake register array whose elements are given by `get_fcn`, which `get` calls with
    /// `data` and the index and whose result it returns unchanged: the array adds no bounds check
    /// of its own, since most element functions index a Rust array anyway. `get_fcn` must return
    /// `None` for every index `>= L::LEN`.
    pub fn new(data: Data, get_fcn: G) -> (r: Self)
        requires
            indexes_within(get_fcn, L::LEN),
        ensures
            r.data() == data,
            r.getter() == get_fcn,
    {
        FakeRegisterArray { data, get: get_fcn, _phantom: PhantomData }
    }
}

impl<Data: Copy, Element: Copy, L: Len, G: Fn(Data, usize) -> Option<Element> + Copy> Clone for FakeRegisterArray<
    Data,
    Element,
    L,
    G,
> {
    fn clone(&self) -> (r: Self)
        ensures
            r == *self,
    {
        *self
    }
}

impl<Data: Copy, Element: Copy, L: Len, G: Fn(Data, usize) -> Option<Element> + Copy> Copy for FakeRegisterArray<
    Data,
    Element,
    L,
    G,
> {

}

impl<
    Data: Copy,
    Element: Copy,
    L: Len,
    G: Fn(Data, usize) -> Option<Element> + Copy,
> RegisterArray<L> for FakeRegisterArray<Data, Element, L, G> {
    type Element = Element;

    /// The element function returns an element for every index below the length.
    open spec fn has_every_element(self) -> bool {
        forall|index: usize, r: Option<Element>|
            #[trigger] self.getter().ensures((self.data(), index), r) && index < L::LEN ==> r is Some
    }

    /// The element is what the element function returns for the data and the index.
    open spec fn element_returned(self, index: usize, r: Option<Element>) -> bool {
        self.getter().ensures((self.data(), index), r)
    }

    fn get(self, index: usize) -> (r: Option<Element>) {
        proof {
            use_type_invariant(&self);
        }
        let r = (self.get)(self.data, index);
        assert(self.getter().ensures((self.data(), index), r));
        r
    }
}

} // verus!
