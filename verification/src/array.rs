//! Register arrays.

use crate::bus::{Address, BorrowedBus, Span, SpanBorrow, SpanBorrowLaws};
use crate::internal::RealPhantom;
use core::marker::PhantomData;
use vstd::prelude::*;

verus! {

/// An array of registers (or register blocks, or register arrays) of length `L::LEN`.
pub trait RegisterArray<L: Len>: Copy {
    /// The type of each element.
    type Element: Copy;

    /// `r` is a possible result of `get(index)`. (An implementation that says nothing more
    /// allows any element.)
    open spec fn element_returned(self, index: usize, r: Option<Self::Element>) -> bool {
        true
    }

    /// Every index below `L::LEN` has an element. (Real arrays do; a fake array does when its
    /// element function says so.)
    open spec fn has_every_element(self) -> bool {
        true
    }

    /// Returns the `index`-th element, or `None` if `index >= L::LEN`.
    fn get(self, index: usize) -> (r: Option<Self::Element>)
        ensures
            index >= L::LEN ==> r is None,
            self.has_every_element() && index < L::LEN ==> r is Some,
            self.element_returned(index, r),
    ;

    /// Returns the `index`-th element of the array, which must exist.
    fn get_unchecked(self, index: usize) -> (r: Self::Element)
        requires
            index < L::LEN,
            self.has_every_element(),
        ensures
            self.element_returned(index, Some(r)),
    {
        self.get(index).unwrap()
    }
}

/// The length of a register array. (A separate trait rather than an associated constant of
/// `RegisterArray`, so that each generated array bound is a distinct trait.)
pub trait Len {
    const LEN: usize;
}

/// Real implementation of `RegisterArray`: `L::LEN` consecutive `Element` spans starting at
/// `address`.
pub struct RealRegisterArray<Element: Span, L: Len> {
    address: Element::Address,
    _phantom: (RealPhantom, PhantomData<L>),
}

impl<Element: Span, L: Len> RealRegisterArray<Element, L> {
    /// The address of element `k` of an array at `address`: `k` element sizes further.
    pub open spec fn element_address(address: Element::Address, k: int) -> Element::Address {
        address.spec_byte_add((k * Element::SIZE) as usize)
    }

    /// The size of the whole array.
    pub open spec fn array_size() -> int {
        Element::SIZE * L::LEN
    }

    /// An array can be placed at `address`: its size is representable, it ends within the bus'
    /// address space, and each element can be placed where it sits.
    pub open spec fn spec_valid_at(address: Element::Address) -> bool {
        &&& Self::array_size() <= usize::MAX
        &&& address.position() + Self::array_size() <= Element::Address::bus_end()
        &&& forall|k: int|
            0 <= k < L::LEN ==> #[trigger] Element::valid_at(Self::element_address(address, k))
    }

    #[verifier::type_invariant]
    spec fn placed(self) -> bool {
        Self::spec_valid_at(self.address)
    }

    /// Constructs an accessor for the register array at `address`.
    pub fn new(address: Element::Address) -> (r: RealRegisterArray<Element, L>)
        requires
            Self::spec_valid_at(address),
        ensures
            r.base() == address,
    {
        RealRegisterArray { address, _phantom: (RealPhantom::new(), PhantomData) }
    }

    /// Returns the element at `index`, which lies `index` element sizes after the array's start.
    pub fn element(self, index: usize) -> (r: Element)
        requires
            index < L::LEN,
        ensures
            r.base() == Self::element_address(self.base(), index as int),
    {
        proof {
            use_type_invariant(&self);
            vstd::arithmetic::mul::lemma_mul_inequality(
                index as int,
                L::LEN as int - 1,
                Element::SIZE as int,
            );
            vstd::arithmetic::mul::lemma_mul_is_distributive_sub_other_way(
                Element::SIZE as int,
                L::LEN as int,
                1,
            );
            vstd::arithmetic::mul::lemma_mul_is_commutative(Element::SIZE as int, L::LEN as int);
            vstd::arithmetic::mul::lemma_mul_is_commutative(Element::SIZE as int, index as int);
            assert(Element::valid_at(Self::element_address(self.address, index as int)));
        }
        let offset = index * Element::SIZE;
        let address = self.address.byte_add(offset);
        Element::with_addr(address)
    }

    /// Returns the element at `index`, or `None` if `index >= L::LEN`.
    pub fn element_checked(self, index: usize) -> (r: Option<Element>)
        ensures
            r is Some <==> index < L::LEN,
            r matches Some(e) ==> e.base() == Self::element_address(self.base(), index as int),
    {
        if index >= L::LEN {
            return None;
        }
        Some(self.element(index))
    }
}

impl<Element: Span, L: Len> Clone for RealRegisterArray<Element, L> {
    fn clone(&self) -> (r: Self)
        ensures
            r == *self,
    {
        *self
    }
}

impl<Element: Span, L: Len> Copy for RealRegisterArray<Element, L> {

}

impl<Element: Span, L: Len> Span for RealRegisterArray<Element, L> {
    type Address = Element::Address;

    const SIZE: usize = Element::SIZE * L::LEN;

    open spec fn valid_at(address: Element::Address) -> bool {
        Self::spec_valid_at(address)
    }

    closed spec fn base(self) -> Element::Address {
        self.address
    }

    fn with_addr(address: Element::Address) -> (r: RealRegisterArray<Element, L>) {
        RealRegisterArray { address, _phantom: (RealPhantom::new(), PhantomData) }
    }
}

impl<Element: Span, L: Len> RegisterArray<L> for RealRegisterArray<Element, L> {
    type Element = Element;

    /// The element is the span `index` element sizes after the array's start.
    open spec fn element_returned(self, index: usize, r: Option<Element>) -> bool {
        r matches Some(e) ==> e.base() == Self::element_address(self.base(), index as int)
    }

    fn get(self, index: usize) -> (r: Option<Element>) {
        self.element_checked(index)
    }

    fn get_unchecked(self, index: usize) -> (r: Element) {
        self.element(index)
    }
}

impl<Element: SpanBorrow, L: Len> SpanBorrow for RealRegisterArray<Element, L> {
    type Borrowed<'b> = RealRegisterArray<Element::Borrowed<'b>, L>;
}

impl<Element: SpanBorrowLaws, L: Len> SpanBorrowLaws for RealRegisterArray<Element, L> {
    proof fn lemma_borrowed_size() {
        Element::lemma_borrowed_size();
    }

    proof fn lemma_borrowed_valid(address: Element::Address) {
        Element::lemma_borrowed_size();
        let wrapped = BorrowedBus::<'static, Element::Address>::wrap(address);
        BorrowedBus::<'static, Element::Address>::lemma_borrowed_position(address, 0);
        assert forall|k: int| 0 <= k < L::LEN implies #[trigger] <Element::Borrowed<
            'static,
        > as Span>::valid_at(
            RealRegisterArray::<Element::Borrowed<'static>, L>::element_address(wrapped, k),
        ) by {
            let off = (k * Element::SIZE) as usize;
            BorrowedBus::<'static, Element::Address>::lemma_borrowed_position(address, off);
            assert(Element::valid_at(Self::element_address(address, k)));
            Element::lemma_borrowed_valid(address.spec_byte_add(off));
        }
    }
}

/// Every element of an array lies within the array: element `k` starts `k` element sizes after
/// the array and ends no later than the array does.
pub proof fn law_elements_within_array<Element: Span, L: Len>(address: Element::Address, k: int)
    requires
        RealRegisterArray::<Element, L>::spec_valid_at(address),
        0 <= k < L::LEN,
    ensures
        k * Element::SIZE + Element::SIZE <= RealRegisterArray::<Element, L>::array_size(),
        address.position() + k * Element::SIZE + Element::SIZE <= Element::Address::bus_end(),
{
    vstd::arithmetic::mul::lemma_mul_inequality(k + 1, L::LEN as int, Element::SIZE as int);
    vstd::arithmetic::mul::lemma_mul_is_distributive_add_other_way(Element::SIZE as int, k, 1);
    vstd::arithmetic::mul::lemma_mul_is_commutative(Element::SIZE as int, L::LEN as int);
}

/// An array that can be placed somewhere has the size of its elements times its length (the
/// size constant does not wrap around).
pub proof fn law_array_size<Element: Span, L: Len>(address: Element::Address)
    requires
        RealRegisterArray::<Element, L>::spec_valid_at(address),
    ensures
        <RealRegisterArray<Element, L> as Span>::SIZE == Element::SIZE * L::LEN,
{
}

} // verus!
