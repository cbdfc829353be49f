//! Bitfield descriptions (`Field`, `FieldValue`) and local copies of register values, together
//! with the integer types that registers hold.

use crate::debug::RegisterDebugValue;
use core::marker::PhantomData;
use vstd::prelude::*;

verus! {

/// The unsigned integer types a register can hold. Every operation that the bitfield code needs
/// is a method here, with its meaning given by the matching `spec_*` function, so that the
/// bitfield code can be proved once for all widths.
pub trait UIntLike: Copy {
    /// Width of the type in bits.
    spec fn bits() -> nat;

    spec fn spec_zero() -> Self;

    spec fn spec_bit_and(self, rhs: Self) -> Self;

    spec fn spec_bit_or(self, rhs: Self) -> Self;

    spec fn spec_bit_not(self) -> Self;

    spec fn spec_shift_left(self, n: usize) -> Self;

    spec fn spec_shift_right(self, n: usize) -> Self;

    /// The value with no bit set.
    fn zero() -> (r: Self)
        ensures
            r == Self::spec_zero(),
    ;

    fn bit_and(self, rhs: Self) -> (r: Self)
        ensures
            r == self.spec_bit_and(rhs),
    ;

    fn bit_or(self, rhs: Self) -> (r: Self)
        ensures
            r == self.spec_bit_or(rhs),
    ;

    fn bit_not(self) -> (r: Self)
        ensures
            r == self.spec_bit_not(),
    ;

    fn shift_left(self, n: usize) -> (r: Self)
        requires
            n < Self::bits(),
        ensures
            r == self.spec_shift_left(n),
    ;

    fn shift_right(self, n: usize) -> (r: Self)
        requires
            n < Self::bits(),
        ensures
            r == self.spec_shift_right(n),
    ;

    fn equals(self, rhs: Self) -> (r: bool)
        ensures
            r == (self == rhs),
    ;

    /// Bit identities about clearing a mask (`!mask`) and merging a value into it.
    proof fn lemma_masking(x: Self, mask: Self, value: Self, other: Self)
        ensures
            value.spec_bit_and(mask.spec_bit_not()) == Self::spec_zero() ==> x.spec_bit_and(
                mask.spec_bit_not(),
            ).spec_bit_or(value).spec_bit_and(mask.spec_bit_not()) == x.spec_bit_and(
                mask.spec_bit_not(),
            ),
            value.spec_bit_and(mask.spec_bit_not()) == Self::spec_zero() ==> x.spec_bit_and(
                mask.spec_bit_not(),
            ).spec_bit_or(value).spec_bit_and(mask) == value,
            value.spec_bit_and(mask.spec_bit_not()) == Self::spec_zero() && other.spec_bit_and(mask)
                == Self::spec_zero() ==> x.spec_bit_and(mask.spec_bit_not()).spec_bit_or(
                value,
            ).spec_bit_and(other) == x.spec_bit_and(other),
            Self::spec_zero().spec_bit_and(mask) == Self::spec_zero(),
            mask.spec_bit_and(other) == other.spec_bit_and(mask),
            Self::spec_zero().spec_bit_and(Self::spec_zero().spec_bit_not()) == Self::spec_zero(),
            x.spec_bit_and(Self::spec_zero().spec_bit_not()).spec_bit_or(Self::spec_zero()) == x,
            value.spec_bit_and(mask.spec_bit_not()) == Self::spec_zero() && other.spec_bit_and(
                x.spec_bit_not(),
            ) == Self::spec_zero() ==> value.spec_bit_or(other).spec_bit_and(
                mask.spec_bit_or(x).spec_bit_not(),
            ) == Self::spec_zero(),
            value.spec_bit_and(mask.spec_bit_not()) == Self::spec_zero() ==> value.spec_bit_and(
                mask,
            ) == value,
    ;

    /// Merging two values with disjoint masks at once is merging one after the other.
    proof fn lemma_disjoint_merge(y: Self, mask1: Self, value1: Self, mask2: Self, value2: Self)
        ensures
            value1.spec_bit_and(mask1.spec_bit_not()) == Self::spec_zero() && value2.spec_bit_and(
                mask2.spec_bit_not(),
            ) == Self::spec_zero() && mask1.spec_bit_and(mask2) == Self::spec_zero()
                ==> y.spec_bit_and(mask1.spec_bit_or(mask2).spec_bit_not()).spec_bit_or(
                value1.spec_bit_or(value2),
            ) == y.spec_bit_and(mask1.spec_bit_not()).spec_bit_or(value1).spec_bit_and(
                mask2.spec_bit_not(),
            ).spec_bit_or(value2),
    ;

    /// Bit identities about a value `v` placed by a shift into the field of width `mask`.
    proof fn lemma_shifted_field(mask: Self, shift: usize, v: Self)
        ensures
            shift < Self::bits() ==> v.spec_bit_and(mask).spec_shift_left(shift).spec_bit_and(
                mask.spec_shift_left(shift).spec_bit_not(),
            ) == Self::spec_zero(),
            shift < Self::bits() && mask.spec_shift_left(shift).spec_shift_right(shift) == mask
                ==> v.spec_bit_and(mask).spec_shift_left(shift).spec_shift_right(shift)
                == v.spec_bit_and(mask),
    ;
}

/// `x` with the bits of `mask` cleared.
pub open spec fn cleared<T: UIntLike>(x: T, mask: T) -> T {
    x.spec_bit_and(mask.spec_bit_not())
}

/// `x` with the bits of `mask` replaced by `value`.
pub open spec fn merged<T: UIntLike>(x: T, mask: T, value: T) -> T {
    cleared(x, mask).spec_bit_or(value)
}

/// No bit of `value` lies outside `mask`.
pub open spec fn is_within<T: UIntLike>(value: T, mask: T) -> bool {
    value.spec_bit_and(mask.spec_bit_not()) == T::spec_zero()
}

/// The in-register mask of a field of width `mask` placed at `shift`.
pub open spec fn field_mask<T: UIntLike>(mask: T, shift: usize) -> T {
    mask.spec_shift_left(shift)
}

/// The in-register bits of `v` written into a field of width `mask` placed at `shift`.
pub open spec fn shifted_value<T: UIntLike>(mask: T, shift: usize, v: T) -> T {
    v.spec_bit_and(mask).spec_shift_left(shift)
}

/// The field lies within the register: no bit of `mask` is shifted out.
pub open spec fn fits<T: UIntLike>(mask: T, shift: usize) -> bool {
    shift < T::bits() && mask.spec_shift_left(shift).spec_shift_right(shift) == mask
}

impl UIntLike for u8 {
    open spec fn bits() -> nat {
        8
    }

    open spec fn spec_zero() -> u8 {
        0
    }

    open spec fn spec_bit_and(self, rhs: u8) -> u8 {
        self & rhs
    }

    open spec fn spec_bit_or(self, rhs: u8) -> u8 {
        self | rhs
    }

    open spec fn spec_bit_not(self) -> u8 {
        !self
    }

    open spec fn spec_shift_left(self, n: usize) -> u8 {
        self << n
    }

    open spec fn spec_shift_right(self, n: usize) -> u8 {
        self >> n
    }

    fn zero() -> (r: u8) {
        0
    }

    fn bit_and(self, rhs: u8) -> (r: u8) {
        self & rhs
    }

    fn bit_or(self, rhs: u8) -> (r: u8) {
        self | rhs
    }

    fn bit_not(self) -> (r: u8) {
        !self
    }

    fn shift_left(self, n: usize) -> (r: u8) {
        self << n
    }

    fn shift_right(self, n: usize) -> (r: u8) {
        self >> n
    }

    fn equals(self, rhs: u8) -> (r: bool) {
        self == rhs
    }

    proof fn lemma_masking(x: u8, mask: u8, value: u8, other: u8) {
        assert({
            &&& (value & !mask == 0 ==> ((x & !mask) | value) & !mask == x & !mask)
            &&& (value & !mask == 0 ==> ((x & !mask) | value) & mask == value)
            &&& (value & !mask == 0 && other & mask == 0 ==> ((x & !mask) | value) & other == x
                & other)
            &&& 0 & mask == 0
            &&& mask & other == other & mask
            &&& (0 as u8) & !(0 as u8) == 0
            &&& (x & !(0 as u8)) | 0 == x
            &&& (value & !mask == 0 && other & !x == 0 ==> (value | other) & !(mask | x) == 0)
            &&& (value & !mask == 0 ==> value & mask == value)
        }) by (bit_vector);
    }

    proof fn lemma_disjoint_merge(y: u8, mask1: u8, value1: u8, mask2: u8, value2: u8) {
        assert(value1 & !mask1 == 0 && value2 & !mask2 == 0 && mask1 & mask2 == 0 ==> (y & !(mask1
            | mask2)) | (value1 | value2) == (((y & !mask1) | value1) & !mask2) | value2)
            by (bit_vector);
    }

    proof fn lemma_shifted_field(mask: u8, shift: usize, v: u8) {
        assert(shift < 8 ==> ((v & mask) << shift) & !(mask << shift) == 0) by (bit_vector);
        assert(shift < 8 && (mask << shift) >> shift == mask ==> ((v & mask) << shift) >> shift
            == v & mask) by (bit_vector);
    }
}

/// On `u8` registers, the bit operations and shifts that fields are built from are the
/// machine's (for shifts by less than the width).
pub proof fn law_u8_operations(x: u8, y: u8, n: usize)
    requires
        n < 8,
    ensures
        x.spec_shift_left(n) == x << n,
        x.spec_shift_right(n) == x >> n,
        x.spec_bit_and(y) == x & y,
        x.spec_bit_or(y) == x | y,
        x.spec_bit_not() == !x,
        u8::spec_zero() == 0,
{
}

/// A field of a `u8` register whose mask fits in the bits from its shift up lies within the
/// register, wherever it lies: it reads `(val >> shift) & mask`, it is set exactly when one of
/// its own bits is set in `val`, and a value `v` written to it becomes `(v & mask) << shift`
/// under the mask `mask << shift`.
pub proof fn law_u8_field<R: RegisterLongName>(field: Field<u8, R>, val: u8, v: u8)
    requires
        field.shift < 8,
        field.mask <= !(0 as u8) >> field.shift,
    ensures
        fits(field.mask, field.shift),
        field.spec_read(val) == (val >> field.shift) & field.mask,
        field.spec_is_set(val) == (val & (field.mask << field.shift) != 0),
        field.spec_is_set(val) == ((val >> field.shift) & field.mask != 0),
        field_mask(field.mask, field.shift) == field.mask << field.shift,
        shifted_value(field.mask, field.shift, v) == (v & field.mask) << field.shift,
{
    let mask = field.mask;
    let shift = field.shift;
    assert(shift < 8 && mask <= !(0 as u8) >> shift ==> (mask << shift) >> shift == mask)
        by (bit_vector);
    assert(shift < 8 && mask <= !(0 as u8) >> shift ==> (val & (mask << shift)) >> shift
        == (val >> shift) & mask) by (bit_vector);
    assert(shift < 8 && mask <= !(0 as u8) >> shift ==> ((val & (mask << shift) != 0) == ((
    val >> shift) & mask != 0))) by (bit_vector);
}

impl UIntLike for u16 {
    open spec fn bits() -> nat {
        16
    }

    open spec fn spec_zero() -> u16 {
        0
    }

    open spec fn spec_bit_and(self, rhs: u16) -> u16 {
        self & rhs
    }

    open spec fn spec_bit_or(self, rhs: u16) -> u16 {
        self | rhs
    }

    open spec fn spec_bit_not(self) -> u16 {
        !self
    }

    open spec fn spec_shift_left(self, n: usize) -> u16 {
        self << n
    }

    open spec fn spec_shift_right(self, n: usize) -> u16 {
        self >> n
    }

    fn zero() -> (r: u16) {
        0
    }

    fn bit_and(self, rhs: u16) -> (r: u16) {
        self & rhs
    }

    fn bit_or(self, rhs: u16) -> (r: u16) {
        self | rhs
    }

    fn bit_not(self) -> (r: u16) {
        !self
    }

    fn shift_left(self, n: usize) -> (r: u16) {
        self << n
    }

    fn shift_right(self, n: usize) -> (r: u16) {
        self >> n
    }

    fn equals(self, rhs: u16) -> (r: bool) {
        self == rhs
    }

    proof fn lemma_masking(x: u16, mask: u16, value: u16, other: u16) {
        assert({
            &&& (value & !mask == 0 ==> ((x & !mask) | value) & !mask == x & !mask)
            &&& (value & !mask == 0 ==> ((x & !mask) | value) & mask == value)
            &&& (value & !mask == 0 && other & mask == 0 ==> ((x & !mask) | value) & other == x
                & other)
            &&& 0 & mask == 0
            &&& mask & other == other & mask
            &&& (0 as u16) & !(0 as u16) == 0
            &&& (x & !(0 as u16)) | 0 == x
            &&& (value & !mask == 0 && other & !x == 0 ==> (value | other) & !(mask | x) == 0)
            &&& (value & !mask == 0 ==> value & mask == value)
        }) by (bit_vector);
    }

    proof fn lemma_disjoint_merge(y: u16, mask1: u16, value1: u16, mask2: u16, value2: u16) {
        assert(value1 & !mask1 == 0 && value2 & !mask2 == 0 && mask1 & mask2 == 0 ==> (y & !(mask1
            | mask2)) | (value1 | value2) == (((y & !mask1) | value1) & !mask2) | value2)
            by (bit_vector);
    }

    proof fn lemma_shifted_field(mask: u16, shift: usize, v: u16) {
        assert(shift < 16 ==> ((v & mask) << shift) & !(mask << shift) == 0) by (bit_vector);
        assert(shift < 16 && (mask << shift) >> shift == mask ==> ((v & mask) << shift) >> shift
            == v & mask) by (bit_vector);
    }
}

/// On `u16` registers, the bit operations and shifts that fields are built from are the
/// machine's (for shifts by less than the width).
pub proof fn law_u16_operations(x: u16, y: u16, n: usize)
    requires
        n < 16,
    ensures
        x.spec_shift_left(n) == x << n,
        x.spec_shift_right(n) == x >> n,
        x.spec_bit_and(y) == x & y,
        x.spec_bit_or(y) == x | y,
        x.spec_bit_not() == !x,
        u16::spec_zero() == 0,
{
}

/// A field of a `u16` register whose mask fits in the bits from its shift up lies within the
/// register, wherever it lies: it reads `(val >> shift) & mask`, it is set exactly when one of
/// its own bits is set in `val`, and a value `v` written to it becomes `(v & mask) << shift`
/// under the mask `mask << shift`.
pub proof fn law_u16_field<R: RegisterLongName>(field: Field<u16, R>, val: u16, v: u16)
    requires
        field.shift < 16,
        field.mask <= !(0 as u16) >> field.shift,
    ensures
        fits(field.mask, field.shift),
        field.spec_read(val) == (val >> field.shift) & field.mask,
        field.spec_is_set(val) == (val & (field.mask << field.shift) != 0),
        field.spec_is_set(val) == ((val >> field.shift) & field.mask != 0),
        field_mask(field.mask, field.shift) == field.mask << field.shift,
        shifted_value(field.mask, field.shift, v) == (v & field.mask) << field.shift,
{
    let mask = field.mask;
    let shift = field.shift;
    assert(shift < 16 && mask <= !(0 as u16) >> shift ==> (mask << shift) >> shift == mask)
        by (bit_vector);
    assert(shift < 16 && mask <= !(0 as u16) >> shift ==> (val & (mask << shift)) >> shift
        == (val >> shift) & mask) by (bit_vector);
    assert(shift < 16 && mask <= !(0 as u16) >> shift ==> ((val & (mask << shift) != 0) == ((
    val >> shift) & mask != 0))) by (bit_vector);
}

impl UIntLike for u32 {
    open spec fn bits() -> nat {
        32
    }

    open spec fn spec_zero() -> u32 {
        0
    }

    open spec fn spec_bit_and(self, rhs: u32) -> u32 {
        self & rhs
    }

    open spec fn spec_bit_or(self, rhs: u32) -> u32 {
        self | rhs
    }

    open spec fn spec_bit_not(self) -> u32 {
        !self
    }

    open spec fn spec_shift_left(self, n: usize) -> u32 {
        self << n
    }

    open spec fn spec_shift_right(self, n: usize) -> u32 {
        self >> n
    }

    fn zero() -> (r: u32) {
        0
    }

    fn bit_and(self, rhs: u32) -> (r: u32) {
        self & rhs
    }

    fn bit_or(self, rhs: u32) -> (r: u32) {
        self | rhs
    }

    fn bit_not(self) -> (r: u32) {
        !self
    }

    fn shift_left(self, n: usize) -> (r: u32) {
        self << n
    }

    fn shift_right(self, n: usize) -> (r: u32) {
        self >> n
    }

    fn equals(self, rhs: u32) -> (r: bool) {
        self == rhs
    }

    proof fn lemma_masking(x: u32, mask: u32, value: u32, other: u32) {
        assert({
            &&& (value & !mask == 0 ==> ((x & !mask) | value) & !mask == x & !mask)
            &&& (value & !mask == 0 ==> ((x & !mask) | value) & mask == value)
            &&& (value & !mask == 0 && other & mask == 0 ==> ((x & !mask) | value) & other == x
                & other)
            &&& 0 & mask == 0
            &&& mask & other == other & mask
            &&& (0 as u32) & !(0 as u32) == 0
            &&& (x & !(0 as u32)) | 0 == x
            &&& (value & !mask == 0 && other & !x == 0 ==> (value | other) & !(mask | x) == 0)
            &&& (value & !mask == 0 ==> value & mask == value)
        }) by (bit_vector);
    }

    proof fn lemma_disjoint_merge(y: u32, mask1: u32, value1: u32, mask2: u32, value2: u32) {
        assert(value1 & !mask1 == 0 && value2 & !mask2 == 0 && mask1 & mask2 == 0 ==> (y & !(mask1
            | mask2)) | (value1 | value2) == (((y & !mask1) | value1) & !mask2) | value2)
            by (bit_vector);
    }

    proof fn lemma_shifted_field(mask: u32, shift: usize, v: u32) {
        assert(shift < 32 ==> ((v & mask) << shift) & !(mask << shift) == 0) by (bit_vector);
        assert(shift < 32 && (mask << shift) >> shift == mask ==> ((v & mask) << shift) >> shift
            == v & mask) by (bit_vector);
    }
}

/// On `u32` registers, the bit operations and shifts that fields are built from are the
/// machine's (for shifts by less than the width).
pub proof fn law_u32_operations(x: u32, y: u32, n: usize)
    requires
        n < 32,
    ensures
        x.spec_shift_left(n) == x << n,
        x.spec_shift_right(n) == x >> n,
        x.spec_bit_and(y) == x & y,
        x.spec_bit_or(y) == x | y,
        x.spec_bit_not() == !x,
        u32::spec_zero() == 0,
{
}

/// A field of a `u32` register whose mask fits in the bits from its shift up lies within the
/// register, wherever it lies: it reads `(val >> shift) & mask`, it is set exactly when one of
/// its own bits is set in `val`, and a value `v` written to it becomes `(v & mask) << shift`
/// under the mask `mask << shift`.
pub proof fn law_u32_field<R: RegisterLongName>(field: Field<u32, R>, val: u32, v: u32)
    requires
        field.shift < 32,
        field.mask <= !(0 as u32) >> field.shift,
    ensures
        fits(field.mask, field.shift),
        field.spec_read(val) == (val >> field.shift) & field.mask,
        field.spec_is_set(val) == (val & (field.mask << field.shift) != 0),
        field.spec_is_set(val) == ((val >> field.shift) & field.mask != 0),
        field_mask(field.mask, field.shift) == field.mask << field.shift,
        shifted_value(field.mask, field.shift, v) == (v & field.mask) << field.shift,
{
    let mask = field.mask;
    let shift = field.shift;
    assert(shift < 32 && mask <= !(0 as u32) >> shift ==> (mask << shift) >> shift == mask)
        by (bit_vector);
    assert(shift < 32 && mask <= !(0 as u32) >> shift ==> (val & (mask << shift)) >> shift
        == (val >> shift) & mask) by (bit_vector);
    assert(shift < 32 && mask <= !(0 as u32) >> shift ==> ((val & (mask << shift) != 0) == ((
    val >> shift) & mask != 0))) by (bit_vector);
}

impl UIntLike for u64 {
    open spec fn bits() -> nat {
        64
    }

    open spec fn spec_zero() -> u64 {
        0
    }

    open spec fn spec_bit_and(self, rhs: u64) -> u64 {
        self & rhs
    }

    open spec fn spec_bit_or(self, rhs: u64) -> u64 {
        self | rhs
    }

    open spec fn spec_bit_not(self) -> u64 {
        !self
    }

    open spec fn spec_shift_left(self, n: usize) -> u64 {
        self << n
    }

    open spec fn spec_shift_right(self, n: usize) -> u64 {
        self >> n
    }

    fn zero() -> (r: u64) {
        0
    }

    fn bit_and(self, rhs: u64) -> (r: u64) {
        self & rhs
    }

    fn bit_or(self, rhs: u64) -> (r: u64) {
        self | rhs
    }

    fn bit_not(self) -> (r: u64) {
        !self
    }

    fn shift_left(self, n: usize) -> (r: u64) {
        self << n
    }

    fn shift_right(self, n: usize) -> (r: u64) {
        self >> n
    }

    fn equals(self, rhs: u64) -> (r: bool) {
        self == rhs
    }

    proof fn lemma_masking(x: u64, mask: u64, value: u64, other: u64) {
        assert({
            &&& (value & !mask == 0 ==> ((x & !mask) | value) & !mask == x & !mask)
            &&& (value & !mask == 0 ==> ((x & !mask) | value) & mask == value)
            &&& (value & !mask == 0 && other & mask == 0 ==> ((x & !mask) | value) & other == x
                & other)
            &&& 0 & mask == 0
            &&& mask & other == other & mask
            &&& (0 as u64) & !(0 as u64) == 0
            &&& (x & !(0 as u64)) | 0 == x
            &&& (value & !mask == 0 && other & !x == 0 ==> (value | other) & !(mask | x) == 0)
            &&& (value & !mask == 0 ==> value & mask == value)
        }) by (bit_vector);
    }

    proof fn lemma_disjoint_merge(y: u64, mask1: u64, value1: u64, mask2: u64, value2: u64) {
        assert(value1 & !mask1 == 0 && value2 & !mask2 == 0 && mask1 & mask2 == 0 ==> (y & !(mask1
            | mask2)) | (value1 | value2) == (((y & !mask1) | value1) & !mask2) | value2)
            by (bit_vector);
    }

    proof fn lemma_shifted_field(mask: u64, shift: usize, v: u64) {
        assert(shift < 64 ==> ((v & mask) << shift) & !(mask << shift) == 0) by (bit_vector);
        assert(shift < 64 && (mask << shift) >> shift == mask ==> ((v & mask) << shift) >> shift
            == v & mask) by (bit_vector);
    }
}

/// On `u64` registers, the bit operations and shifts that fields are built from are the
/// machine's (for shifts by less than the width).
pub proof fn law_u64_operations(x: u64, y: u64, n: usize)
    requires
        n < 64,
    ensures
        x.spec_shift_left(n) == x << n,
        x.spec_shift_right(n) == x >> n,
        x.spec_bit_and(y) == x & y,
        x.spec_bit_or(y) == x | y,
        x.spec_bit_not() == !x,
        u64::spec_zero() == 0,
{
}

/// A field of a `u64` register whose mask fits in the bits from its shift up lies within the
/// register, wherever it lies: it reads `(val >> shift) & mask`, it is set exactly when one of
/// its own bits is set in `val`, and a value `v` written to it becomes `(v & mask) << shift`
/// under the mask `mask << shift`.
pub proof fn law_u64_field<R: RegisterLongName>(field: Field<u64, R>, val: u64, v: u64)
    requires
        field.shift < 64,
        field.mask <= !(0 as u64) >> field.shift,
    ensures
        fits(field.mask, field.shift),
        field.spec_read(val) == (val >> field.shift) & field.mask,
        field.spec_is_set(val) == (val & (field.mask << field.shift) != 0),
        field.spec_is_set(val) == ((val >> field.shift) & field.mask != 0),
        field_mask(field.mask, field.shift) == field.mask << field.shift,
        shifted_value(field.mask, field.shift, v) == (v & field.mask) << field.shift,
{
    let mask = field.mask;
    let shift = field.shift;
    assert(shift < 64 && mask <= !(0 as u64) >> shift ==> (mask << shift) >> shift == mask)
        by (bit_vector);
    assert(shift < 64 && mask <= !(0 as u64) >> shift ==> (val & (mask << shift)) >> shift
        == (val >> shift) & mask) by (bit_vector);
    assert(shift < 64 && mask <= !(0 as u64) >> shift ==> ((val & (mask << shift) != 0) == ((
    val >> shift) & mask != 0))) by (bit_vector);
}

impl UIntLike for u128 {
    open spec fn bits() -> nat {
        128
    }

    open spec fn spec_zero() -> u128 {
        0
    }

    open spec fn spec_bit_and(self, rhs: u128) -> u128 {
        self & rhs
    }

    open spec fn spec_bit_or(self, rhs: u128) -> u128 {
        self | rhs
    }

    open spec fn spec_bit_not(self) -> u128 {
        !self
    }

    open spec fn spec_shift_left(self, n: usize) -> u128 {
        self << n
    }

    open spec fn spec_shift_right(self, n: usize) -> u128 {
        self >> n
    }

    fn zero() -> (r: u128) {
        0
    }

    fn bit_and(self, rhs: u128) -> (r: u128) {
        self & rhs
    }

    fn bit_or(self, rhs: u128) -> (r: u128) {
        self | rhs
    }

    fn bit_not(self) -> (r: u128) {
        !self
    }

    fn shift_left(self, n: usize) -> (r: u128) {
        self << n
    }

    fn shift_right(self, n: usize) -> (r: u128) {
        self >> n
    }

    fn equals(self, rhs: u128) -> (r: bool) {
        self == rhs
    }

    proof fn lemma_masking(x: u128, mask: u128, value: u128, other: u128) {
        assert({
            &&& (value & !mask == 0 ==> ((x & !mask) | value) & !mask == x & !mask)
            &&& (value & !mask == 0 ==> ((x & !mask) | value) & mask == value)
            &&& (value & !mask == 0 && other & mask == 0 ==> ((x & !mask) | value) & other == x
                & other)
            &&& 0 & mask == 0
            &&& mask & other == other & mask
            &&& (0 as u128) & !(0 as u128) == 0
            &&& (x & !(0 as u128)) | 0 == x
            &&& (value & !mask == 0 && other & !x == 0 ==> (value | other) & !(mask | x) == 0)
            &&& (value & !mask == 0 ==> value & mask == value)
        }) by (bit_vector);
    }

    proof fn lemma_disjoint_merge(y: u128, mask1: u128, value1: u128, mask2: u128, value2: u128) {
        assert(value1 & !mask1 == 0 && value2 & !mask2 == 0 && mask1 & mask2 == 0 ==> (y & !(mask1
            | mask2)) | (value1 | value2) == (((y & !mask1) | value1) & !mask2) | value2)
            by (bit_vector);
    }

    proof fn lemma_shifted_field(mask: u128, shift: usize, v: u128) {
        assert(shift < 128 ==> ((v & mask) << shift) & !(mask << shift) == 0) by (bit_vector);
        assert(shift < 128 && (mask << shift) >> shift == mask ==> ((v & mask) << shift) >> shift
            == v & mask) by (bit_vector);
    }
}

/// On `u128` registers, the bit operations and shifts that fields are built from are the
/// machine's (for shifts by less than the width).
pub proof fn law_u128_operations(x: u128, y: u128, n: usize)
    requires
        n < 128,
    ensures
        x.spec_shift_left(n) == x << n,
        x.spec_shift_right(n) == x >> n,
        x.spec_bit_and(y) == x & y,
        x.spec_bit_or(y) == x | y,
        x.spec_bit_not() == !x,
        u128::spec_zero() == 0,
{
}

/// A field of a `u128` register whose mask fits in the bits from its shift up lies within the
/// register, wherever it lies: it reads `(val >> shift) & mask`, it is set exactly when one of
/// its own bits is set in `val`, and a value `v` written to it becomes `(v & mask) << shift`
/// under the mask `mask << shift`.
#[verifier::rlimit(100)]
pub proof fn law_u128_field<R: RegisterLongName>(field: Field<u128, R>, val: u128, v: u128)
    requires
        field.shift < 128,
        field.mask <= !(0 as u128) >> field.shift,
    ensures
        fits(field.mask, field.shift),
        field.spec_read(val) == (val >> field.shift) & field.mask,
        field.spec_is_set(val) == (val & (field.mask << field.shift) != 0),
        field.spec_is_set(val) == ((val >> field.shift) & field.mask != 0),
        field_mask(field.mask, field.shift) == field.mask << field.shift,
        shifted_value(field.mask, field.shift, v) == (v & field.mask) << field.shift,
{
    let mask = field.mask;
    let shift = field.shift;
    assert(shift < 128 && mask <= !(0 as u128) >> shift ==> (mask << shift) >> shift == mask)
        by (bit_vector);
    assert(shift < 128 && mask <= !(0 as u128) >> shift ==> (val & (mask << shift)) >> shift
        == (val >> shift) & mask) by (bit_vector);
    assert(shift < 128 && mask <= !(0 as u128) >> shift ==> ((val & (mask << shift) != 0) == ((
    val >> shift) & mask != 0))) by (bit_vector);
}

impl UIntLike for usize {
    open spec fn bits() -> nat {
        usize::BITS as nat
    }

    open spec fn spec_zero() -> usize {
        0
    }

    open spec fn spec_bit_and(self, rhs: usize) -> usize {
        self & rhs
    }

    open spec fn spec_bit_or(self, rhs: usize) -> usize {
        self | rhs
    }

    open spec fn spec_bit_not(self) -> usize {
        !self
    }

    open spec fn spec_shift_left(self, n: usize) -> usize {
        self << n
    }

    open spec fn spec_shift_right(self, n: usize) -> usize {
        self >> n
    }

    fn zero() -> (r: usize) {
        0
    }

    fn bit_and(self, rhs: usize) -> (r: usize) {
        self & rhs
    }

    fn bit_or(self, rhs: usize) -> (r: usize) {
        self | rhs
    }

    fn bit_not(self) -> (r: usize) {
        !self
    }

    fn shift_left(self, n: usize) -> (r: usize) {
        self << n
    }

    fn shift_right(self, n: usize) -> (r: usize) {
        self >> n
    }

    fn equals(self, rhs: usize) -> (r: bool) {
        self == rhs
    }

    proof fn lemma_masking(x: usize, mask: usize, value: usize, other: usize) {
        assert({
            &&& (value & !mask == 0 ==> ((x & !mask) | value) & !mask == x & !mask)
            &&& (value & !mask == 0 ==> ((x & !mask) | value) & mask == value)
            &&& (value & !mask == 0 && other & mask == 0 ==> ((x & !mask) | value) & other == x
                & other)
            &&& 0 & mask == 0
            &&& mask & other == other & mask
            &&& (0 as usize) & !(0 as usize) == 0
            &&& (x & !(0 as usize)) | 0 == x
            &&& (value & !mask == 0 && other & !x == 0 ==> (value | other) & !(mask | x) == 0)
            &&& (value & !mask == 0 ==> value & mask == value)
        }) by (bit_vector);
    }

    proof fn lemma_disjoint_merge(y: usize, mask1: usize, value1: usize, mask2: usize, value2: usize) {
        assert(value1 & !mask1 == 0 && value2 & !mask2 == 0 && mask1 & mask2 == 0 ==> (y & !(mask1
            | mask2)) | (value1 | value2) == (((y & !mask1) | value1) & !mask2) | value2)
            by (bit_vector);
    }

    proof fn lemma_shifted_field(mask: usize, shift: usize, v: usize) {
        assert(shift < usize::BITS ==> ((v & mask) << shift) & !(mask << shift) == 0) by (bit_vector);
        assert(shift < usize::BITS && (mask << shift) >> shift == mask ==> ((v & mask) << shift) >> shift
            == v & mask) by (bit_vector);
    }
}

/// On `usize` registers, the bit operations and shifts that fields are built from are the
/// machine's (for shifts by less than the width).
pub proof fn law_usize_operations(x: usize, y: usize, n: usize)
    requires
        n < usize::BITS,
    ensures
        x.spec_shift_left(n) == x << n,
        x.spec_shift_right(n) == x >> n,
        x.spec_bit_and(y) == x & y,
        x.spec_bit_or(y) == x | y,
        x.spec_bit_not() == !x,
        usize::spec_zero() == 0,
{
}

/// A field of a `usize` register whose mask fits in the bits from its shift up lies within the
/// register, wherever it lies: it reads `(val >> shift) & mask`, it is set exactly when one of
/// its own bits is set in `val`, and a value `v` written to it becomes `(v & mask) << shift`
/// under the mask `mask << shift`.
pub proof fn law_usize_field<R: RegisterLongName>(field: Field<usize, R>, val: usize, v: usize)
    requires
        field.shift < usize::BITS,
        field.mask <= !(0 as usize) >> field.shift,
    ensures
        fits(field.mask, field.shift),
        field.spec_read(val) == (val >> field.shift) & field.mask,
        field.spec_is_set(val) == (val & (field.mask << field.shift) != 0),
        field.spec_is_set(val) == ((val >> field.shift) & field.mask != 0),
        field_mask(field.mask, field.shift) == field.mask << field.shift,
        shifted_value(field.mask, field.shift, v) == (v & field.mask) << field.shift,
{
    let mask = field.mask;
    let shift = field.shift;
    assert(shift < usize::BITS && mask <= !(0 as usize) >> shift ==> (mask << shift) >> shift == mask)
        by (bit_vector);
    assert(shift < usize::BITS && mask <= !(0 as usize) >> shift ==> (val & (mask << shift)) >> shift
        == (val >> shift) & mask) by (bit_vector);
    assert(shift < usize::BITS && mask <= !(0 as usize) >> shift ==> ((val & (mask << shift) != 0) == ((
    val >> shift) & mask != 0))) by (bit_vector);
}


/// Marker trait for the register descriptions that bitfields belong to. A `Field` or
/// `FieldValue` can only be used with registers of the same description.
pub trait RegisterLongName {

}

impl RegisterLongName for () {

}

/// Conversion from a field's raw value into a user enum (the `Value` enums of bitfield
/// descriptions).
pub trait TryFromValue<V>: Sized {
    type EnumType;

    /// The conversion follows `spec_try_from_value`. (Only implementations that state what they
    /// convert to say so.)
    open spec fn obeys_try_from_value() -> bool {
        false
    }

    /// The enum member that `v` stands for, if any.
    open spec fn spec_try_from_value(v: V) -> Option<Self::EnumType> {
        None
    }

    fn try_from_value(v: V) -> (r: Option<Self::EnumType>)
        ensures
            Self::obeys_try_from_value() ==> r == Self::spec_try_from_value(v),
    ;
}

/// A field of a register: `mask` gives its width (unshifted) and `shift` its position.
pub struct Field<T: UIntLike, R: RegisterLongName> {
    pub mask: T,
    pub shift: usize,
    pub associated_register: PhantomData<R>,
}

impl<T: UIntLike, R: RegisterLongName> Clone for Field<T, R> {
    fn clone(&self) -> (r: Self)
        ensures
            r == *self,
    {
        *self
    }
}

impl<T: UIntLike, R: RegisterLongName> Copy for Field<T, R> {

}

impl<T: UIntLike, R: RegisterLongName> Field<T, R> {
    /// A field `mask` wide placed at bit `shift`.
    pub fn new(mask: T, shift: usize) -> (r: Field<T, R>)
        ensures
            r.mask == mask,
            r.shift == shift,
    {
        Field { mask, shift, associated_register: PhantomData }
    }

    /// The field's bits in register value `val`, shifted down to bit 0.
    pub open spec fn spec_read(self, val: T) -> T {
        val.spec_bit_and(field_mask(self.mask, self.shift)).spec_shift_right(self.shift)
    }

    /// One or more of the field's bits are set in `val`.
    pub open spec fn spec_is_set(self, val: T) -> bool {
        val.spec_bit_and(field_mask(self.mask, self.shift)) != T::spec_zero()
    }

    /// Reads the value of this field out of register value `val`.
    pub fn read(self, val: T) -> (r: T)
        requires
            self.shift < T::bits(),
        ensures
            r == self.spec_read(val),
    {
        val.bit_and(self.mask.shift_left(self.shift)).shift_right(self.shift)
    }

    /// Checks whether one or more bits of this field are set in `val`.
    pub fn is_set(self, val: T) -> (r: bool)
        requires
            self.shift < T::bits(),
        ensures
            r == self.spec_is_set(val),
    {
        !val.bit_and(self.mask.shift_left(self.shift)).equals(T::zero())
    }

    /// Reads this field out of `val` as a member of enum `E`.
    pub fn read_as_enum<E: TryFromValue<T, EnumType = E>>(self, val: T) -> (r: Option<E>)
        requires
            self.shift < T::bits(),
        ensures
            E::obeys_try_from_value() ==> r == E::spec_try_from_value(self.spec_read(val)),
    {
        E::try_from_value(self.read(val))
    }

    /// The `FieldValue` that sets this field to `value` (truncated to the field's width).
    pub fn val(&self, value: T) -> (r: FieldValue<T, R>)
        requires
            self.shift < T::bits(),
        ensures
            r@ == (field_mask(self.mask, self.shift), shifted_value(self.mask, self.shift, value)),
    {
        FieldValue::new(self.mask, self.shift, value)
    }
}

/// Values for one or more fields: `mask` marks the bits they cover and `value` holds their bits.
/// No bit of `value` lies outside `mask`.
pub struct FieldValue<T: UIntLike, R: RegisterLongName> {
    mask: T,
    value: T,
    associated_register: PhantomData<R>,
}

impl<T: UIntLike, R: RegisterLongName> Clone for FieldValue<T, R> {
    fn clone(&self) -> (r: Self)
        ensures
            r == *self,
    {
        *self
    }
}

impl<T: UIntLike, R: RegisterLongName> Copy for FieldValue<T, R> {

}

impl<T: UIntLike, R: RegisterLongName> View for FieldValue<T, R> {
    /// The mask and the value.
    type V = (T, T);

    closed spec fn view(&self) -> (T, T) {
        (self.mask, self.value)
    }
}

impl<T: UIntLike, R: RegisterLongName> FieldValue<T, R> {
    #[verifier::type_invariant]
    spec fn value_within_mask(self) -> bool {
        is_within(self.value, self.mask)
    }

    /// `value` (truncated to width `mask`) written into the field of width `mask` at `shift`.
    pub fn new(mask: T, shift: usize, value: T) -> (r: FieldValue<T, R>)
        requires
            shift < T::bits(),
        ensures
            r@ == (field_mask(mask, shift), shifted_value(mask, shift, value)),
    {
        proof {
            T::lemma_shifted_field(mask, shift, value);
        }
        FieldValue {
            mask: mask.shift_left(shift),
            value: value.bit_and(mask).shift_left(shift),
            associated_register: PhantomData,
        }
    }

    /// The empty field value: it covers no bit.
    pub fn none() -> (r: FieldValue<T, R>)
        ensures
            r@ == (T::spec_zero(), T::spec_zero()),
    {
        proof {
            T::lemma_masking(T::spec_zero(), T::spec_zero(), T::spec_zero(), T::spec_zero());
        }
        FieldValue { mask: T::zero(), value: T::zero(), associated_register: PhantomData }
    }

    /// The bits covered by this field value.
    pub fn mask(&self) -> (r: T)
        ensures
            r == self@.0,
    {
        self.mask
    }

    /// The bits this field value writes; none lies outside the mask.
    pub fn value(&self) -> (r: T)
        ensures
            r == self@.1,
            is_within(r, self@.0),
    {
        proof {
            use_type_invariant(self);
        }
        self.value
    }

    /// Reads `field` out of the bits this field value writes.
    pub fn read(&self, field: Field<T, R>) -> (r: T)
        requires
            field.shift < T::bits(),
        ensures
            r == field.spec_read(self@.1),
    {
        field.read(self.value)
    }

    /// Register value `val` with the covered bits replaced by this field value's bits.
    pub fn modify(self, val: T) -> (r: T)
        ensures
            r == merged(val, self@.0, self@.1),
    {
        val.bit_and(self.mask.bit_not()).bit_or(self.value)
    }

    /// Checks whether any bit covered by this field value is set in `val`.
    pub fn any_matching_bits_set(&self, val: T) -> (r: bool)
        ensures
            r == (val.spec_bit_and(self@.0) != T::spec_zero()),
    {
        !val.bit_and(self.mask).equals(T::zero())
    }

    /// Checks whether the covered bits of `val` equal this field value's bits.
    pub fn matches_all(&self, val: T) -> (r: bool)
        ensures
            r == (val.spec_bit_and(self@.0) == self@.1),
    {
        val.bit_and(self.mask).equals(self.value)
    }

    /// The field values of `self` and `rhs` together (the `+` of field values).
    pub fn combine(self, rhs: FieldValue<T, R>) -> (r: FieldValue<T, R>)
        ensures
            r@ == (self@.0.spec_bit_or(rhs@.0), self@.1.spec_bit_or(rhs@.1)),
    {
        proof {
            use_type_invariant(&self);
            use_type_invariant(&rhs);
            T::lemma_masking(self.mask, self.mask, self.value, rhs.value);
            T::lemma_masking(rhs.mask, self.mask, self.value, rhs.value);
        }
        FieldValue {
            mask: self.mask.bit_or(rhs.mask),
            value: self.value.bit_or(rhs.value),
            associated_register: PhantomData,
        }
    }
}

/// A register value held in a local variable, with the bitfield operations of a register.
pub struct LocalRegisterCopy<T: UIntLike, R: RegisterLongName = ()> {
    value: T,
    associated_register: PhantomData<R>,
}

impl<T: UIntLike, R: RegisterLongName> Clone for LocalRegisterCopy<T, R> {
    fn clone(&self) -> (r: Self)
        ensures
            r == *self,
    {
        *self
    }
}

impl<T: UIntLike, R: RegisterLongName> Copy for LocalRegisterCopy<T, R> {

}

impl<T: UIntLike, R: RegisterLongName> View for LocalRegisterCopy<T, R> {
    type V = T;

    closed spec fn view(&self) -> T {
        self.value
    }
}

impl<T: UIntLike, R: RegisterLongName> LocalRegisterCopy<T, R> {
    pub fn new(value: T) -> (r: LocalRegisterCopy<T, R>)
        ensures
            r@ == value,
    {
        LocalRegisterCopy { value, associated_register: PhantomData }
    }

    /// The raw value.
    pub fn get(&self) -> (r: T)
        ensures
            r == self@,
    {
        self.value
    }

    /// The value tagged with the register's bitfield description, for printing with `Debug`.
    pub fn debug(&self) -> (r: RegisterDebugValue<T, R>)
        ensures
            r.data == self@,
    {
        RegisterDebugValue::new(self.value)
    }

    /// Replaces the raw value.
    pub fn set(&mut self, value: T)
        ensures
            final(self)@ == value,
    {
        self.value = value;
    }

    /// Reads the value of `field`.
    pub fn read(&self, field: Field<T, R>) -> (r: T)
        requires
            field.shift < T::bits(),
        ensures
            r == field.spec_read(self@),
    {
        field.read(self.value)
    }

    /// Reads the value of `field` as a member of enum `E`.
    pub fn read_as_enum<E: TryFromValue<T, EnumType = E>>(&self, field: Field<T, R>) -> (r: Option<
        E,
    >)
        requires
            field.shift < T::bits(),
        ensures
            E::obeys_try_from_value() ==> r == E::spec_try_from_value(field.spec_read(self@)),
    {
        field.read_as_enum(self.value)
    }

    /// Checks whether one or more bits of `field` are set.
    pub fn is_set(&self, field: Field<T, R>) -> (r: bool)
        requires
            field.shift < T::bits(),
        ensures
            r == field.spec_is_set(self@),
    {
        field.is_set(self.value)
    }

    /// Writes the value of one or more fields, leaving the other fields unchanged.
    pub fn modify(&mut self, field: FieldValue<T, R>)
        ensures
            final(self)@ == merged(old(self)@, field@.0, field@.1),
    {
        self.value = field.modify(self.value);
    }

    /// Checks whether any bit covered by `field` is set.
    pub fn any_matching_bits_set(&self, field: FieldValue<T, R>) -> (r: bool)
        ensures
            r == (self@.spec_bit_and(field@.0) != T::spec_zero()),
    {
        field.any_matching_bits_set(self.value)
    }

    /// Checks whether all the fields `field` covers hold its values.
    pub fn matches_all(&self, field: FieldValue<T, R>) -> (r: bool)
        ensures
            r == (self@.spec_bit_and(field@.0) == field@.1),
    {
        field.matches_all(self.value)
    }

    /// Checks whether the fields covered by one of `fields` hold all of its values.
    pub fn matches_any(&self, fields: &[FieldValue<T, R>]) -> (r: bool)
        ensures
            r == exists|i: int|
                0 <= i < fields@.len() && #[trigger] self@.spec_bit_and(fields@[i]@.0)
                    == fields@[i]@.1,
    {
        let mut i: usize = 0;
        while i < fields.len()
            invariant
                0 <= i <= fields@.len(),
                forall|j: int| 0 <= j < i ==> #[trigger] self@.spec_bit_and(fields@[j]@.0) != fields@[j]@.1,
            decreases fields@.len() - i,
        {
            if fields[i].matches_all(self.value) {
                assert(self@.spec_bit_and(fields@[i as int]@.0) == fields@[i as int]@.1);
                return true;
            }
            i = i + 1;
        }
        false
    }

    /// This value masked by `rhs`.
    pub fn bitand(&self, rhs: T) -> (r: LocalRegisterCopy<T, R>)
        ensures
            r@ == self@.spec_bit_and(rhs),
    {
        LocalRegisterCopy::new(self.value.bit_and(rhs))
    }
}


/// Writing a field value with `modify` gives the covered bits exactly the field value's bits (so
/// `matches_all` with that field value holds afterwards).
pub proof fn law_modify_sets_covered_bits<T: UIntLike>(x: T, mask: T, value: T)
    requires
        is_within(value, mask),
    ensures
        merged(x, mask, value).spec_bit_and(mask) == value,
{
    T::lemma_masking(x, mask, value, T::spec_zero());
}

/// What `write` stores for a field value is matched by that field value: a register that
/// gives back what was written then `matches_all` the field value written.
pub proof fn law_matches_all_after_write<T: UIntLike>(mask: T, value: T)
    requires
        is_within(value, mask),
    ensures
        value.spec_bit_and(mask) == value,
{
    T::lemma_masking(T::spec_zero(), mask, value, T::spec_zero());
}

/// `modify` leaves every bit outside the field value's mask unchanged.
pub proof fn law_modify_keeps_other_bits<T: UIntLike>(x: T, mask: T, value: T)
    requires
        is_within(value, mask),
    ensures
        cleared(merged(x, mask, value), mask) == cleared(x, mask),
{
    T::lemma_masking(x, mask, value, T::spec_zero());
}

/// A field read back after `modify` with `field.val(v)` gives `v`, truncated to the field's
/// width, provided the field lies within the register.
pub proof fn law_read_after_modify<T: UIntLike, R: RegisterLongName>(
    field: Field<T, R>,
    x: T,
    v: T,
)
    requires
        fits(field.mask, field.shift),
    ensures
        field.spec_read(
            merged(
                x,
                field_mask(field.mask, field.shift),
                shifted_value(field.mask, field.shift, v),
            ),
        ) == v.spec_bit_and(field.mask),
{
    let fm = field_mask(field.mask, field.shift);
    let sv = shifted_value(field.mask, field.shift, v);
    T::lemma_shifted_field(field.mask, field.shift, v);
    T::lemma_masking(x, fm, sv, T::spec_zero());
}

/// Setting one field with `modify` does not change what another field, disjoint from it, reads.
pub proof fn law_modify_keeps_other_fields<T: UIntLike, R: RegisterLongName>(
    field: Field<T, R>,
    other: Field<T, R>,
    x: T,
    v: T,
)
    requires
        field.shift < T::bits(),
        field_mask(field.mask, field.shift).spec_bit_and(field_mask(other.mask, other.shift))
            == T::spec_zero(),
    ensures
        other.spec_read(
            merged(
                x,
                field_mask(field.mask, field.shift),
                shifted_value(field.mask, field.shift, v),
            ),
        ) == other.spec_read(x),
{
    let fm = field_mask(field.mask, field.shift);
    let om = field_mask(other.mask, other.shift);
    let sv = shifted_value(field.mask, field.shift, v);
    T::lemma_shifted_field(field.mask, field.shift, v);
    T::lemma_masking(x, fm, sv, om);
}

/// Writing the same field value twice with `modify` is the same as writing it once.
pub proof fn law_modify_idempotent<T: UIntLike>(x: T, mask: T, value: T)
    requires
        is_within(value, mask),
    ensures
        merged(merged(x, mask, value), mask, value) == merged(x, mask, value),
{
    T::lemma_masking(x, mask, value, T::spec_zero());
}

/// The empty field value leaves every register value unchanged.
pub proof fn law_none_modifies_nothing<T: UIntLike>(x: T)
    ensures
        merged(x, T::spec_zero(), T::spec_zero()) == x,
{
    T::lemma_masking(x, T::spec_zero(), T::spec_zero(), T::spec_zero());
}

/// Combining two field values with disjoint masks and writing them with one `modify` is the same
/// as writing them with two.
pub proof fn law_combined_modify<T: UIntLike>(x: T, mask1: T, value1: T, mask2: T, value2: T)
    requires
        is_within(value1, mask1),
        is_within(value2, mask2),
        mask1.spec_bit_and(mask2) == T::spec_zero(),
    ensures
        merged(x, mask1.spec_bit_or(mask2), value1.spec_bit_or(value2)) == merged(
            merged(x, mask1, value1),
            mask2,
            value2,
        ),
        is_within(value1.spec_bit_or(value2), mask1.spec_bit_or(mask2)),
{
    T::lemma_disjoint_merge(x, mask1, value1, mask2, value2);
    T::lemma_masking(mask2, mask1, value1, value2);
}

} // verus!
