use tock_registers::fields::{Field, FieldValue, LocalRegisterCopy, TryFromValue};

// A bitfield description like the README's `Control` register:
// RANGE OFFSET(4) NUMBITS(2), EN OFFSET(3) NUMBITS(1), INT OFFSET(2) NUMBITS(1).
#[derive(Debug)]
struct Control;
impl tock_registers::RegisterLongName for Control {}

fn range() -> Field<u8, Control> {
    Field::new(0b11, 4)
}
fn en() -> Field<u8, Control> {
    Field::new(0b1, 3)
}
fn interrupt() -> Field<u8, Control> {
    Field::new(0b1, 2)
}

#[derive(Debug, PartialEq)]
enum Range {
    VeryHigh,
    High,
    Low,
}

impl TryFromValue<u8> for Range {
    type EnumType = Range;
    fn try_from_value(v: u8) -> Option<Range> {
        match v {
            0 => Some(Range::VeryHigh),
            1 => Some(Range::High),
            2 => Some(Range::Low),
            _ => None,
        }
    }
}

#[test]
fn field_read_and_is_set() {
    let val: u8 = 0b0010_0100;
    assert_eq!(range().read(val), 2);
    assert_eq!(en().read(val), 0);
    assert_eq!(interrupt().read(val), 1);
    assert!(interrupt().is_set(val));
    assert!(!en().is_set(val));
    assert!(range().is_set(val));
    assert_eq!(range().read_as_enum::<Range>(val), Some(Range::Low));
    assert_eq!(range().read_as_enum::<Range>(0b0011_0000), None);
}

#[test]
fn field_value_new_truncates_to_width() {
    let fv: FieldValue<u8, Control> = range().val(0b111);
    assert_eq!(fv.mask(), 0b0011_0000);
    assert_eq!(fv.value(), 0b0011_0000);
    let fv: FieldValue<u8, Control> = FieldValue::new(0b11, 4, 1);
    assert_eq!(fv.mask(), 0b0011_0000);
    assert_eq!(fv.value(), 0b0001_0000);
    assert_eq!(fv.read(range()), 1);
}

#[test]
fn modify_leaves_other_fields_unchanged() {
    // modify(RANGE.val(2)) leaves EN and INT unchanged.
    let original: u8 = 0b1101_1100;
    let new = range().val(2).modify(original);
    assert_eq!(new, 0b1110_1100);
    assert_eq!(range().read(new), 2);
    assert_eq!(en().read(new), en().read(original));
    assert_eq!(interrupt().read(new), interrupt().read(original));
}

#[test]
fn write_value_zeroes_other_fields() {
    // write(RANGE.val(1)) sets all other bits to zero.
    let fv = range().val(1);
    assert_eq!(fv.value(), 0b0001_0000);
    assert_eq!(fv.value() & !fv.mask(), 0);
}

#[test]
fn matching() {
    let val: u8 = 0b0000_1100; // EN and INT set, RANGE 0
    assert!(en().val(1).combine(range().val(0)).matches_all(val));
    assert!(!en().val(0).matches_all(val));
    assert!(en().val(1).combine(interrupt().val(1)).any_matching_bits_set(val));
    assert!(!range().val(3).any_matching_bits_set(val));
    let copy: LocalRegisterCopy<u8, Control> = LocalRegisterCopy::new(val);
    assert!(copy.matches_any(&[range().val(2), interrupt().val(1)]));
    assert!(!copy.matches_any(&[range().val(2), interrupt().val(0)]));
    assert!(!copy.matches_any(&[]));
}

#[test]
fn combine_disjoint_is_two_modifies() {
    let x: u8 = 0b1010_1010;
    let a = range().val(1);
    let b = en().val(0);
    assert_eq!(a.combine(b).modify(x), b.modify(a.modify(x)));
    assert_eq!(a.combine(b).mask(), 0b0011_1000);
    assert_eq!(a.combine(b).value(), 0b0001_0000);
}

#[test]
fn none_changes_nothing() {
    let none: FieldValue<u32, Control> = FieldValue::none();
    assert_eq!(none.mask(), 0);
    assert_eq!(none.value(), 0);
    assert_eq!(none.modify(0xdead_beef), 0xdead_beef);
}

#[test]
fn local_register_copy_operations() {
    let mut copy: LocalRegisterCopy<u8, Control> = LocalRegisterCopy::new(0);
    assert_eq!(copy.get(), 0);
    copy.modify(range().val(2).combine(en().val(1)));
    assert_eq!(copy.get(), 0b0010_1000);
    assert_eq!(copy.read(range()), 2);
    assert!(copy.is_set(en()));
    assert!(copy.matches_all(en().val(1)));
    assert!(copy.any_matching_bits_set(range().val(3)));
    assert_eq!(copy.read_as_enum::<Range>(range()), Some(Range::Low));
    assert_eq!(copy.bitand(0b0000_1111).get(), 0b0000_1000);
    copy.set(0xff);
    assert_eq!(copy.get(), 0xff);
}

#[test]
fn wide_types() {
    let f64: Field<u64, ()> = Field::new(0xffff, 48);
    assert_eq!(f64.read(0xabcd_0000_0000_0000), 0xabcd);
    let f128: Field<u128, ()> = Field::new(0xff, 120);
    assert_eq!(f128.val(0x12).value(), 0x12u128 << 120);
    let fs: Field<usize, ()> = Field::new(0b1, 0);
    assert!(fs.is_set(1));
    let f16: Field<u16, ()> = Field::new(0xf, 12);
    assert_eq!(f16.val(0x1f).modify(0x0fff), 0xffff);
    let f32: Field<u32, ()> = Field::new(0xff, 8);
    assert_eq!(f32.val(0xab).modify(0x1122_3344), 0x1122_ab44);
}

#[test]
fn modify_twice_is_modify_once() {
    let value = range().val(1).combine(en().val(1));
    for x in [0u8, 0xff, 0b1010_0101] {
        let once = value.modify(x);
        assert_eq!(value.modify(once), once);
    }
}

#[test]
fn local_copy_debug_holds_the_value() {
    let local: LocalRegisterCopy<u8, Control> = LocalRegisterCopy::new(0b0000_0100);
    assert_eq!(local.debug().data, 0b0000_0100);
    assert!(format!("{:?}", local.debug()).contains('4'));
}

#[test]
fn written_field_value_is_matched() {
    // What `write` stores is the field value's bits; `matches_all` holds of them.
    let value = range().val(2).combine(interrupt().val(1));
    let stored: LocalRegisterCopy<u8, Control> = LocalRegisterCopy::new(value.value());
    assert!(stored.matches_all(value));
}
