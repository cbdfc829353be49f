use std::cell::Cell;
use tock_registers::fields::{Field, LocalRegisterCopy};
use tock_registers::{
    FakeRegister, FakeRegisterArray, Len, NoAccess, Read, ReadWrite, RegisterArray, Write,
};

struct Three;
impl Len for Three {
    const LEN: usize = 3;
}

#[derive(Default)]
struct Fake {
    single_counter: Cell<u8>,
    increments: [Cell<u8>; 3],
}

fn counter_array<'f>(
    f: &'f Fake,
) -> impl RegisterArray<Three, Element = impl Read<DataType = u8> + 'f> + 'f {
    FakeRegisterArray::<&Fake, _, Three, _>::new(f, |s, index| {
        if index >= 3 {
            return None;
        }
        Some(
            FakeRegister::<_, u8, NoAccess, NoAccess>::new((s, index as u8 + 1)).on_read(
                |(s, increment): (&Fake, u8)| {
                    let out = s.single_counter.get();
                    s.single_counter.set(out.wrapping_add(increment));
                    out
                },
            ),
        )
    })
}

// Reading element `i` of the counter array increments the shared counter by `i + 1`, wrapping
// modulo 256; the variable incrementers add their own `increment` register instead.
#[test]
fn counter() {
    let fake = Fake::default();
    let element = counter_array(&fake).get(0).unwrap();
    assert_eq!(element.get(), 0);
    assert_eq!(element.get(), 1);
    let element = counter_array(&fake).get(1).unwrap();
    assert_eq!(element.get(), 2);
    assert_eq!(element.get(), 4);
    let element = counter_array(&fake).get(2).unwrap();
    assert_eq!(element.get(), 6);
    assert_eq!(element.get(), 9);
    assert!(counter_array(&fake).get(3).is_none());
    assert_eq!(counter_array(&fake).get(0).unwrap().get(), 12);
    assert_eq!(counter_array(&fake).get(1).unwrap().get(), 13);
    assert_eq!(counter_array(&fake).get(2).unwrap().get(), 15);
    assert!(counter_array(&fake).get(3).is_none());
    assert_eq!(counter_array(&fake).get_unchecked(0).get(), 18);

    let increment = |i: usize| {
        FakeRegister::<_, u8, NoAccess, NoAccess>::new(&fake.increments[i])
            .on_read(|c: &Cell<u8>| c.get())
            .on_write(|c: &Cell<u8>, v: u8| c.set(v))
    };
    let incrementer = |i: usize| {
        FakeRegister::<_, u8, NoAccess, NoAccess>::new((&fake.single_counter, &fake.increments[i]))
            .on_read(|(counter, increment): (&Cell<u8>, &Cell<u8>)| {
                let out = counter.get();
                counter.set(out.wrapping_add(increment.get()));
                out
            })
    };
    increment(0).set(3);
    assert_eq!(incrementer(0).get(), 19);
    assert_eq!(incrementer(1).get(), 22);
    assert_eq!(incrementer(2).get(), 22);
    increment(1).set(4);
    assert_eq!(incrementer(0).get(), 22);
    assert_eq!(incrementer(1).get(), 25);
    assert_eq!(incrementer(2).get(), 29);
    assert_eq!(increment(1).get(), 4);
}

struct Status;
impl tock_registers::RegisterLongName for Status {}

#[test]
fn fake_register_bitfield_operations() {
    let hw = Cell::new(0b0010_0100u8);
    let reg = FakeRegister::<_, u8, NoAccess, NoAccess>::new(&hw)
        .on_read(|c: &Cell<u8>| c.get())
        .on_write(|c: &Cell<u8>, v: u8| c.set(v));
    let range: Field<u8, ()> = Field::new(0b11, 4);
    let en: Field<u8, ()> = Field::new(0b1, 3);
    assert_eq!(reg.read(range), 2);
    assert!(!reg.is_set(en));
    assert_eq!(reg.extract().get(), 0b0010_0100);
    // modify keeps the other fields.
    reg.modify(en.val(1));
    assert_eq!(hw.get(), 0b0010_1100);
    // write zeroes the other fields.
    reg.write(range.val(1));
    assert_eq!(hw.get(), 0b0001_0000);
    assert!(reg.matches_all(range.val(1)));
    assert!(reg.any_matching_bits_set(range.val(3)));
    assert!(reg.matches_any(&[en.val(1), range.val(1)]));
    assert!(!reg.matches_any(&[en.val(1), range.val(2)]));
    // modify_no_read works from the given copy, not from the register.
    let original: LocalRegisterCopy<u8, ()> = LocalRegisterCopy::new(0b1000_0000);
    reg.modify_no_read(original, en.val(1));
    assert_eq!(hw.get(), 0b1000_1000);
}

#[test]
fn on_read_keeps_writer_and_data() {
    let seen = Cell::new(0u8);
    let reg = FakeRegister::<_, u8, NoAccess, NoAccess>::new(&seen)
        .on_write(|c: &Cell<u8>, v: u8| c.set(v))
        .on_read(|_: &Cell<u8>| 0x5a);
    reg.set(7);
    assert_eq!(seen.get(), 7);
    assert_eq!(reg.get(), 0x5a);
    let copy = reg;
    assert_eq!(copy.get(), 0x5a);
}

#[test]
fn fake_register_default_has_default_data() {
    let reg: FakeRegister<u8, u8, NoAccess, NoAccess> = Default::default();
    let reg = reg.on_read(|d: u8| d.wrapping_add(1));
    assert_eq!(reg.get(), 1);
}

#[test]
fn read_debug_reads_once() {
    let f = Fake::default();
    f.single_counter.set(7);
    let reg = FakeRegister::<_, u8, NoAccess, NoAccess>::new(&f).on_read(|s: &Fake| {
        let out = s.single_counter.get();
        s.single_counter.set(out + 1);
        out
    });
    assert_eq!(reg.debug().data, 7);
    assert_eq!(f.single_counter.get(), 8);
}

#[test]
fn matches_any_reads_once() {
    let f = Fake::default();
    let reg = FakeRegister::<_, u8, NoAccess, NoAccess>::new(&f).on_read(|s: &Fake| {
        let out = s.single_counter.get();
        s.single_counter.set(out + 1);
        out
    });
    let low: Field<u8, ()> = Field::new(0b1, 0);
    let high: Field<u8, ()> = Field::new(0b1, 7);
    // The counter reads 0: neither field is set, and only one read is made for both fields.
    assert!(!reg.matches_any(&[low.val(1), high.val(1)]));
    assert_eq!(f.single_counter.get(), 1);
    // The next read gives 1, which the first field matches.
    assert!(reg.matches_any(&[high.val(1), low.val(1)]));
    assert_eq!(f.single_counter.get(), 2);
    assert!(!reg.matches_any(&[]));
    assert_eq!(f.single_counter.get(), 3);
}

#[test]
fn fake_array_with_holes() {
    let f = Fake::default();
    // Only the odd elements exist; every index from the length on has none.
    let array = FakeRegisterArray::<&Fake, _, Three, _>::new(&f, |s, index| {
        if index >= 3 || index % 2 == 0 {
            return None;
        }
        Some(FakeRegister::<_, u8, NoAccess, NoAccess>::new(s).on_read(|_: &Fake| 5))
    });
    assert!(array.get(0).is_none());
    assert_eq!(array.get(1).map(|r| r.get()), Some(5));
    assert!(array.get(2).is_none());
    assert!(array.get(3).is_none());
}
