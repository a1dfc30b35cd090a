use vcell::VolatileCell;

#[test]
fn new_cell_holds_initial_value() {
    let cell = VolatileCell::new(0x42u32);
    assert_eq!(cell.get(), 0x42);
}

#[test]
fn word_register_scenario() {
    let mut cell = VolatileCell::new(0x0000_0000u32);
    cell.set(0xDEADBEEF);
    assert_eq!(cell.get(), 0xDEADBEEF);
    cell.set(0);
    assert_eq!(cell.get(), 0);
}

#[test]
fn round_trip_u8() {
    let mut cell = VolatileCell::new(0u8);
    for v in 0..=255u8 {
        cell.set(v);
        assert_eq!(cell.get(), v);
    }
}

#[test]
fn round_trip_u16() {
    let mut cell = VolatileCell::new(0u16);
    cell.set(0xBEEF);
    assert_eq!(cell.get(), 0xBEEF);
}

#[test]
fn round_trip_i32() {
    let mut cell = VolatileCell::new(0i32);
    cell.set(-1);
    assert_eq!(cell.get(), -1);
    cell.set(i32::MIN);
    assert_eq!(cell.get(), i32::MIN);
    cell.set(i32::MAX);
    assert_eq!(cell.get(), i32::MAX);
}

#[test]
fn round_trip_u64() {
    let mut cell = VolatileCell::new(0u64);
    cell.set(u64::MAX);
    assert_eq!(cell.get(), u64::MAX);
}

#[test]
fn round_trip_bool() {
    let mut cell = VolatileCell::new(false);
    cell.set(true);
    assert!(cell.get());
    cell.set(false);
    assert!(!cell.get());
}

#[test]
fn round_trip_pair() {
    let mut cell = VolatileCell::new((0u8, 0u16));
    cell.set((7, 0x1234));
    assert_eq!(cell.get(), (7, 0x1234));
}

#[test]
fn interleaved_writes_and_reads_in_order() {
    let mut cell = VolatileCell::new(0u32);
    let values = [1u32, 0, 0xFFFF_FFFF, 0x8000_0000, 3];
    for &v in values.iter() {
        cell.set(v);
        assert_eq!(cell.get(), v);
        assert_eq!(cell.get(), v);
    }
}

#[test]
fn get_does_not_disturb_the_value() {
    let mut cell = VolatileCell::new(9u32);
    assert_eq!(cell.get(), 9);
    assert_eq!(cell.get(), 9);
    cell.set(10);
    assert_eq!(cell.get(), 10);
    assert_eq!(cell.get(), 10);
}
