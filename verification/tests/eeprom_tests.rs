use avr_hal_core::descriptor::{AddrWidth, EepromDesc};
use avr_hal_core::eeprom::{Eeprom, OutOfBoundsError, ERASED_BYTE};

fn small_bank() -> Eeprom {
    Eeprom::new(EepromDesc { capacity: 64, addr_width: AddrWidth::Width8 })
}

#[test]
fn fresh_bank_reads_erased() {
    let mut e = small_bank();
    assert_eq!(e.capacity(), 64);
    assert_eq!(e.read_byte(0), Ok(ERASED_BYTE));
    assert_eq!(e.read_byte(63), Ok(0xff));
}

#[test]
fn write_then_read_returns_value() {
    let mut e = small_bank();
    assert_eq!(e.write_byte(17, 0xa5), Ok(()));
    assert_eq!(e.read_byte(17), Ok(0xa5));
    assert_eq!(e.read_byte(16), Ok(ERASED_BYTE));
    assert_eq!(e.read_byte(18), Ok(ERASED_BYTE));
}

#[test]
fn out_of_bounds_touches_nothing() {
    let mut e = small_bank();
    assert_eq!(e.write_byte(3, 7), Ok(()));
    let addr_reg_before = e.addr_reg;
    assert_eq!(e.write_byte(64, 1), Err(OutOfBoundsError));
    assert_eq!(e.read_byte(64), Err(OutOfBoundsError));
    assert_eq!(e.write_byte(1000, 1), Err(OutOfBoundsError));
    assert_eq!(e.addr_reg, addr_reg_before);
    assert_eq!(e.read_byte(3), Ok(7));
}

#[test]
fn boundary_address_is_exact() {
    let mut e = small_bank();
    assert_eq!(e.write_byte(63, 1), Ok(()));
    assert_eq!(e.read_byte(63), Ok(1));
    assert_eq!(e.write_byte(64, 1), Err(OutOfBoundsError));
}

#[test]
fn erase_byte_restores_erased_state() {
    let mut e = small_bank();
    assert_eq!(e.write_byte(5, 42), Ok(()));
    assert_eq!(e.erase_byte(5), Ok(()));
    assert_eq!(e.read_byte(5), Ok(ERASED_BYTE));
    assert_eq!(e.erase_byte(64), Err(OutOfBoundsError));
}

#[test]
fn bulk_write_then_bulk_read_round_trips() {
    let mut e = small_bank();
    let data = vec![1u8, 2, 3, 4, 5];
    assert_eq!(e.write(10, &data), Ok(()));
    assert_eq!(e.read(10, 5), Ok(data));
    assert_eq!(e.read(9, 7), Ok(vec![0xff, 1, 2, 3, 4, 5, 0xff]));
}

#[test]
fn bulk_out_of_bounds_is_refused_whole() {
    let mut e = small_bank();
    let data = vec![9u8; 5];
    assert_eq!(e.write(62, &data), Err(OutOfBoundsError));
    assert_eq!(e.read(62, 5), Err(OutOfBoundsError));
    assert_eq!(e.read_byte(62), Ok(ERASED_BYTE));
    assert_eq!(e.write(60, &vec![1, 2, 3, 4]), Ok(()));
    assert_eq!(e.read(60, 4), Ok(vec![1, 2, 3, 4]));
}

#[test]
fn bulk_edge_cases() {
    let mut e = small_bank();
    assert_eq!(e.read(64, 0), Ok(vec![]));
    assert_eq!(e.write(64, &vec![]), Ok(()));
    assert_eq!(e.read(65, 0), Err(OutOfBoundsError));
    assert_eq!(e.read(0, 64), Ok(vec![0xff; 64]));
}

#[test]
fn erase_range_is_half_open() {
    let mut e = small_bank();
    assert_eq!(e.write(20, &vec![7u8; 6]), Ok(()));
    assert_eq!(e.erase(21, 25), Ok(()));
    assert_eq!(e.read(20, 6), Ok(vec![7, 0xff, 0xff, 0xff, 0xff, 7]));
    assert_eq!(e.erase(30, 29), Err(OutOfBoundsError));
    assert_eq!(e.erase(0, 65), Err(OutOfBoundsError));
    assert_eq!(e.erase(64, 64), Ok(()));
}

#[test]
fn wide_bank_accepts_wide_addresses() {
    let mut e = Eeprom::new(EepromDesc { capacity: 1024, addr_width: AddrWidth::Width16 });
    assert_eq!(e.write_byte(1023, 0x5a), Ok(()));
    assert_eq!(e.read_byte(1023), Ok(0x5a));
    assert_eq!(e.read_byte(1024), Err(OutOfBoundsError));
}

#[test]
fn boot_count_scenario() {
    let mut e = small_bank();
    let boot_count_offset: u16 = 0;
    let count = e.read_byte(boot_count_offset).unwrap();
    let count = count.wrapping_add(1);
    assert_eq!(e.write_byte(boot_count_offset, count), Ok(()));
    assert_eq!(e.read_byte(boot_count_offset), Ok(0x00));
}
