//! Behaviour of the single-bit register operations.

use rpi_hal::bits::{clear_bit, is_bit_set, read_bit, set_bit, toggle_bit};

#[test]
fn set_bit_sets_only_that_bit() {
    let mut v: u32 = 0;
    set_bit(&mut v, 3);
    assert_eq!(v, 0b1000);
    set_bit(&mut v, 0);
    assert_eq!(v, 0b1001);
    // setting an already-set bit changes nothing
    set_bit(&mut v, 3);
    assert_eq!(v, 0b1001);
}

#[test]
fn set_bit_edges() {
    let mut v: u32 = 0;
    set_bit(&mut v, 0);
    assert_eq!(v, 1);
    let mut w: u32 = 0;
    set_bit(&mut w, 31);
    assert_eq!(w, 0x8000_0000);
}

#[test]
fn clear_bit_clears_only_that_bit() {
    let mut v: u32 = 0xFFFF_FFFF;
    clear_bit(&mut v, 16);
    assert_eq!(v, 0xFFFE_FFFF);
    // clearing an already-clear bit changes nothing
    clear_bit(&mut v, 16);
    assert_eq!(v, 0xFFFE_FFFF);
}

#[test]
fn toggle_bit_flips() {
    let mut v: u32 = 0b1010;
    toggle_bit(&mut v, 1);
    assert_eq!(v, 0b1000);
    toggle_bit(&mut v, 2);
    assert_eq!(v, 0b1100);
}

#[test]
fn is_bit_set_reads_each_position() {
    let v: u32 = 0b0101_0000;
    assert!(is_bit_set(v, 4));
    assert!(!is_bit_set(v, 5));
    assert!(is_bit_set(v, 6));
    assert!(!is_bit_set(v, 31));
}

#[test]
fn read_bit_yields_zero_or_one() {
    let v: u32 = 0x8000_0001;
    assert_eq!(read_bit(v, 0), 1);
    assert_eq!(read_bit(v, 1), 0);
    assert_eq!(read_bit(v, 31), 1);
    assert_eq!(read_bit(v, 30), 0);
}

#[test]
fn clear_cancels_set() {
    // clearing right after setting leaves the same value as clearing alone
    for n in [0u8, 7, 15, 31] {
        let v: u32 = 0xDEAD_BEEF;
        let mut set_then_clear = v;
        set_bit(&mut set_then_clear, n);
        clear_bit(&mut set_then_clear, n);
        let mut just_clear = v;
        clear_bit(&mut just_clear, n);
        assert_eq!(set_then_clear, just_clear);
    }
}

#[test]
fn set_then_test_is_true() {
    for n in [0u8, 13, 31] {
        let mut v: u32 = 0x1234_5678;
        set_bit(&mut v, n);
        assert!(is_bit_set(v, n));
    }
}

#[test]
fn toggle_twice_restores() {
    for n in [0u8, 20, 31] {
        let orig: u32 = 0xCAFE_F00D;
        let mut v = orig;
        toggle_bit(&mut v, n);
        toggle_bit(&mut v, n);
        assert_eq!(v, orig);
    }
}
