use hpet::access::{is_selected, read_half, written_field};
use hpet::bits::{activating_bit, deactivating_bit, deposit, hpet_fixup_reg, truncate};

#[test]
fn deposit_replaces_the_field_only() {
    assert_eq!(deposit(0xffff_ffff_ffff_ffff, 32, 32, 0x1234), 0x1234_ffff_ffff);
    assert_eq!(deposit(0x1111_2222_3333_4444, 0, 32, 0xabcd_5555_6666), 0x1111_2222_5555_6666);
    assert_eq!(deposit(0, 5, 1, 1), 0x20);
    assert_eq!(deposit(u64::MAX, 63, 1, 0), 0x7fff_ffff_ffff_ffff);
    assert_eq!(deposit(0x1234, 0, 64, 0xfedc_ba98_7654_3210), 0xfedc_ba98_7654_3210);
}

#[test]
fn two_halves_make_a_whole() {
    let low_first = deposit(deposit(7, 0, 32, 0x89ab_cdef), 32, 32, 0x0123_4567);
    let high_first = deposit(deposit(7, 32, 32, 0x0123_4567), 0, 32, 0x89ab_cdef);
    assert_eq!(low_first, 0x0123_4567_89ab_cdef);
    assert_eq!(high_first, 0x0123_4567_89ab_cdef);
}

#[test]
fn fixup_keeps_what_cannot_be_written() {
    assert_eq!(hpet_fixup_reg(u64::MAX, 0x30, 0x7f4e), 0x7f7e);
    assert_eq!(hpet_fixup_reg(0, 0xffff, 0x7f4e), 0x80b1);
}

#[test]
fn bits_that_change() {
    assert!(activating_bit(0, 4, 2));
    assert!(!activating_bit(4, 4, 2));
    assert!(!activating_bit(4, 0, 2));
    assert!(deactivating_bit(4, 0, 2));
    assert!(!deactivating_bit(0, 0, 2));
    assert!(!deactivating_bit(0, 4, 2));
    assert!(activating_bit(0, 1 << 63, 63));
}

#[test]
fn truncate_keeps_the_low_half() {
    assert_eq!(truncate(0x1_2345_6789), 0x2345_6789);
    assert_eq!(truncate(u64::MAX), 0xffff_ffff);
}

#[test]
fn accesses_meet_halves() {
    assert!(is_selected(0x10, 0x10));
    assert!(is_selected(0x14, 0x10));
    assert!(!is_selected(0x18, 0x10));
    assert!(!is_selected(0x11, 0x10));
    assert_eq!(read_half(0x1234_5678_9abc_def0, 0x10), 0x1234_5678_9abc_def0);
    assert_eq!(read_half(0x1234_5678_9abc_def0, 0x14), 0x1234_5678);
    assert_eq!(written_field(0x10, 4), (0, 32));
    assert_eq!(written_field(0x14, 4), (32, 32));
    assert_eq!(written_field(0x10, 8), (0, 64));
    assert_eq!(written_field(0x14, 8), (32, 32));
    assert_eq!(written_field(0x10, 1), (0, 8));
}
