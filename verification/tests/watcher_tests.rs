use igt_core::watcher::{Pair, RawSample, Watcher, Watchers, mask_timer_register, powerup_address};

fn sample(
    level_timer: u32,
    timer2: u32,
    frame_counter: u32,
    gamestate_flags: u8,
    powerups: Option<u16>,
) -> RawSample {
    RawSample { level_timer, timer2, frame_counter, gamestate_flags, can_control_p1: 1, powerups }
}

#[test]
fn first_update_reports_no_change() {
    let mut w = Watcher::new();
    assert!(w.pair.is_none());
    w.update(42);
    let p = w.pair.unwrap();
    assert_eq!(p.previous, 42);
    assert_eq!(p.current, 42);
    assert!(!p.changed());
}

#[test]
fn second_update_shifts_current_to_previous() {
    let mut w = Watcher::new();
    w.update(1);
    w.update(2);
    let p = w.pair.unwrap();
    assert_eq!(p.previous, 1);
    assert_eq!(p.current, 2);
    assert!(p.changed());
}

#[test]
fn equal_updates_report_no_change() {
    let mut w = Watcher::new();
    w.update(7);
    w.update(7);
    assert!(!w.pair.unwrap().changed());
}

#[test]
fn timer_register_masked_to_low_24_bits() {
    assert_eq!(mask_timer_register(0xAB123456), 0x123456);
    assert_eq!(mask_timer_register(0x00FFFFFF), 0x00FFFFFF);
    assert_eq!(mask_timer_register(0xFF000000), 0);
}

#[test]
fn advance_masks_encoded_timer() {
    let mut bank = Watchers::new();
    bank.advance(sample(0, 0xAB000102, 0, 0, Some(0)));
    assert_eq!(bank.level_timer2.pair.unwrap().current, 0x000102);
}

#[test]
fn advance_without_powerups_keeps_that_watcher() {
    let mut bank = Watchers::new();
    bank.advance(sample(1, 2, 3, 4, None));
    assert!(bank.powerups_bitfield.pair.is_none());
    bank.advance(sample(1, 2, 3, 4, Some(9)));
    let p = bank.powerups_bitfield.pair.unwrap();
    assert_eq!(p.previous, 9);
    assert_eq!(p.current, 9);
}

#[test]
fn advance_updates_every_field() {
    let mut bank = Watchers::new();
    bank.advance(sample(10, 20, 30, 40, Some(50)));
    bank.advance(sample(11, 21, 31, 41, Some(51)));
    assert_eq!(bank.level_timer.pair.unwrap(), Pair { previous: 10, current: 11 });
    assert_eq!(bank.level_timer2.pair.unwrap(), Pair { previous: 20, current: 21 });
    assert_eq!(bank.frame_counter.pair.unwrap(), Pair { previous: 30, current: 31 });
    assert_eq!(bank.gamestate_flags.pair.unwrap(), Pair { previous: 40, current: 41 });
    assert_eq!(bank.powerups_bitfield.pair.unwrap(), Pair { previous: 50, current: 51 });
    assert_eq!(bank.can_control_p1.pair.unwrap(), Pair { previous: 1, current: 1 });
}

#[test]
fn powerup_address_requires_valid_region_base() {
    assert_eq!(powerup_address(0x8000001, 0x10), Some(0x8000011));
    assert_eq!(powerup_address(0x8000000, 0x10), None);
    assert_eq!(powerup_address(0, 0x10), None);
    assert_eq!(powerup_address(u32::MAX, 0x10), None);
    assert_eq!(powerup_address(u32::MAX - 0x10, 0x10), Some(u32::MAX));
}
