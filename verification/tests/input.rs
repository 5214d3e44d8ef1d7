use spellwheel::gamepad::{GamepadReport, GamepadState};
use spellwheel::keyboard::is_pressed;

fn report(buttons: u16, rt: u8, lt: u8) -> GamepadReport {
    GamepadReport { buttons, right_trigger: rt, left_trigger: lt, thumb_rx: 0, thumb_ry: 0 }
}

const DPAD_UP: u16 = 0x0001;
const DPAD_DOWN: u16 = 0x0002;
const Y: u16 = 0x8000;

#[test]
fn a_new_state_holds_nothing() {
    let s = GamepadState::new();
    assert_eq!(s.pressed_duration(Ok(DPAD_UP), 100), None);
    assert_eq!(s.pressed_duration(Err(true), 100), None);
    assert_eq!(s.pressed_duration(Err(false), 100), None);
    assert_eq!(s.right_stick, [0, 0]);
}

#[test]
fn a_held_button_keeps_its_start() {
    let mut s = GamepadState::new();
    s.update(report(DPAD_UP | Y, 0, 0), 1000);
    assert_eq!(s.pressed_duration(Ok(DPAD_UP), 1000), Some(0));
    s.update(report(DPAD_UP, 0, 0), 1500);
    assert_eq!(s.pressed_duration(Ok(DPAD_UP), 1800), Some(800));
    assert_eq!(s.pressed[0], 1000);
    // Released buttons are not held.
    assert_eq!(s.pressed_duration(Ok(Y), 1800), None);
    assert_eq!(s.pressed_duration(Ok(DPAD_DOWN), 1800), None);
    s.update(report(0, 0, 0), 2000);
    assert_eq!(s.pressed_duration(Ok(DPAD_UP), 2000), None);
}

#[test]
fn triggers_count_above_the_threshold() {
    let mut s = GamepadState::new();
    s.update(report(0, 30, 31), 50);
    assert_eq!(s.pressed_duration(Err(true), 60), None);
    assert_eq!(s.pressed_duration(Err(false), 60), Some(10));
    s.update(report(0, 255, 0), 70);
    assert_eq!(s.pressed_duration(Err(true), 75), Some(5));
    assert_eq!(s.pressed_duration(Err(false), 75), None);
}

#[test]
fn the_lowest_set_bit_names_the_button() {
    let mut s = GamepadState::new();
    s.update(report(DPAD_DOWN, 0, 0), 9);
    assert_eq!(s.pressed_duration(Ok(DPAD_DOWN | Y), 10), Some(1));
}

#[test]
fn the_stick_is_reported_raw() {
    let mut s = GamepadState::new();
    s.update(GamepadReport { buttons: 0, right_trigger: 0, left_trigger: 0, thumb_rx: -300, thumb_ry: 32767 }, 1);
    assert_eq!(s.right_stick, [-300, 32767]);
}

#[test]
fn an_earlier_instant_counts_as_no_time_held() {
    let mut s = GamepadState::new();
    s.update(report(DPAD_UP, 0, 0), 500);
    assert_eq!(s.pressed_duration(Ok(DPAD_UP), 400), Some(0));
}

#[test]
fn keys_count_only_while_the_game_has_focus() {
    assert!(is_pressed(true, i16::MIN));
    assert!(is_pressed(true, -1));
    assert!(!is_pressed(true, 1));
    assert!(!is_pressed(true, 0));
    assert!(!is_pressed(false, i16::MIN));
}
