use exwlshellev::iced_input::{
    from_u32_to_icedmouse, get_key_code, is_private_use, key_from_u32, mouse_input, text_from_u32,
    IcedButtonState, IcedKeyState, Key, MouseButton, NamedKey,
};
use exwlshellev::iced_input::shown_text;
use exwlshellev::keyboard::{KeyRepeat, KeyboardSignal, RepeatInfo, RepeatTimer};

#[test]
fn mouse_buttons_from_evdev() {
    assert_eq!(from_u32_to_icedmouse(272), MouseButton::Left);
    assert_eq!(from_u32_to_icedmouse(273), MouseButton::Right);
    assert_eq!(from_u32_to_icedmouse(274), MouseButton::Middle);
    assert_eq!(from_u32_to_icedmouse(275), MouseButton::Left);
    assert_eq!(mouse_input(1, 273), IcedButtonState::Pressed(MouseButton::Right));
    assert_eq!(mouse_input(0, 272), IcedButtonState::Released(MouseButton::Left));
}

#[test]
fn key_states_from_wire() {
    assert_eq!(IcedKeyState::from_wire(1), IcedKeyState::Pressed);
    assert_eq!(IcedKeyState::from_wire(0), IcedKeyState::Released);
}

#[test]
fn keys_from_evdev_codes() {
    assert_eq!(key_from_u32(0), Key::Unidentified);
    assert_eq!(key_from_u32(1), Key::Named(NamedKey::Escape));
    assert_eq!(key_from_u32(2), Key::Character("1".to_string()));
    assert_eq!(key_from_u32(10), Key::Character("9".to_string()));
    assert_eq!(key_from_u32(11), Key::Character("0".to_string()));
    assert_eq!(key_from_u32(14), Key::Named(NamedKey::Backspace));
    assert_eq!(key_from_u32(15), Key::Named(NamedKey::Tab));
    assert_eq!(key_from_u32(20), Key::Character("t".to_string()));
    assert_eq!(key_from_u32(21), Key::Unidentified);
    assert_eq!(text_from_u32(1), None);
    assert_eq!(text_from_u32(14), None);
    assert_eq!(text_from_u32(12), Some("-".to_string()));
    assert_eq!(text_from_u32(16), Some("q".to_string()));
}

#[test]
fn virtual_keyboard_labels() {
    assert_eq!(get_key_code("Q"), Some(16));
    assert_eq!(get_key_code("M"), Some(50));
    assert_eq!(get_key_code("0"), Some(11));
    assert_eq!(get_key_code("⌫"), Some(14));
    assert_eq!(get_key_code("\\"), Some(43));
    assert_eq!(get_key_code("\""), Some(40));
    assert_eq!(get_key_code("Space"), Some(57));
    assert_eq!(get_key_code("q"), None);
    assert_eq!(get_key_code(""), None);
}

#[test]
fn private_use_characters() {
    assert!(is_private_use('\u{E000}'));
    assert!(is_private_use('\u{F8FF}'));
    assert!(!is_private_use('a'));
    assert!(!is_private_use('\u{D7FF}'));
    assert!(!is_private_use('\u{F900}'));
}

#[test]
fn repeat_info_from_wayland() {
    assert_eq!(RepeatInfo::from_wayland(0, 600), RepeatInfo::Disable);
    assert_eq!(
        RepeatInfo::from_wayland(25, 600),
        RepeatInfo::Repeat { gap_micros: 40_000, delay_millis: 600 }
    );
    assert_eq!(
        RepeatInfo::from_wayland(3, 200),
        RepeatInfo::Repeat { gap_micros: 333_333, delay_millis: 200 }
    );
}

#[test]
fn held_key_repeats_until_released() {
    let mut k = KeyRepeat::new(RepeatInfo::Repeat { gap_micros: 40_000, delay_millis: 600 });
    let step = k.handle(KeyboardSignal::Key { key: 30, pressed: true, repeats: true });
    assert_eq!(step.arm_timer, Some(RepeatTimer { delay_millis: 600, key: 38 }));
    assert!(!step.cancel_timer);
    assert_eq!(k.current, Some(38));
    k.handle(KeyboardSignal::TimerArmed);
    let fired = k.handle(KeyboardSignal::TimerFired { key: 38 });
    assert_eq!(fired.repeat_key, Some(38));
    assert_eq!(fired.rearm_micros, Some(40_000));
    let released = k.handle(KeyboardSignal::Key { key: 30, pressed: false, repeats: true });
    assert!(released.cancel_timer);
    assert_eq!(k.current, None);
    let stale = k.handle(KeyboardSignal::TimerFired { key: 38 });
    assert_eq!(stale.repeat_key, None);
    assert_eq!(stale.rearm_micros, None);
}

#[test]
fn non_repeating_keys_and_disabled_repeat() {
    let mut k = KeyRepeat::new(RepeatInfo::Repeat { gap_micros: 40_000, delay_millis: 600 });
    let step = k.handle(KeyboardSignal::Key { key: 42, pressed: true, repeats: false });
    assert_eq!(step.arm_timer, None);
    assert_eq!(k.current, None);
    k.handle(KeyboardSignal::Key { key: 30, pressed: true, repeats: true });
    k.handle(KeyboardSignal::TimerArmed);
    let off = k.handle(KeyboardSignal::RepeatInfo { rate: 0, delay: 0 });
    assert!(off.cancel_timer);
    assert_eq!(k.info, RepeatInfo::Disable);
    assert_eq!(k.current, None);
    let step = k.handle(KeyboardSignal::Key { key: 30, pressed: true, repeats: true });
    assert_eq!(step.arm_timer, None);
}

#[test]
fn focus_change_stops_repeat() {
    let mut k = KeyRepeat::new(RepeatInfo::Repeat { gap_micros: 40_000, delay_millis: 600 });
    k.handle(KeyboardSignal::Key { key: 30, pressed: true, repeats: true });
    k.handle(KeyboardSignal::TimerArmed);
    let step = k.handle(KeyboardSignal::Leave);
    assert!(step.cancel_timer);
    assert_eq!(k.current, None);
    assert!(!k.timer);
    let step = k.handle(KeyboardSignal::Enter);
    assert!(!step.cancel_timer);
}

#[test]
fn second_key_takes_over_repeat() {
    let mut k = KeyRepeat::new(RepeatInfo::Repeat { gap_micros: 40_000, delay_millis: 500 });
    k.handle(KeyboardSignal::Key { key: 30, pressed: true, repeats: true });
    k.handle(KeyboardSignal::TimerArmed);
    let step = k.handle(KeyboardSignal::Key { key: 31, pressed: true, repeats: true });
    assert!(step.cancel_timer);
    assert_eq!(step.arm_timer, Some(RepeatTimer { delay_millis: 500, key: 39 }));
    // releasing the first key no longer stops the repeat
    let step = k.handle(KeyboardSignal::Key { key: 30, pressed: false, repeats: true });
    assert!(!step.cancel_timer);
    assert_eq!(k.current, Some(39));
}

#[test]
fn private_use_text_is_not_shown() {

    assert_eq!(shown_text(Some("abc".to_string())), Some("abc".to_string()));
    assert_eq!(shown_text(Some("a\u{E123}c".to_string())), None);
    assert_eq!(shown_text(Some(String::new())), Some(String::new()));
    assert_eq!(shown_text(None), None);
}
