//! How wire input reaches a widget toolkit: key and button states, mouse
//! buttons, keys of a virtual keyboard, and text a widget can show.

use vstd::prelude::*;
use wayland_client::protocol::{wl_keyboard, wl_pointer};
use crate::text::str_eq;

verus! {

/// A key state of `wl_keyboard.key`.
#[derive(Debug, Clone, Copy, PartialEq, Eq, Structural)]
pub enum WireKeyState {
    Released,
    Pressed,
    Repeated,
}

/// The key state that wire value `raw` names in `wayland.xml`.
pub open spec fn key_state_of_wire(raw: u32) -> Option<WireKeyState> {
    match raw {
        0 => Some(WireKeyState::Released),
        1 => Some(WireKeyState::Pressed),
        2 => Some(WireKeyState::Repeated),
        _ => None,
    }
}

/// `wl_keyboard::KeyState::try_from`, the conversion that the protocol
/// scanner generates from `wayland.xml`: released is 0, pressed 1,
/// repeated 2, and any other value is refused.
#[verifier::external_body]
fn key_state_from_wire(raw: u32) -> (r: Option<WireKeyState>)
    ensures
        r == key_state_of_wire(raw),
{
    match wl_keyboard::KeyState::try_from(raw) {
        Ok(wl_keyboard::KeyState::Released) => Some(WireKeyState::Released),
        Ok(wl_keyboard::KeyState::Pressed) => Some(WireKeyState::Pressed),
        Ok(wl_keyboard::KeyState::Repeated) => Some(WireKeyState::Repeated),
        _ => None,
    }
}

/// Whether a key went down or up, as the toolkit sees it.
#[derive(Debug, Clone, Copy, PartialEq, Eq, Structural)]
pub enum IcedKeyState {
    Pressed,
    Released,
}

impl IcedKeyState {
    /// The state of a `wl_keyboard.key` by its wire value. Only a press
    /// or a release is taken.
    pub fn from_wire(raw: u32) -> (r: IcedKeyState)
        requires
            raw == 0 || raw == 1,
        ensures
            r == (if raw == 1 {
                IcedKeyState::Pressed
            } else {
                IcedKeyState::Released
            }),
    {
        match key_state_from_wire(raw) {
            Some(WireKeyState::Pressed) => IcedKeyState::Pressed,
            _ => IcedKeyState::Released,
        }
    }
}

/// A mouse button, as the toolkit names them.
#[derive(Debug, Clone, Copy, PartialEq, Eq, Structural)]
pub enum MouseButton {
    Left,
    Right,
    Middle,
}

/// The button that evdev code `code` is: `BTN_RIGHT` (273) is the right
/// button, `BTN_MIDDLE` (274) the middle one, any other the left one.
pub open spec fn button_of_code(code: u32) -> MouseButton {
    if code == 273 {
        MouseButton::Right
    } else if code == 274 {
        MouseButton::Middle
    } else {
        MouseButton::Left
    }
}

/// The mouse button of an evdev button code.
pub fn from_u32_to_icedmouse(code: u32) -> (r: MouseButton)
    ensures
        r == button_of_code(code),
{
    match code {
        273 => MouseButton::Right,
        274 => MouseButton::Middle,
        _ => MouseButton::Left,
    }
}

/// A button that went down or up.
#[derive(Debug, Clone, Copy, PartialEq, Eq, Structural)]
pub enum IcedButtonState {
    Pressed(MouseButton),
    Released(MouseButton),
}

/// The button state that wire value `raw` names in `wayland.xml`.
pub open spec fn button_pressed_of_wire(raw: u32) -> Option<bool> {
    match raw {
        0 => Some(false),
        1 => Some(true),
        _ => None,
    }
}

/// `wl_pointer::ButtonState::try_from`, the conversion that the protocol
/// scanner generates from `wayland.xml`: released is 0 and pressed 1; any
/// other value is refused. The result says whether the button is pressed.
#[verifier::external_body]
fn button_pressed_from_wire(raw: u32) -> (r: Option<bool>)
    ensures
        r == button_pressed_of_wire(raw),
{
    match wl_pointer::ButtonState::try_from(raw) {
        Ok(wl_pointer::ButtonState::Pressed) => Some(true),
        Ok(wl_pointer::ButtonState::Released) => Some(false),
        _ => None,
    }
}

/// The button event of a `wl_pointer.button` with state `state` (by wire
/// value) for evdev button `button`. Only a press or a release is taken.
pub fn mouse_input(state: u32, button: u32) -> (r: IcedButtonState)
    requires
        state == 0 || state == 1,
    ensures
        r == (if state == 1 {
            IcedButtonState::Pressed(button_of_code(button))
        } else {
            IcedButtonState::Released(button_of_code(button))
        }),
{
    let btn = from_u32_to_icedmouse(button);
    match button_pressed_from_wire(state) {
        Some(true) => IcedButtonState::Pressed(btn),
        _ => IcedButtonState::Released(btn),
    }
}

/// A named key.
#[derive(Debug, Clone, Copy, PartialEq, Eq, Structural)]
pub enum NamedKey {
    Escape,
    Backspace,
    Tab,
}

/// A key as the toolkit names it.
#[derive(Debug, Clone, PartialEq, Eq)]
pub enum Key {
    /// a key with a name
    Named(NamedKey),
    /// a key that types this text
    Character(String),
    /// a key the table does not know
    Unidentified,
}

/// The text that evdev key `code` types on the first rows of a US
/// keyboard: the digits, `-`, `=`, and `qwert`.
pub open spec fn text_of_code(code: u32) -> Option<Seq<char>> {
    match code {
        2 => Some("1"@),
        3 => Some("2"@),
        4 => Some("3"@),
        5 => Some("4"@),
        6 => Some("5"@),
        7 => Some("6"@),
        8 => Some("7"@),
        9 => Some("8"@),
        10 => Some("9"@),
        11 => Some("0"@),
        12 => Some("-"@),
        13 => Some("="@),
        16 => Some("q"@),
        17 => Some("w"@),
        18 => Some("e"@),
        19 => Some("r"@),
        20 => Some("t"@),
        _ => None,
    }
}

/// The named key that evdev key `code` is, among escape (1), backspace
/// (14) and tab (15).
pub open spec fn named_of_code(code: u32) -> Option<NamedKey> {
    if code == 1 {
        Some(NamedKey::Escape)
    } else if code == 14 {
        Some(NamedKey::Backspace)
    } else if code == 15 {
        Some(NamedKey::Tab)
    } else {
        None
    }
}

/// The text that key `code` types, if it is one of the digits, `-`, `=`
/// or `qwert`.
pub fn text_from_u32(value: u32) -> (r: Option<String>)
    ensures
        match text_of_code(value) {
            Some(t) => r matches Some(s) && s@ == t,
            None => r is None,
        },
{
    let t = match value {
        2 => "1",
        3 => "2",
        4 => "3",
        5 => "4",
        6 => "5",
        7 => "6",
        8 => "7",
        9 => "8",
        10 => "9",
        11 => "0",
        12 => "-",
        13 => "=",
        16 => "q",
        17 => "w",
        18 => "e",
        19 => "r",
        20 => "t",
        _ => return None,
    };
    Some(t.to_owned())
}

/// The key that evdev key `code` is: named for escape, backspace and tab,
/// the text it types for the digits, `-`, `=` and `qwert`, unidentified
/// otherwise.
pub fn key_from_u32(value: u32) -> (r: Key)
    ensures
        match named_of_code(value) {
            Some(n) => r == Key::Named(n),
            None => match text_of_code(value) {
                Some(t) => r matches Key::Character(s) && s@ == t,
                None => r == Key::Unidentified,
            },
        },
{
    match value {
        1 => Key::Named(NamedKey::Escape),
        14 => Key::Named(NamedKey::Backspace),
        15 => Key::Named(NamedKey::Tab),
        _ => match text_from_u32(value) {
            Some(t) => Key::Character(t),
            None => Key::Unidentified,
        },
    }
}

/// Whether `c` is in the Private Use Area of the Basic Multilingual Plane,
/// U+E000 to U+F8FF; input methods use it for glyphs no font shows.
pub open spec fn spec_is_private_use(c: char) -> bool {
    0xE000 <= (c as u32) <= 0xF8FF
}

/// Whether `c` is a private-use character, which a widget does not show.
pub fn is_private_use(c: char) -> (r: bool)
    ensures
        r == spec_is_private_use(c),
{
    let code = c as u32;
    0xE000 <= code && code <= 0xF8FF
}

/// The text a key event hands to widgets: none when the text holds a
/// private-use character, which no font shows.
pub fn shown_text(text: Option<String>) -> (r: Option<String>)
    ensures
        match text {
            Some(t) => if exists|i: int| 0 <= i < t@.len() && spec_is_private_use(#[trigger] t@[i]) {
                r is None
            } else {
                r == Some(t)
            },
            None => r is None,
        },
{
    let t = match text {
        Some(t) => t,
        None => return None,
    };
    let n = t.as_str().unicode_len();
    let mut i: usize = 0;
    while i < n
        invariant
            text == Some(t),
            n == t@.len(),
            0 <= i <= n,
            forall|j: int| 0 <= j < i ==> !spec_is_private_use(#[trigger] t@[j]),
        decreases n - i,
    {
        let c = t.as_str().get_char(i);
        if is_private_use(c) {
            assert(spec_is_private_use(t@[i as int]));
            return None;
        }
        i += 1;
    }
    Some(t)
}

/// The evdev key code that a virtual keyboard's key label stands for.
pub open spec fn code_of_label(label: Seq<char>) -> Option<u32> {
    if label == "Q"@ {
        Some(16)
    } else if label == "W"@ {
        Some(17)
    } else if label == "E"@ {
        Some(18)
    } else if label == "R"@ {
        Some(19)
    } else if label == "T"@ {
        Some(20)
    } else if label == "Y"@ {
        Some(21)
    } else if label == "U"@ {
        Some(22)
    } else if label == "I"@ {
        Some(23)
    } else if label == "O"@ {
        Some(24)
    } else if label == "P"@ {
        Some(25)
    } else if label == "A"@ {
        Some(30)
    } else if label == "S"@ {
        Some(31)
    } else if label == "D"@ {
        Some(32)
    } else if label == "F"@ {
        Some(33)
    } else if label == "G"@ {
        Some(34)
    } else if label == "H"@ {
        Some(35)
    } else if label == "J"@ {
        Some(36)
    } else if label == "K"@ {
        Some(37)
    } else if label == "L"@ {
        Some(38)
    } else if label == "Z"@ {
        Some(44)
    } else if label == "X"@ {
        Some(45)
    } else if label == "C"@ {
        Some(46)
    } else if label == "V"@ {
        Some(47)
    } else if label == "B"@ {
        Some(48)
    } else if label == "N"@ {
        Some(49)
    } else if label == "M"@ {
        Some(50)
    } else if label == "1"@ {
        Some(2)
    } else if label == "2"@ {
        Some(3)
    } else if label == "3"@ {
        Some(4)
    } else if label == "4"@ {
        Some(5)
    } else if label == "5"@ {
        Some(6)
    } else if label == "6"@ {
        Some(7)
    } else if label == "7"@ {
        Some(8)
    } else if label == "8"@ {
        Some(9)
    } else if label == "9"@ {
        Some(10)
    } else if label == "0"@ {
        Some(11)
    } else if label == "~"@ {
        Some(41)
    } else if label == "-"@ {
        Some(12)
    } else if label == "="@ {
        Some(13)
    } else if label == "⌫"@ {
        Some(14)
    } else if label == "Tab"@ {
        Some(15)
    } else if label == "Space"@ {
        Some(57)
    } else if label == "["@ {
        Some(26)
    } else if label == "]"@ {
        Some(27)
    } else if label == "\\"@ {
        Some(43)
    } else if label == "CAPS"@ {
        Some(58)
    } else if label == ";"@ {
        Some(39)
    } else if label == "\""@ {
        Some(40)
    } else if label == "Enter"@ {
        Some(28)
    } else if label == ","@ {
        Some(51)
    } else if label == "."@ {
        Some(52)
    } else {
        None
    }
}

/// The evdev key code that a virtual keyboard's key label stands for:
/// the letters, digits and the punctuation of a US layout, and the keys
/// labelled `Tab`, `Space`, `CAPS`, `Enter` and `⌫`.
pub fn get_key_code(label: &str) -> (r: Option<u32>)
    ensures
        r == code_of_label(label@),
{
    if str_eq(label, "Q") {
        return Some(16);
    }
    if str_eq(label, "W") {
        return Some(17);
    }
    if str_eq(label, "E") {
        return Some(18);
    }
    if str_eq(label, "R") {
        return Some(19);
    }
    if str_eq(label, "T") {
        return Some(20);
    }
    if str_eq(label, "Y") {
        return Some(21);
    }
    if str_eq(label, "U") {
        return Some(22);
    }
    if str_eq(label, "I") {
        return Some(23);
    }
    if str_eq(label, "O") {
        return Some(24);
    }
    if str_eq(label, "P") {
        return Some(25);
    }
    if str_eq(label, "A") {
        return Some(30);
    }
    if str_eq(label, "S") {
        return Some(31);
    }
    if str_eq(label, "D") {
        return Some(32);
    }
    if str_eq(label, "F") {
        return Some(33);
    }
    if str_eq(label, "G") {
        return Some(34);
    }
    if str_eq(label, "H") {
        return Some(35);
    }
    if str_eq(label, "J") {
        return Some(36);
    }
    if str_eq(label, "K") {
        return Some(37);
    }
    if str_eq(label, "L") {
        return Some(38);
    }
    if str_eq(label, "Z") {
        return Some(44);
    }
    if str_eq(label, "X") {
        return Some(45);
    }
    if str_eq(label, "C") {
        return Some(46);
    }
    if str_eq(label, "V") {
        return Some(47);
    }
    if str_eq(label, "B") {
        return Some(48);
    }
    if str_eq(label, "N") {
        return Some(49);
    }
    if str_eq(label, "M") {
        return Some(50);
    }
    if str_eq(label, "1") {
        return Some(2);
    }
    if str_eq(label, "2") {
        return Some(3);
    }
    if str_eq(label, "3") {
        return Some(4);
    }
    if str_eq(label, "4") {
        return Some(5);
    }
    if str_eq(label, "5") {
        return Some(6);
    }
    if str_eq(label, "6") {
        return Some(7);
    }
    if str_eq(label, "7") {
        return Some(8);
    }
    if str_eq(label, "8") {
        return Some(9);
    }
    if str_eq(label, "9") {
        return Some(10);
    }
    if str_eq(label, "0") {
        return Some(11);
    }
    if str_eq(label, "~") {
        return Some(41);
    }
    if str_eq(label, "-") {
        return Some(12);
    }
    if str_eq(label, "=") {
        return Some(13);
    }
    if str_eq(label, "⌫") {
        return Some(14);
    }
    if str_eq(label, "Tab") {
        return Some(15);
    }
    if str_eq(label, "Space") {
        return Some(57);
    }
    if str_eq(label, "[") {
        return Some(26);
    }
    if str_eq(label, "]") {
        return Some(27);
    }
    if str_eq(label, "\\") {
        return Some(43);
    }
    if str_eq(label, "CAPS") {
        return Some(58);
    }
    if str_eq(label, ";") {
        return Some(39);
    }
    if str_eq(label, "\"") {
        return Some(40);
    }
    if str_eq(label, "Enter") {
        return Some(28);
    }
    if str_eq(label, ",") {
        return Some(51);
    }
    if str_eq(label, ".") {
        return Some(52);
    }
    None
}

} // verus!
