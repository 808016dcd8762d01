use exwlshellev::geometry::{Margin, Position, Size};
use exwlshellev::toplevel::{
    toplevel_configure, toplevel_state_from_bytes, toplevel_state_from_configure, toplevel_state_from_words,
    ToplevelState,
};

fn bytes(words: &[u32]) -> Vec<u8> {
    words.iter().flat_map(|w| w.to_ne_bytes()).collect()
}

#[test]
fn toplevel_states_from_words() {
    let none = ToplevelState::default();
    assert_eq!(none, ToplevelState { maximized: false, fullscreen: false, tiled: false, activated: false });
    let s = toplevel_state_from_words(&[1, 4]);
    assert_eq!(s, ToplevelState { maximized: true, fullscreen: false, tiled: false, activated: true });
    let s = toplevel_state_from_words(&[2, 7, 3, 9, 99]);
    assert_eq!(s, ToplevelState { maximized: false, fullscreen: true, tiled: true, activated: false });
    assert_eq!(toplevel_state_from_words(&[0, 3, 13, 14]), none);
}

#[test]
fn toplevel_states_from_configure_bytes() {
    let mut raw = bytes(&[4, 5]);
    raw.push(1);
    let s = toplevel_state_from_configure(&raw);
    assert_eq!(s, ToplevelState { maximized: false, fullscreen: false, tiled: true, activated: true });
    assert_eq!(toplevel_state_from_configure(&[]), ToplevelState::default());
}

#[test]
fn configure_keeps_size_on_zero() {
    let size = Size { width: 300, height: 200 };
    let active = ToplevelState { maximized: false, fullscreen: false, tiled: false, activated: true };
    let c = toplevel_configure(size, ToplevelState::default(), 0, 500, active);
    assert_eq!(c.size, size);
    assert!(c.state_changed);
    let c = toplevel_configure(size, active, 800, 600, active);
    assert_eq!(c.size, Size { width: 800, height: 600 });
    assert!(!c.state_changed);
}

#[test]
fn geometry_values() {
    let p = Position::new(3, -4);
    assert_eq!(p.x, 3);
    assert_eq!(p.y, -4);
    assert_eq!(Margin::default(), Margin { top: 0, right: 0, bottom: 0, left: 0 });
}

#[test]
fn configure_words_share_one_byte_order() {
    // 1 then 1 << 24 in memory: maximized in either byte order
    let s = toplevel_state_from_configure(&[1, 0, 0, 0, 0, 0, 0, 1]);
    assert!(s.maximized);
    assert!(!s.fullscreen && !s.tiled && !s.activated);
    // a trailing partial word is left out
    let mut raw = bytes(&[2]);
    raw.extend_from_slice(&[4, 0, 0]);
    assert_eq!(
        toplevel_state_from_configure(&raw),
        ToplevelState { maximized: false, fullscreen: true, tiled: false, activated: false }
    );
}

#[test]
fn configure_bytes_in_either_order() {
    let raw = [1, 0, 0, 0, 0, 0, 0, 4, 9];
    assert_eq!(
        toplevel_state_from_bytes(&raw, true),
        ToplevelState { maximized: true, fullscreen: false, tiled: false, activated: false }
    );
    assert_eq!(
        toplevel_state_from_bytes(&raw, false),
        ToplevelState { maximized: false, fullscreen: false, tiled: false, activated: true }
    );
    let little = u32::from_ne_bytes([1, 0, 0, 0]) == 1;
    assert_eq!(toplevel_state_from_configure(&raw), toplevel_state_from_bytes(&raw, little));
}
