use exwlshellev::seat::{Capability, SeatDevices, SeatSetup};
use exwlshellev::toolkit::{
    launcher_navigate, selected_app, visible_count, App, ClipboardKind, LayerShellClipboard, NameSpace,
    NavKey, NavOutcome,
};
use exwlshellev::touch::{ActiveSurfaces, Finger, GrabSerial};
use exwlshellev::units::{UnitRecord, WindowRegistry, WlShellType};
use exwlshellev::window_aliases::WindowAliases;

#[test]
fn capabilities_create_objects_once() {
    let mut seat = SeatDevices::new();
    assert_eq!(
        seat.new_capability(Capability::Keyboard, true),
        SeatSetup { text_input: true, device: Some(Capability::Keyboard) }
    );
    assert_eq!(
        seat.new_capability(Capability::Keyboard, true),
        SeatSetup { text_input: false, device: None }
    );
    assert_eq!(
        seat.new_capability(Capability::Pointer, true),
        SeatSetup { text_input: false, device: Some(Capability::Pointer) }
    );
    assert!(seat.remove_capability(Capability::Pointer));
    assert!(!seat.remove_capability(Capability::Pointer));
    assert!(seat.keyboard);
    assert!(!seat.pointer);
    let mut bare = SeatDevices::new();
    assert_eq!(
        bare.new_capability(Capability::Touch, false),
        SeatSetup { text_input: false, device: Some(Capability::Touch) }
    );
    assert!(!bare.text_input);
}

#[test]
fn fingers_track_their_units() {
    let mut a = ActiveSurfaces::new();
    a.touch_down(1, 101, Some(1));
    a.touch_down(2, 102, None);
    assert_eq!(a.touch_motion(1), Some(1));
    assert_eq!(a.touch_motion(2), None);
    assert_eq!(a.touch_motion(3), None);
    a.touch_down(1, 103, Some(3));
    assert_eq!(a.fingers.len(), 2);
    assert_eq!(a.touch_motion(1), Some(3));
    assert_eq!(a.touch_up(1), Some(3));
    assert_eq!(a.touch_up(1), None);
    assert_eq!(a.finger_units(), Vec::<u64>::new());
    a.touch_down(4, 104, Some(4));
    a.pointer_enter(105, Some(5));
    let cancelled = a.touch_cancel();
    assert_eq!(
        cancelled,
        vec![Finger { id: 2, surface: 102, unit: None }, Finger { id: 4, surface: 104, unit: Some(4) }]
    );
    assert!(a.fingers.is_empty());
    assert_eq!(a.pointer, Some((105, Some(5))));
    assert!(a.is_mouse_surface(5));
    assert!(!a.is_mouse_surface(4));
    assert_eq!(a.pointer_leave(), Some(5));
    assert_eq!(a.pointer_leave(), None);
}

#[test]
fn pointer_unit_must_still_exist() {
    let mut r = WindowRegistry::new();
    r.push_window(UnitRecord {
        id: 5,
        parent: None,
        surface: 105,
        shell: WlShellType::LayerShell,
        close_requested: false,
        outputs: vec![],
        pending_leave: None,
    });
    let mut a = ActiveSurfaces::new();
    assert_eq!(a.pointer_surface_id(&r), None);
    a.pointer_enter(105, Some(5));
    assert_eq!(a.pointer_surface_id(&r), Some(5));
    r.remove_shell(5);
    assert_eq!(a.pointer_surface_id(&r), None);
}

#[test]
fn window_aliases_stay_inverse() {
    let mut w = WindowAliases::new();
    w.insert(1, 100);
    w.insert(2, 200);
    assert_eq!(w.get_alias(1), Some(100));
    assert_eq!(w.get_back(200), Some(2));
    w.remove(100);
    assert_eq!(w.get_alias(1), None);
    assert_eq!(w.get_back(100), None);
    assert_eq!(w.get_alias(2), Some(200));
    w.remove(100);
    assert_eq!(w.get_back(200), Some(2));
}

#[test]
fn toolkit_pieces() {
    assert_eq!("Counter - Iced".namespace(), "Counter - Iced".to_string());
    let mut clipboard = LayerShellClipboard;
    clipboard.write(ClipboardKind::Standard, "text".to_string());
    assert_eq!(clipboard.read(ClipboardKind::Standard), None);
    let app = App {
        id: "org.example.Editor".to_string(),
        name: "Editor".to_string(),
        cmds: vec!["editor".to_string()],
        description: "Edit text".to_string(),
        categrades: None,
        actions: None,
    };
    assert_eq!(app.title(), "Editor");
    assert_eq!(app.description(), "Edit text");
}

#[test]
fn grab_serial_is_used_once() {
    let mut g = GrabSerial::new();
    assert_eq!(g.take_popup_grab_serial(), None);
    g.record(7);
    g.record(9);
    assert_eq!(g.popup_grab_serial(), Some(9));
    assert_eq!(g.take_popup_grab_serial(), Some(9));
    assert_eq!(g.take_popup_grab_serial(), None);
}

#[test]
fn launcher_selection() {
    let marks = vec![true, false, true, true];
    assert_eq!(visible_count(&marks), 3);
    assert_eq!(selected_app(&marks, 0), Some(0));
    assert_eq!(selected_app(&marks, 1), Some(2));
    assert_eq!(selected_app(&marks, 2), Some(3));
    assert_eq!(selected_app(&marks, 3), None);
    assert_eq!(selected_app(&vec![], 0), None);
    assert_eq!(launcher_navigate(0, 3, NavKey::ArrowUp), NavOutcome::Stay);
    assert_eq!(launcher_navigate(2, 3, NavKey::ArrowUp), NavOutcome::Focus(1));
    assert_eq!(launcher_navigate(2, 3, NavKey::ArrowDown), NavOutcome::Stay);
    assert_eq!(launcher_navigate(0, 3, NavKey::ArrowDown), NavOutcome::Focus(1));
    assert_eq!(launcher_navigate(1, 3, NavKey::Escape), NavOutcome::Exit);
    assert_eq!(launcher_navigate(1, 3, NavKey::Other), NavOutcome::Focus(1));
}
