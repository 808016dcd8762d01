use exwlshellev::ime::{text_input_entered, text_input_left};
use exwlshellev::ime::{
    content_type_for, ime_request_flags, ContentHint, ContentPurpose, CursorPosition, Ime, ImeFlags,
    ImePurpose, ImeState, TextInputState,
};
use exwlshellev::units::{UnitRecord, WindowRegistry, WlShellType};

fn registry() -> WindowRegistry {
    let mut r = WindowRegistry::new();
    r.push_window(UnitRecord {
        id: 1,
        parent: None,
        surface: 101,
        shell: WlShellType::LayerShell,
        close_requested: false,
        outputs: vec![],
        pending_leave: None,
    });
    r
}

#[test]
fn content_types_for_purposes() {
    assert_eq!(content_type_for(ImePurpose::Normal), (ContentHint::Nothing, ContentPurpose::Normal));
    assert_eq!(
        content_type_for(ImePurpose::Password),
        (ContentHint::SensitiveData, ContentPurpose::Password)
    );
    assert_eq!(content_type_for(ImePurpose::Terminal), (ContentHint::Nothing, ContentPurpose::Terminal));
}

#[test]
fn commit_is_sent_after_clearing_preedit() {
    let r = registry();
    let mut t = TextInputState::new();
    assert_eq!(t.enter(&r, 101), Some(1));
    t.preedit_string(Some("ab".to_string()), 1, 2);
    t.commit_string(Some("hello".to_string()));
    let (id, msgs) = t.done(&r).unwrap();
    assert_eq!(id, 1);
    assert_eq!(msgs, vec![Ime::Preedit(String::new(), None), Ime::Commit("hello".to_string())]);
    assert_eq!(t.pending_commit, None);
    assert!(t.pending_preedit.is_none());
}

#[test]
fn preedit_alone_replaces_without_clearing() {
    let r = registry();
    let mut t = TextInputState::new();
    t.enter(&r, 101);
    t.preedit_string(Some("héllo".to_string()), 1, 3);
    let (_, msgs) = t.done(&r).unwrap();
    assert_eq!(
        msgs,
        vec![Ime::Preedit("héllo".to_string(), Some(CursorPosition { start: 1, end: 3 }))]
    );
}

#[test]
fn preedit_cursor_off_char_boundary_is_dropped() {
    let r = registry();
    let mut t = TextInputState::new();
    t.enter(&r, 101);
    t.preedit_string(Some("héllo".to_string()), 2, -1);
    let (_, msgs) = t.done(&r).unwrap();
    assert_eq!(msgs, vec![Ime::Preedit("héllo".to_string(), None)]);
    t.preedit_string(None, 0, 7);
    let (_, msgs) = t.done(&r).unwrap();
    assert_eq!(msgs, vec![Ime::Preedit(String::new(), Some(CursorPosition { start: 0, end: 0 }))]);
}

#[test]
fn done_without_pending_clears_preedit() {
    let r = registry();
    let mut t = TextInputState::new();
    t.enter(&r, 101);
    let (_, msgs) = t.done(&r).unwrap();
    assert_eq!(msgs, vec![Ime::Preedit(String::new(), None)]);
}

#[test]
fn done_off_any_window_keeps_pending() {
    let r = registry();
    let mut t = TextInputState::new();
    assert_eq!(t.enter(&r, 999), None);
    t.commit_string(Some("x".to_string()));
    assert_eq!(t.done(&r), None);
    assert_eq!(t.pending_commit, Some("x".to_string()));
    t.enter(&r, 101);
    assert_eq!(t.leave(&r, 101), Some(1));
    assert_eq!(t.surface, None);
    assert_eq!(t.done(&r), None);
}

#[test]
fn ime_requests_for_widget_changes() {
    let allow = ime_request_flags(false, true, false);
    assert_eq!(allow, ImeFlags { disabled: false, allowed: true, update: true });
    assert!(allow.contains(ImeState::Allowed));
    let same = ime_request_flags(true, true, true);
    assert_eq!(same, ImeFlags { disabled: false, allowed: false, update: false });
    let moved = ime_request_flags(true, true, false);
    assert!(moved.contains(ImeState::Update));
    assert!(!moved.contains(ImeState::Allowed));
    let off = ime_request_flags(true, false, false);
    assert!(off.contains(ImeState::Disabled));
    assert_eq!(ime_request_flags(false, false, true), ImeFlags { disabled: false, allowed: false, update: false });
}

#[test]
fn text_inputs_listed_once() {

    let mut inputs = vec![];
    text_input_entered(&mut inputs, 7);
    text_input_entered(&mut inputs, 7);
    text_input_entered(&mut inputs, 8);
    assert_eq!(inputs, vec![7, 8]);
    text_input_left(&mut inputs, 7);
    assert_eq!(inputs, vec![8]);
    text_input_left(&mut inputs, 7);
    assert_eq!(inputs, vec![8]);
}
