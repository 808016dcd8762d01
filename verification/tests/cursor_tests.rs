use exwlshellev::cursor::{
    cursor_action, mouse_interaction, mouse_interaction_name, str_to_shape, Cursor, CursorAction,
    CursorShape, Interaction, ShapeName,
};

#[test]
fn shape_names_read_back() {
    assert_eq!(str_to_shape("pointer"), Some(CursorShape::Pointer));
    assert_eq!(CursorShape::Pointer.name(), "pointer");
    assert_eq!(str_to_shape("zoom_out"), Some(CursorShape::ZoomOut));
    assert_eq!(str_to_shape("nesw_resize"), Some(CursorShape::NeswResize));
    let shapes = [
        CursorShape::Default,
        CursorShape::ContextMenu,
        CursorShape::Help,
        CursorShape::Grab,
        CursorShape::EwResize,
        CursorShape::ColResize,
        CursorShape::AllScroll,
    ];
    for shape in shapes {
        assert_eq!(str_to_shape(shape.name()), Some(shape));
    }
}

#[test]
fn shape_name_quirks() {
    assert_eq!(CursorShape::ContextMenu.name(), "contenx_menu");
    assert_eq!(str_to_shape("contenx_menu"), Some(CursorShape::ContextMenu));
    assert_eq!(str_to_shape("context_menu"), None);
    assert_eq!(CursorShape::NwseResize.name(), "nesw_resize");
    assert_eq!(CursorShape::NeResize.name(), "default");
    assert_eq!(CursorShape::DndAsk.name(), "default");
    assert_eq!(CursorShape::AllResize.name(), "default");
    assert_eq!(str_to_shape("ne_resize"), Some(CursorShape::NeResize));
    assert_eq!(str_to_shape(""), None);
    assert_eq!(str_to_shape("Pointer"), None);
}

#[test]
fn shape_codes_follow_protocol() {
    assert_eq!(CursorShape::Default.code(), 1);
    assert_eq!(CursorShape::ZoomOut.code(), 34);
    assert_eq!(CursorShape::AllResize.code(), 36);
    assert_eq!(CursorShape::DndAsk.required_version(), 2);
    assert_eq!(CursorShape::Text.required_version(), 1);
    assert_eq!(CursorShape::VerticalText.theme_name(), "vertical-text");
}

#[test]
fn cursor_action_prefers_protocol() {
    assert_eq!(
        cursor_action(Cursor::Shape(CursorShape::Text), Some(1)),
        CursorAction::SetShape(CursorShape::Text)
    );
    assert_eq!(
        cursor_action(Cursor::Shape(CursorShape::DndAsk), Some(1)),
        CursorAction::LoadTheme("dnd-ask".to_string())
    );
    assert_eq!(
        cursor_action(Cursor::Shape(CursorShape::DndAsk), Some(2)),
        CursorAction::SetShape(CursorShape::DndAsk)
    );
    assert_eq!(
        cursor_action(Cursor::Shape(CursorShape::NoDrop), None),
        CursorAction::LoadTheme("no-drop".to_string())
    );
    assert_eq!(
        cursor_action(Cursor::ThemeName("left_ptr".to_string()), Some(2)),
        CursorAction::LoadTheme("left_ptr".to_string())
    );
}

#[test]
fn interactions_map_to_shapes() {
    assert_eq!(mouse_interaction(Interaction::Nothing), CursorShape::Default);
    assert_eq!(mouse_interaction(Interaction::Hidden), CursorShape::Default);
    assert_eq!(mouse_interaction(Interaction::ResizingDiagonallyUp), CursorShape::NeswResize);
    assert_eq!(mouse_interaction(Interaction::ResizingDiagonallyDown), CursorShape::NwseResize);
    assert_eq!(mouse_interaction(Interaction::ResizingRow), CursorShape::RowResize);
    assert_eq!(mouse_interaction(Interaction::Text), CursorShape::Text);
    assert_eq!(mouse_interaction_name(Interaction::Idle), "wait");
    assert_eq!(mouse_interaction_name(Interaction::ResizingVertically), "ns_resize");
    assert_eq!(mouse_interaction_name(Interaction::ResizingDiagonallyUp), "nesw_resize");
    assert_eq!(mouse_interaction_name(Interaction::AllScroll), "default");
}
