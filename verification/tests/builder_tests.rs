use exwlshellev::builder::{Anchor, ContextBuilder, Extent, KeyboardInteractivity, Layer, LayerSize};
use exwlshellev::geometry::{Margin, Position, Size};
use exwlshellev::settings::{NewInputPanelSettings, NewXdgWindowSettings, PopupPlacement};
use exwlshellev::start::StartMode;
use exwlshellev::unit_outputs::OutputOption;

#[test]
fn builder_defaults() {
    let b = ContextBuilder::default();
    assert_eq!(b.default_namespace, "osd");
    assert_eq!(b.start_mode, StartMode::Active);
    assert!(!b.events_transparent);
    assert_eq!(b.keyboard_interactivity, KeyboardInteractivity::Never);
    assert_eq!(b.anchor, Anchor::all());
    assert_eq!(b.margin, None);
    assert_eq!(b.exclusive_zone, None);
    assert!(!b.use_display_handle);
    assert_eq!(b.layer, Layer::Top);
    assert_eq!(b.size, LayerSize::fill());
    assert_eq!(b.size, LayerSize { width: Extent::Fill, height: Extent::Fill });
    let s = ContextBuilder::start("bar");
    assert_eq!(s.size, LayerSize::fill());
    assert_eq!(s.default_namespace, "bar");
    assert_eq!(s.start_mode, StartMode::Active);
}

#[test]
fn builder_start_modes() {
    let b = ContextBuilder::start("x").with_xdg_output_name("DP-1".to_string());
    assert_eq!(b.start_mode, StartMode::TargetScreen("DP-1".to_string()));
    let b = b.with_xdg_output_name_or_not(None);
    assert_eq!(b.start_mode, StartMode::TargetScreen("DP-1".to_string()));
    let b = b.with_active_or_xdg_output_name(None);
    assert_eq!(b.start_mode, StartMode::Active);
    let b = b.with_allscreens_or_xdg_output_name(None);
    assert_eq!(b.start_mode, StartMode::AllScreens);
    let b = b.with_allscreens_or_xdg_output_name(Some("HDMI-A-1".to_string()));
    assert_eq!(b.start_mode, StartMode::TargetScreen("HDMI-A-1".to_string()));
    let b = b.with_allscreens_or_active(false);
    assert_eq!(b.start_mode, StartMode::Active);
    let b = b.with_allscreens_or_active(true);
    assert_eq!(b.start_mode, StartMode::AllScreens);
    let b = b.with_background_or_not(false);
    assert_eq!(b.start_mode, StartMode::AllScreens);
    let b = b.with_background_or_not(true);
    assert_eq!(b.start_mode, StartMode::Background);
    let b = b.with_start_mode(StartMode::TargetOutput(7)).with_active();
    assert_eq!(b.start_mode, StartMode::Active);
    let b = b.with_allscreens().with_background();
    assert_eq!(b.start_mode, StartMode::Background);
}

#[test]
fn builder_surface_settings() {
    let anchor = Anchor { top: true, bottom: false, left: true, right: false };
    let margin = Margin { top: 1, right: 2, bottom: 3, left: 4 };
    let b = ContextBuilder::start("x")
        .with_events_transparent(true)
        .with_keyboard_interacivity(KeyboardInteractivity::OnDemand)
        .with_anchor(anchor)
        .with_layer(Layer::Overlay)
        .with_margin(margin)
        .with_exclusive_zone(-1)
        .with_use_display_handle(true)
        .with_size(LayerSize::fill_width(30));
    assert!(b.events_transparent);
    assert_eq!(b.keyboard_interactivity, KeyboardInteractivity::OnDemand);
    assert_eq!(b.anchor, anchor);
    assert_eq!(b.layer, Layer::Overlay);
    assert_eq!(b.margin, Some(margin));
    assert_eq!(b.exclusive_zone, Some(-1));
    assert!(b.use_display_handle);
    assert_eq!(b.size, LayerSize { width: Extent::Fill, height: Extent::Px(30) });
    assert_eq!(LayerSize::px(1920, 1080), LayerSize { width: Extent::Px(1920), height: Extent::Px(1080) });
    assert_eq!(b.default_namespace, "x");
    assert_eq!(b.start_mode, StartMode::Active);
}

#[test]
fn new_surface_settings() {
    let x = NewXdgWindowSettings::default();
    assert_eq!(x.title, None);
    assert_eq!(x.size, None);
    assert!(!x.client_side_decorations);
    let p = NewInputPanelSettings {
        size: Size { width: 800, height: 300 },
        keyboard: true,
        output_option: OutputOption::Active,
    };
    assert_eq!(p.clone(), p);
    let a = PopupPlacement::Anchored { position: Position::new(3, 4), size: Size { width: 10, height: 2 } };
    assert_ne!(a, PopupPlacement::Position(Position::new(3, 4)));
}
