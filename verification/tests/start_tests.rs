use exwlshellev::lock::LockLifecycle;
use exwlshellev::requests::{
    can_reposition, popup_grab, popup_parent, reposition_token, should_stop, PopupGrab, PopupParent,
};
use exwlshellev::start::{
    new_display_plan, next_init_stage, start_plan, InitRequest, InitStage, NewDisplayPlan, StartMode,
    StartPlan,
};
use exwlshellev::ui_batch::{merge_states, update_outcome, update_plan, InputKind, ScrollOutcome, UiState, UpdateStep};
use exwlshellev::cursor::Interaction;
use exwlshellev::refresh::RefreshRequest;
use exwlshellev::unit_outputs::OutputLabel;
use exwlshellev::units::{UnitRecord, WindowRegistry, WlShellType};

fn unit(id: u64, parent: Option<u64>, shell: WlShellType) -> UnitRecord {
    UnitRecord {
        id,
        parent,
        surface: 100 + id,
        shell,
        close_requested: false,
        outputs: vec![],
        pending_leave: None,
    }
}

#[test]
fn start_mode_predicates() {
    assert!(StartMode::default().is_active());
    assert!(StartMode::Background.is_background());
    assert!(StartMode::AllScreens.is_allscreens());
    assert!(StartMode::TargetScreen("DP-1".to_string()).is_with_target());
    assert!(!StartMode::TargetOutput(3).is_with_target());
    assert_eq!(StartMode::active_or_xdg_output_name(None), StartMode::Active);
    assert_eq!(
        StartMode::allscreens_or_xdg_output_name(Some("DP-1".to_string())),
        StartMode::TargetScreen("DP-1".to_string())
    );
    assert_eq!(StartMode::allscreens_or_xdg_output_name(None), StartMode::AllScreens);
    assert_eq!(StartMode::Background.xdg_output_name_or_not(None), StartMode::Background);
    assert_eq!(StartMode::allscreens_or_active(false), StartMode::Active);
    assert_eq!(StartMode::Active.background_or_not(true), StartMode::Background);
    assert_eq!(StartMode::Active.background_or_not(false), StartMode::Active);
}

#[test]
fn start_plans() {
    let mut r = WindowRegistry::new();
    r.new_output(10);
    r.new_output(20);
    let infos = vec![OutputLabel { global: 20, name: Some("HDMI-A-1".to_string()) }];
    assert_eq!(start_plan(&StartMode::Background, &r, &infos), StartPlan::Background);
    assert_eq!(start_plan(&StartMode::AllScreens, &r, &infos), StartPlan::OnEachOutput(vec![10, 20]));
    assert_eq!(
        start_plan(&StartMode::TargetScreen("HDMI-A-1".to_string()), &r, &infos),
        StartPlan::Single(Some(20))
    );
    assert_eq!(
        start_plan(&StartMode::TargetScreen("eDP-1".to_string()), &r, &infos),
        StartPlan::Single(None)
    );
    assert_eq!(start_plan(&StartMode::TargetOutput(10), &r, &infos), StartPlan::Single(Some(10)));
    assert_eq!(start_plan(&StartMode::Active, &r, &infos), StartPlan::Single(None));
}

#[test]
fn new_display_surfaces() {
    assert_eq!(
        new_display_plan(LockLifecycle::Locked, &StartMode::Active),
        NewDisplayPlan { lock_surface: true, layer_surface: false }
    );
    assert_eq!(
        new_display_plan(LockLifecycle::Unlocked, &StartMode::AllScreens),
        NewDisplayPlan { lock_surface: false, layer_surface: true }
    );
}

#[test]
fn init_handshake() {
    assert_eq!(next_init_stage(None), Some(InitStage::Start));
    assert_eq!(next_init_stage(Some(InitRequest::RequestBind)), Some(InitStage::BindProvide));
    assert_eq!(next_init_stage(Some(InitRequest::RequestCompositor)), Some(InitStage::CompositorProvide));
    assert_eq!(next_init_stage(Some(InitRequest::NoRequest)), None);
}

#[test]
fn popup_requests() {
    let mut r = WindowRegistry::new();
    r.push_window(unit(1, None, WlShellType::LayerShell));
    r.push_window(unit(2, Some(1), WlShellType::PopUp));
    r.push_window(unit(3, None, WlShellType::SessionLock));
    r.push_window(unit(4, None, WlShellType::XdgTopLevel));
    assert_eq!(popup_parent(&r, 1), PopupParent::Layer);
    assert_eq!(popup_parent(&r, 2), PopupParent::Xdg);
    assert_eq!(popup_parent(&r, 3), PopupParent::Unsupported);
    assert_eq!(popup_parent(&r, 4), PopupParent::Xdg);
    assert_eq!(popup_parent(&r, 5), PopupParent::Missing);
    assert_eq!(popup_grab(true, Some(9)), PopupGrab::Grab(9));
    assert_eq!(popup_grab(false, Some(9)), PopupGrab::NoSeat);
    assert_eq!(popup_grab(true, None), PopupGrab::NoGrab);
    assert_eq!(reposition_token(None), 1);
    assert_eq!(reposition_token(Some(1)), 2);
    assert_eq!(reposition_token(Some(u32::MAX)), 0);
    assert!(can_reposition(Some(WlShellType::PopUp), 3));
    assert!(!can_reposition(Some(WlShellType::PopUp), 2));
    assert!(!can_reposition(Some(WlShellType::LayerShell), 6));
}

#[test]
fn loop_stops_when_last_unit_closes() {
    let mut r = WindowRegistry::new();
    assert!(should_stop(&r, &StartMode::Active));
    assert!(!should_stop(&r, &StartMode::AllScreens));
    assert!(!should_stop(&r, &StartMode::Background));
    r.push_window(unit(1, None, WlShellType::LayerShell));
    assert!(!should_stop(&r, &StartMode::Active));
}

#[test]
fn update_plans_batch_plain_events() {
    let (plain, scroll, stop) = (InputKind::Plain, InputKind::Scroll, InputKind::Stop);
    assert_eq!(update_plan(&vec![]), vec![UpdateStep::Plain { start: 0, end: 0 }]);
    assert_eq!(update_plan(&vec![plain, plain]), vec![UpdateStep::Plain { start: 0, end: 2 }]);
    assert_eq!(
        update_plan(&vec![plain, scroll, plain, stop, plain]),
        vec![
            UpdateStep::Plain { start: 0, end: 1 },
            UpdateStep::Scroll { index: 1 },
            UpdateStep::Plain { start: 2, end: 3 },
            UpdateStep::Stop { index: 3 },
            UpdateStep::Plain { start: 4, end: 5 },
        ]
    );
    assert_eq!(update_plan(&vec![scroll]), vec![UpdateStep::Scroll { index: 0 }]);
    assert_eq!(
        update_plan(&vec![stop]),
        vec![UpdateStep::Stop { index: 0 }, UpdateStep::Plain { start: 1, end: 1 }]
    );
}

#[test]
fn ui_states_merge() {
    let a = UiState::Updated {
        mouse_interaction: Interaction::Text,
        redraw_request: RefreshRequest::At(5),
        input_method: "enabled",
        has_layout_changed: true,
    };
    let b = UiState::Updated {
        mouse_interaction: Interaction::Pointer,
        redraw_request: RefreshRequest::Wait,
        input_method: "disabled",
        has_layout_changed: false,
    };
    assert_eq!(
        merge_states(a, b, "merged"),
        UiState::Updated {
            mouse_interaction: Interaction::Pointer,
            redraw_request: RefreshRequest::At(5),
            input_method: "merged",
            has_layout_changed: true,
        }
    );
    assert_eq!(merge_states(UiState::Outdated, b, "merged"), UiState::Outdated);
    assert_eq!(merge_states(a, UiState::Outdated, "merged"), UiState::Outdated);
}

#[test]
fn update_outcome_follows_the_last_scroll() {
    let (plain, scroll, stop) = (InputKind::Plain, InputKind::Scroll, InputKind::Stop);
    // stop before any scroll goes to the owner kept from earlier updates
    let kinds = vec![stop, plain, scroll, stop, scroll, plain];
    let claims = vec![None, None, Some(4), None, Some(9), None];
    let r = update_outcome(&kinds, &claims, &vec![false, false, false, true, false, false], Some(2));
    assert_eq!(r, ScrollOutcome { owner: Some(9), stop_delivered: true });
    // a stop with no owner is not delivered, whatever the walk would say
    let kinds = vec![scroll, stop];
    let r = update_outcome(&kinds, &vec![None, None], &vec![false, true], Some(2));
    assert_eq!(r, ScrollOutcome { owner: None, stop_delivered: false });
    // without scroll inputs the owner stays
    let r = update_outcome(&vec![plain, stop], &vec![None, None], &vec![false, true], Some(2));
    assert_eq!(r, ScrollOutcome { owner: Some(2), stop_delivered: true });
    let mut o = ScrollOutcome::new(None);
    assert_eq!(o.stop_owner(), None);
    o.scroll_handled(Some(3));
    assert_eq!(o.stop_owner(), Some(3));
    o.stop_handled(false);
    assert!(!o.stop_delivered);
    o.stop_handled(true);
    assert!(o.stop_delivered);
}
