use exwlshellev::unit_outputs::{OutputLabel, OutputOption};
use exwlshellev::units::{UnitRecord, WindowRegistry, WlShellType};

fn unit(id: u64, parent: Option<u64>, surface: u64, shell: WlShellType, outputs: Vec<u32>) -> UnitRecord {
    UnitRecord {
        id,
        parent,
        surface,
        shell,
        close_requested: false,
        outputs,
        pending_leave: None,
    }
}

fn ids(registry: &WindowRegistry) -> Vec<u64> {
    registry.units.iter().map(|u| u.id).collect()
}

#[test]
fn close_plan_closes_descendants_first() {
    let mut r = WindowRegistry::new();
    r.push_window(unit(1, None, 101, WlShellType::LayerShell, vec![]));
    r.push_window(unit(2, Some(1), 102, WlShellType::PopUp, vec![]));
    r.push_window(unit(3, Some(2), 103, WlShellType::PopUp, vec![]));
    r.push_window(unit(4, None, 104, WlShellType::LayerShell, vec![]));
    r.request_close(1);
    let order = r.close_plan();
    assert_eq!(order, vec![3, 2, 1]);
}

#[test]
fn close_plan_without_requests_is_empty() {
    let mut r = WindowRegistry::new();
    r.push_window(unit(1, None, 101, WlShellType::LayerShell, vec![]));
    assert!(r.close_plan().is_empty());
    r.request_close(1);
    r.clear_close_request(1);
    assert!(r.close_plan().is_empty());
}

#[test]
fn close_plan_lists_each_unit_once() {
    let mut r = WindowRegistry::new();
    r.push_window(unit(1, None, 101, WlShellType::LayerShell, vec![]));
    r.push_window(unit(2, Some(1), 102, WlShellType::PopUp, vec![]));
    r.request_close(2);
    r.request_close(1);
    assert_eq!(r.close_plan(), vec![2, 1]);
}

#[test]
fn remove_shell_drops_focus_on_its_surface() {
    let mut r = WindowRegistry::new();
    r.push_window(unit(1, None, 101, WlShellType::LayerShell, vec![]));
    r.push_window(unit(2, None, 102, WlShellType::LayerShell, vec![]));
    assert_eq!(r.keyboard_enter(102), Some(2));
    assert_eq!(r.keyboard_focus_id(), Some(2));
    assert_eq!(r.remove_shell(2), Some(()));
    assert_eq!(r.keyboard_focus, None);
    assert_eq!(r.remove_shell(2), None);
    assert!(r.can_remove_shell(1));
    assert!(!r.can_remove_shell(2));
}

#[test]
fn keyboard_enter_twice_notifies_once() {
    let mut r = WindowRegistry::new();
    r.push_window(unit(1, None, 101, WlShellType::LayerShell, vec![]));
    assert_eq!(r.keyboard_enter(101), Some(1));
    assert_eq!(r.keyboard_enter(101), None);
    assert_eq!(r.keyboard_leave(101), Some(1));
    assert_eq!(r.keyboard_focus, None);
}

#[test]
fn last_output_follows_active_surface() {
    let mut r = WindowRegistry::new();
    r.new_output(10);
    r.new_output(20);
    r.push_window(unit(1, None, 101, WlShellType::LayerShell, vec![20]));
    assert_eq!(r.last_unit_index, 1);
    assert_eq!(r.last_output(), Some(20));
    r.push_window(unit(2, None, 102, WlShellType::LayerShell, vec![10]));
    assert_eq!(r.last_unit_index, 0);
    assert_eq!(r.last_output(), Some(20));
    r.forget_last_output();
    assert_eq!(r.last_output(), Some(10));
}

#[test]
fn last_output_falls_back_to_first_output() {
    let mut r = WindowRegistry::new();
    r.last_unit_index = 5;
    r.new_output(7);
    assert_eq!(r.last_output(), Some(7));
    assert_eq!(r.last_output, None);
    let mut empty = WindowRegistry::new();
    assert_eq!(empty.last_output(), None);
}

#[test]
fn resolve_output_options() {
    let mut r = WindowRegistry::new();
    r.new_output(10);
    r.new_output(20);
    let infos = vec![
        OutputLabel { global: 10, name: Some("DP-1".to_string()) },
        OutputLabel { global: 20, name: Some("HDMI-A-1".to_string()) },
    ];
    assert_eq!(r.resolve_output(OutputOption::Output(30), &infos), Some(30));
    assert_eq!(r.resolve_output(OutputOption::Active, &infos), None);
    assert_eq!(r.resolve_output(OutputOption::GlobalName(20), &infos), Some(20));
    assert_eq!(r.resolve_output(OutputOption::GlobalName(99), &infos), None);
    assert_eq!(r.resolve_output(OutputOption::OutputName("HDMI-A-1".to_string()), &infos), Some(20));
    assert_eq!(r.resolve_output(OutputOption::OutputName("HDMI-A-2".to_string()), &infos), None);
    assert_eq!(r.resolve_output(OutputOption::LastOutput, &infos), Some(10));
    assert_eq!(OutputOption::default(), OutputOption::Active);
}

#[test]
fn surface_enter_and_leave_report_output_changes() {
    let mut r = WindowRegistry::new();
    r.new_output(10);
    r.new_output(20);
    r.push_window(unit(1, None, 101, WlShellType::XdgTopLevel, vec![]));
    assert_eq!(r.surface_output_event(101, 10, true), Some((1, Some(10))));
    assert_eq!(r.surface_output_event(101, 20, true), None);
    assert_eq!(r.surface_output_event(101, 10, false), Some((1, Some(20))));
    assert_eq!(r.surface_output_event(101, 20, false), Some((1, None)));
    // an output the loop did not bind, and a surface of no unit, are ignored
    assert_eq!(r.surface_output_event(101, 30, true), None);
    assert_eq!(r.surface_output_event(999, 10, true), None);
    assert!(r.units[0].outputs.is_empty());
}

#[test]
fn layer_surface_keeps_its_last_output() {
    let mut r = WindowRegistry::new();
    r.new_output(10);
    r.new_output(20);
    r.push_window(unit(1, None, 101, WlShellType::LayerShell, vec![10]));
    assert_eq!(r.surface_output_event(101, 10, false), None);
    assert_eq!(r.units[0].outputs, vec![10]);
    assert_eq!(r.units[0].pending_leave, Some(10));
    assert_eq!(r.surface_output_event(101, 20, true), Some((1, Some(20))));
    assert_eq!(r.units[0].outputs, vec![20]);
}

#[test]
fn output_destroyed_closes_units_on_it_alone() {
    let mut r = WindowRegistry::new();
    r.new_output(10);
    r.new_output(20);
    r.push_window(unit(1, None, 101, WlShellType::LayerShell, vec![10]));
    r.push_window(unit(2, None, 102, WlShellType::LayerShell, vec![10, 20]));
    r.push_window(unit(3, None, 103, WlShellType::LayerShell, vec![20]));
    r.push_window(unit(4, None, 104, WlShellType::LayerShell, vec![20]));
    r.keyboard_enter(101);
    let removal = r.output_destroyed(10, true, &vec![104]);
    assert_eq!(removal.closed, vec![1, 4]);
    assert_eq!(removal.changed, vec![(2, Some(20))]);
    assert_eq!(ids(&r), vec![2, 3]);
    assert_eq!(r.units[0].outputs, vec![20]);
    assert_eq!(r.outputs, vec![20]);
    assert_eq!(r.keyboard_focus, None);
}

#[test]
fn output_destroyed_forgets_dead_last_output() {
    let mut r = WindowRegistry::new();
    r.new_output(10);
    r.new_output(20);
    assert_eq!(r.last_output(), Some(10));
    r.output_destroyed(10, false, &vec![]);
    assert_eq!(r.last_output, None);
    let mut kept = WindowRegistry::new();
    kept.new_output(10);
    kept.new_output(20);
    assert_eq!(kept.last_output(), Some(10));
    kept.output_destroyed(20, true, &vec![]);
    assert_eq!(kept.last_output, Some(10));
}

#[test]
fn units_on_output_in_order() {
    let mut r = WindowRegistry::new();
    r.push_window(unit(1, None, 101, WlShellType::LayerShell, vec![10]));
    r.push_window(unit(2, None, 102, WlShellType::LayerShell, vec![20]));
    r.push_window(unit(3, None, 103, WlShellType::LayerShell, vec![20, 10]));
    assert_eq!(r.units_on_output(10), vec![1, 3]);
    assert!(r.units_on_output(30).is_empty());
}

#[test]
fn remove_lock_units_keeps_others() {
    let mut r = WindowRegistry::new();
    r.push_window(unit(1, None, 101, WlShellType::LayerShell, vec![]));
    r.push_window(unit(2, None, 102, WlShellType::SessionLock, vec![]));
    r.push_window(unit(3, None, 103, WlShellType::SessionLock, vec![]));
    r.keyboard_enter(103);
    assert_eq!(r.remove_lock_units(), vec![2, 3]);
    assert_eq!(ids(&r), vec![1]);
    assert_eq!(r.keyboard_focus, None);
    assert!(r.remove_lock_units().is_empty());
}

#[test]
fn popup_parent_prefers_focus_then_pointer_then_touch_then_newest() {
    let mut r = WindowRegistry::new();
    assert_eq!(r.popup_parent_id(None, &vec![]), None);
    r.push_window(unit(1, None, 101, WlShellType::LayerShell, vec![]));
    r.push_window(unit(2, None, 102, WlShellType::LayerShell, vec![]));
    r.push_window(unit(3, None, 103, WlShellType::LayerShell, vec![]));
    assert_eq!(r.popup_parent_id(None, &vec![]), Some(3));
    assert_eq!(r.popup_parent_id(None, &vec![9, 2]), Some(2));
    assert_eq!(r.popup_parent_id(Some(9), &vec![2]), Some(2));
    assert_eq!(r.popup_parent_id(Some(1), &vec![2]), Some(1));
    r.keyboard_enter(102);
    assert_eq!(r.popup_parent_id(Some(1), &vec![3]), Some(2));
}

#[test]
fn get_id_from_surface_finds_owner() {
    let mut r = WindowRegistry::new();
    r.push_window(unit(1, None, 101, WlShellType::LayerShell, vec![]));
    assert_eq!(r.get_id_from_surface(101), Some(1));
    assert_eq!(r.get_id_from_surface(102), None);
    assert_eq!(r.unit_index(1), Some(0));
    assert_eq!(r.unit_index(2), None);
}

#[test]
fn close_plan_follows_unit_order_among_siblings() {
    let mut r = WindowRegistry::new();
    r.push_window(unit(1, None, 101, WlShellType::XdgTopLevel, vec![]));
    r.push_window(unit(2, Some(1), 102, WlShellType::PopUp, vec![]));
    r.push_window(unit(3, Some(1), 103, WlShellType::PopUp, vec![]));
    r.push_window(unit(4, Some(3), 104, WlShellType::PopUp, vec![]));
    r.push_window(unit(5, None, 105, WlShellType::LayerShell, vec![]));
    r.request_close(5);
    r.request_close(1);
    assert_eq!(r.close_plan(), vec![2, 4, 3, 1, 5]);
    let mut order = vec![3];
    r.collect_descendants_then_self(1, &mut order);
    assert_eq!(order, vec![3, 2, 1]);
}
