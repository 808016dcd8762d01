use exwlshellev::units::WlShellType;
use exwlshellev::refresh::try_present;
use exwlshellev::refresh::{
    earliest_request, min_dispatch_timeout, PresentAvailableState, PresentSchedule, RefreshRequest,
};

#[test]
fn refresh_requests_fold_to_most_urgent() {
    assert_eq!(earliest_request(RefreshRequest::At(5), RefreshRequest::At(3)), RefreshRequest::At(3));
    assert_eq!(earliest_request(RefreshRequest::Wait, RefreshRequest::At(3)), RefreshRequest::At(3));
    assert_eq!(earliest_request(RefreshRequest::At(3), RefreshRequest::NextFrame), RefreshRequest::NextFrame);
    assert_eq!(earliest_request(RefreshRequest::NextFrame, RefreshRequest::Wait), RefreshRequest::NextFrame);
    assert_eq!(RefreshRequest::default(), RefreshRequest::Wait);
}

#[test]
fn unconfigured_surface_never_presents() {
    let mut s = PresentSchedule::new();
    s.request_refresh(RefreshRequest::NextFrame);
    assert_eq!(s.refresh_timeout(0), None);
    assert!(!s.take_present_slot(0));
}

#[test]
fn present_cycle_waits_for_frame_callback() {
    let mut s = PresentSchedule::new();
    s.configure();
    assert_eq!(s.refresh_timeout(10), Some(0));
    assert!(s.take_present_slot(10));
    assert_eq!(s.refresh, RefreshRequest::Wait);
    assert!(s.request_next_present());
    assert_eq!(s.present, PresentAvailableState::Requested);
    s.request_refresh(RefreshRequest::NextFrame);
    assert_eq!(s.refresh_timeout(11), None);
    assert!(!s.take_present_slot(11));
    s.frame_done();
    assert!(s.take_present_slot(12));
}

#[test]
fn timed_refresh_sleeps_until_due() {
    let mut s = PresentSchedule::new();
    s.configure();
    assert!(s.take_present_slot(0));
    s.frame_done();
    s.request_refresh(RefreshRequest::At(100));
    assert_eq!(s.refresh_timeout(40), Some(60));
    assert!(!s.should_refresh(40));
    assert!(s.should_refresh(100));
}

#[test]
fn reset_gives_slot_back() {
    let mut s = PresentSchedule::new();
    s.configure();
    assert!(s.take_present_slot(0));
    assert!(s.reset_present_slot());
    assert!(!s.reset_present_slot());
    assert_eq!(s.present, PresentAvailableState::Available);
}

#[test]
fn min_timeout_over_units() {
    let mut a = PresentSchedule::new();
    a.configure();
    assert!(a.take_present_slot(0));
    a.frame_done();
    a.request_refresh(RefreshRequest::At(50));
    let mut b = PresentSchedule::new();
    b.configure();
    assert!(b.take_present_slot(0));
    b.frame_done();
    b.request_refresh(RefreshRequest::At(30));
    let idle = PresentSchedule::new();
    assert_eq!(min_dispatch_timeout(&[a, b, idle], 10), Some(20));
    assert_eq!(min_dispatch_timeout(&[idle], 10), None);
    let mut now = PresentSchedule::new();
    now.configure();
    assert_eq!(min_dispatch_timeout(&[a, now], 10), Some(0));
}

#[test]
fn input_panels_start_configured() {

    let panel = PresentSchedule::for_shell(WlShellType::InputPanel);
    assert!(panel.configured);
    let layer = PresentSchedule::for_shell(WlShellType::LayerShell);
    assert!(!layer.configured);
}

#[test]
fn surfaces_without_size_are_skipped() {

    let mut s = PresentSchedule::new();
    s.configure();
    assert!(!try_present(0, 100, &mut s, 0));
    assert_eq!(s.refresh, RefreshRequest::NextFrame);
    assert!(try_present(100, 100, &mut s, 0));
    assert_eq!(s.present, PresentAvailableState::Taken);
    assert!(!try_present(100, 100, &mut s, 1));
}
