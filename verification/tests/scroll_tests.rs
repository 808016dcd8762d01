use exwlshellev::pointer::{AxisSide, AxisSignal, AxisTally, PointerFrame};
use exwlshellev::scroll::{
    begin_current, current, end_current, with_current, Axes, AxisDetail, DeliverStop, Frame, RelativeDirection,
    ScrollContext, Source, Stop, StopReceiver,
};

fn axis(direction: Option<RelativeDirection>, stop: bool) -> AxisDetail {
    AxisDetail { relative_direction: direction, stop }
}

#[test]
fn sources_from_wire_values() {
    assert_eq!(Source::from_wayland(0), Some(Source::Wheel));
    assert_eq!(Source::from_wayland(1), Some(Source::Finger));
    assert_eq!(Source::from_wayland(2), Some(Source::Continuous));
    assert_eq!(Source::from_wayland(3), Some(Source::WheelTilt));
    assert_eq!(Source::from_wayland(4), None);
}

#[test]
fn axes_any() {
    assert!(!Axes { x: false, y: false }.any());
    assert!(Axes { x: false, y: true }.any());
    assert!(Axes { x: true, y: false }.any());
}

#[test]
fn frame_reads_directions() {
    let f = Frame::new(
        Some(7),
        Some(1),
        &axis(Some(RelativeDirection::Inverted), false),
        &axis(Some(RelativeDirection::Identical), false),
    );
    assert_eq!(f.time, Some(7));
    assert_eq!(f.source, Some(Source::Finger));
    assert_eq!(f.inverted, Axes { x: true, y: false });
    let g = Frame::new(None, Some(9), &axis(None, false), &axis(Some(RelativeDirection::Inverted), false));
    assert_eq!(g.source, None);
    assert_eq!(g.inverted, Axes { x: false, y: true });
}

#[test]
fn stops_only_when_an_axis_stopped() {
    assert_eq!(Stop::new(Some(3), &axis(None, false), &axis(None, false)), None);
    let s = Stop::new(Some(3), &axis(None, false), &axis(None, true)).unwrap();
    assert_eq!(s.time, Some(3));
    assert_eq!(s.axes, Axes { x: false, y: true });
}

#[test]
fn stops_merge_latest_time_and_all_axes() {
    let a = Stop { time: Some(1), axes: Axes { x: true, y: false } };
    let b = Stop { time: None, axes: Axes { x: false, y: true } };
    let c = Stop { time: Some(5), axes: Axes { x: false, y: false } };
    assert_eq!(a.merge(b), Stop { time: Some(1), axes: Axes { x: true, y: true } });
    assert_eq!(a.merge(c), Stop { time: Some(5), axes: Axes { x: true, y: false } });
    assert_eq!(a.merge(b).merge(c), a.merge(b.merge(c)));
}

#[test]
fn claims_reach_the_handler_and_are_undone() {
    let mut ctx = ScrollContext::new();
    let receiver = StopReceiver::new(&mut ctx);
    let other = StopReceiver::new(&mut ctx);
    assert_eq!(receiver.owner, 0);
    assert_eq!(other.owner, 1);
    assert!(!receiver.claim(&mut ctx));
    assert_eq!(current(&ctx), None);
    let frame = Frame::new(Some(1), Some(1), &axis(None, false), &axis(None, false));
    let saved = begin_current(&mut ctx, Some(frame));
    assert_eq!(current(&ctx), Some(frame));
    assert!(other.claim(&mut ctx));
    let claim = end_current(&mut ctx, saved);
    assert_eq!(claim, Some(1));
    assert_eq!(ctx.current, None);
    assert_eq!(ctx.claim, None);
}

#[test]
fn stops_are_delivered_to_their_owner_and_merged() {
    let mut ctx = ScrollContext::new();
    let mut mine = StopReceiver::new(&mut ctx);
    let mut theirs = StopReceiver::new(&mut ctx);
    let first = Stop { time: Some(1), axes: Axes { x: true, y: false } };
    let second = Stop { time: Some(2), axes: Axes { x: false, y: true } };
    let mut d = DeliverStop::new(mine.owner, first);
    assert!(d.traverse());
    d.offer(&mut theirs);
    assert!(!d.delivered());
    d.offer(&mut mine);
    assert!(d.delivered());
    assert!(!d.traverse());
    let mut d2 = DeliverStop::new(mine.owner, second);
    d2.offer(&mut mine);
    assert_eq!(mine.take_stop(), Some(first.merge(second)));
    assert_eq!(mine.take_stop(), None);
    assert_eq!(theirs.take_stop(), None);
}

#[test]
fn axis_events_fold_into_one_frame() {
    let mut t = AxisTally::new();
    assert_eq!(t.accumulate(AxisSignal::AxisSource { source: 1 }), None);
    assert_eq!(t.accumulate(AxisSignal::Axis { time: 50, axis: 0 }), Some(AxisSide::Vertical));
    assert_eq!(t.accumulate(AxisSignal::Axis { time: 60, axis: 1 }), Some(AxisSide::Horizontal));
    t.accumulate(AxisSignal::AxisValue120 { axis: 0, value120: 120 });
    t.accumulate(AxisSignal::AxisValue120 { axis: 0, value120: -60 });
    t.accumulate(AxisSignal::AxisDiscrete { axis: 1, discrete: 2 });
    t.accumulate(AxisSignal::AxisRelativeDirection { axis: 0, direction: 1 });
    t.accumulate(AxisSignal::AxisRelativeDirection { axis: 1, direction: 7 });
    t.accumulate(AxisSignal::AxisStop { time: 70, axis: 1 });
    assert_eq!(t.accumulate(AxisSignal::Axis { time: 80, axis: 5 }), None);
    assert_eq!(t.time, Some(50));
    assert_eq!(t.source, Some(Source::Finger));
    assert_eq!(t.vertical.value120, 60);
    assert_eq!(t.vertical.relative_direction, Some(RelativeDirection::Inverted));
    assert_eq!(t.horizontal.discrete, 2);
    assert_eq!(t.horizontal.relative_direction, None);
    assert!(t.horizontal.stop);
    assert!(!t.vertical.stop);
}

#[test]
fn pointer_frame_keeps_order_with_scroll_in_place() {
    let mut frame: PointerFrame<&str> = PointerFrame::new();
    frame.push(Some(1), "enter");
    frame.note_axis(Some(1));
    frame.push(Some(1), "motion");
    frame.note_axis(Some(2));
    frame.push(None, "button");
    let out = frame.into_messages(Some("scroll"));
    assert_eq!(out, vec![(Some(1), "enter"), (Some(1), "scroll"), (Some(1), "motion"), (None, "button")]);
    let mut plain: PointerFrame<&str> = PointerFrame::new();
    plain.push(None, "leave");
    assert_eq!(plain.into_messages(Some("scroll")), vec![(None, "leave")]);
}

#[test]
fn a_run_of_stops_is_taken_as_one() {
    let mut ctx = ScrollContext::new();
    let mut r = StopReceiver::new(&mut ctx);
    let stops = [
        Stop { time: Some(4), axes: Axes { x: false, y: true } },
        Stop { time: Some(9), axes: Axes { x: false, y: false } },
        Stop { time: None, axes: Axes { x: true, y: false } },
    ];
    for s in stops {
        let mut d = DeliverStop::new(r.owner, s);
        d.offer(&mut r);
        assert!(d.delivered());
    }
    assert_eq!(r.take_stop(), Some(Stop { time: Some(9), axes: Axes { x: true, y: true } }));
    assert_eq!(r.take_stop(), None);
}

#[test]
fn nested_handling_does_not_leak_claims() {
    let mut ctx = ScrollContext::new();
    let outer = StopReceiver::new(&mut ctx);
    let inner = StopReceiver::new(&mut ctx);
    let frame = Frame::new(Some(1), Some(0), &axis(None, false), &axis(None, false));
    let saved = begin_current(&mut ctx, Some(frame));
    assert!(outer.claim(&mut ctx));
    let nested_frame = Frame::new(Some(2), Some(1), &axis(None, false), &axis(None, false));
    let nested = begin_current(&mut ctx, Some(nested_frame));
    assert!(inner.claim(&mut ctx));
    assert_eq!(end_current(&mut ctx, nested), Some(inner.owner));
    assert_eq!(current(&ctx), Some(frame));
    assert_eq!(end_current(&mut ctx, saved), Some(outer.owner));
    assert_eq!(ctx.current, None);
    assert_eq!(ctx.claim, None);
    // a handling without a frame hands back no owner
    let saved = begin_current(&mut ctx, None);
    assert!(!outer.claim(&mut ctx));
    assert_eq!(end_current(&mut ctx, saved), None);
}

#[test]
fn with_current_runs_the_handler_once() {
    let mut ctx = ScrollContext::new();
    let outer = StopReceiver::new(&mut ctx);
    let inner = StopReceiver::new(&mut ctx);
    let frame = Frame::new(Some(1), Some(0), &axis(None, false), &axis(None, false));
    let nested_frame = Frame::new(Some(2), Some(1), &axis(None, false), &axis(None, false));
    let mut calls = 0;
    let (seen, claim) = with_current(&mut ctx, Some(frame), |mut c: ScrollContext| {
        calls += 1;
        let seen = current(&c);
        assert!(outer.claim(&mut c));
        let (_, nested_claim) = with_current(&mut c, Some(nested_frame), |mut d: ScrollContext| {
            assert!(inner.claim(&mut d));
            ((), d)
        });
        assert_eq!(nested_claim, Some(inner.owner));
        (seen, c)
    });
    assert_eq!(calls, 1);
    assert_eq!(seen, Some(frame));
    assert_eq!(claim, Some(outer.owner));
    assert_eq!(ctx.current, None);
    assert_eq!(ctx.claim, None);
    let (_, none) = with_current(&mut ctx, None, |mut c: ScrollContext| {
        assert!(!outer.claim(&mut c));
        ((), c)
    });
    assert_eq!(none, None);
}
