use exwlshellev::outputs::{enter_output, leave_output, output_change};

#[test]
fn enter_adds_output_once() {
    let mut outputs = vec![1];
    let mut held = None;
    enter_output(&mut outputs, &mut held, 2);
    enter_output(&mut outputs, &mut held, 2);
    assert_eq!(outputs, vec![1, 2]);
}

#[test]
fn pinned_surface_keeps_last_output() {
    let mut outputs = vec![1];
    let mut held = None;
    leave_output(&mut outputs, &mut held, true, 1);
    assert_eq!(outputs, vec![1]);
    assert_eq!(held, Some(1));
    enter_output(&mut outputs, &mut held, 2);
    assert_eq!(outputs, vec![2]);
    assert_eq!(held, None);
}

#[test]
fn unpinned_surface_leaves() {
    let mut outputs = vec![1];
    let mut held = None;
    leave_output(&mut outputs, &mut held, false, 1);
    assert!(outputs.is_empty());
    assert_eq!(held, None);
}

#[test]
fn output_change_notices() {
    assert_eq!(output_change(Some(1), &vec![1, 2]), None);
    assert_eq!(output_change(Some(1), &vec![2]), Some(Some(2)));
    assert_eq!(output_change(Some(1), &vec![]), Some(None));
    assert_eq!(output_change(None, &vec![]), None);
}
