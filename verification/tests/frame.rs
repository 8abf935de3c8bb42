use cubeview::frame::{after_frame, Flow, WindowEvent};

#[test]
fn loop_goes_on_without_events() {
    assert_eq!(after_frame(&[]), Flow::Continue);
}

#[test]
fn loop_goes_on_after_other_events() {
    assert_eq!(after_frame(&[WindowEvent::Other, WindowEvent::Other]), Flow::Continue);
}

#[test]
fn loop_ends_on_close() {
    assert_eq!(after_frame(&[WindowEvent::Closed]), Flow::Exit);
}

#[test]
fn loop_ends_on_close_among_other_events() {
    assert_eq!(
        after_frame(&[WindowEvent::Other, WindowEvent::Closed, WindowEvent::Other]),
        Flow::Exit
    );
    assert_eq!(after_frame(&[WindowEvent::Other, WindowEvent::Other, WindowEvent::Closed]), Flow::Exit);
}
