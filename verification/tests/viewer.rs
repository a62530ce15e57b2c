use raytrace_gl::viewer::{dispatch_groups, ViewerAction, ViewerState, WindowInput};

#[test]
fn dispatch_rounds_up() {
    assert_eq!(dispatch_groups(800, 600), (100, 75));
    assert_eq!(dispatch_groups(801, 1), (101, 1));
    assert_eq!(dispatch_groups(0, 7), (0, 1));
    assert_eq!(dispatch_groups(u32::MAX - 7, 8), (u32::MAX / 8, 1));
}

#[test]
fn first_cursor_move_never_drags() {
    let mut v = ViewerState::new(800, 600);
    assert_eq!(v.handle(WindowInput::MouseInput { left: true, pressed: true }), ViewerAction::Nothing);
    assert_eq!(v.handle(WindowInput::CursorMoved), ViewerAction::Nothing);
    assert_eq!(v.handle(WindowInput::CursorMoved), ViewerAction::Orbit);
}

#[test]
fn drag_orbits_or_zooms() {
    let mut v = ViewerState::new(800, 600);
    v.handle(WindowInput::CursorMoved);
    assert_eq!(v.handle(WindowInput::CursorMoved), ViewerAction::Nothing);
    v.handle(WindowInput::MouseInput { left: true, pressed: true });
    assert_eq!(v.handle(WindowInput::CursorMoved), ViewerAction::Orbit);
    v.handle(WindowInput::ModifiersChanged { shift: true });
    assert_eq!(v.handle(WindowInput::CursorMoved), ViewerAction::Zoom);
    v.handle(WindowInput::MouseInput { left: false, pressed: false });
    assert_eq!(v.handle(WindowInput::CursorMoved), ViewerAction::Zoom);
    v.handle(WindowInput::MouseInput { left: true, pressed: false });
    assert_eq!(v.handle(WindowInput::CursorMoved), ViewerAction::Nothing);
}

#[test]
fn resize_accepts_only_nonempty_sizes() {
    let mut v = ViewerState::new(800, 600);
    assert_eq!(v.handle(WindowInput::Resized { width: 0, height: 300 }), ViewerAction::Nothing);
    assert_eq!(v.handle(WindowInput::Resized { width: 300, height: 0 }), ViewerAction::Nothing);
    assert_eq!((v.width(), v.height()), (800, 600));
    assert_eq!(v.handle(WindowInput::Resized { width: 1024, height: 768 }), ViewerAction::Resize { width: 1024, height: 768 });
    assert_eq!((v.width(), v.height()), (1024, 768));
}

#[test]
fn other_events() {
    let mut v = ViewerState::new(10, 10);
    assert_eq!(v.handle(WindowInput::CloseRequested), ViewerAction::Shutdown);
    assert_eq!(v.handle(WindowInput::RedrawRequested), ViewerAction::Redraw);
    assert_eq!(v.handle(WindowInput::Other), ViewerAction::Nothing);
}
