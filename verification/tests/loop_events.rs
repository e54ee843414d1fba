use clearframe::event::{handle_window_event, LoopAction, WindowEvent};

#[test]
fn close_request_exits() {
    let a = handle_window_event(&WindowEvent::CloseRequested);
    assert_eq!(a, LoopAction::Exit);
}

#[test]
fn escape_press_exits() {
    let a = handle_window_event(&WindowEvent::KeyboardInput { escape: true, pressed: true });
    assert_eq!(a, LoopAction::Exit);
}

#[test]
fn escape_release_is_ignored() {
    let a = handle_window_event(&WindowEvent::KeyboardInput { escape: true, pressed: false });
    assert_eq!(a, LoopAction::Ignore);
}

#[test]
fn other_key_press_is_ignored() {
    let a = handle_window_event(&WindowEvent::KeyboardInput { escape: false, pressed: true });
    assert_eq!(a, LoopAction::Ignore);
}

#[test]
fn size_change_resizes() {
    let a = handle_window_event(&WindowEvent::Resized { width: 640, height: 480 });
    assert_eq!(a, LoopAction::Resize { width: 640, height: 480 });
}

#[test]
fn redraw_request_redraws() {
    let a = handle_window_event(&WindowEvent::RedrawRequested);
    assert_eq!(a, LoopAction::Redraw);
}

#[test]
fn unrelated_events_are_ignored() {
    let a = handle_window_event(&WindowEvent::Other);
    assert_eq!(a, LoopAction::Ignore);
}
