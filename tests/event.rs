use rendiation::event::{listeners_for, InputEvent, ListenerKind, MouseButtonKind};

#[test]
fn resize_and_clear_reach_their_listeners() {
    assert_eq!(listeners_for(InputEvent::Resized), Some(ListenerKind::Resize));
    assert_eq!(
        listeners_for(InputEvent::EventsCleared),
        Some(ListenerKind::EventsCleared)
    );
    assert_eq!(
        listeners_for(InputEvent::MouseMotion),
        Some(ListenerKind::MouseMotion)
    );
}

#[test]
fn left_press_reaches_mouse_down_and_line_scroll_wheel_listeners() {
    let press = InputEvent::MouseInput {
        button: MouseButtonKind::Left,
        pressed: true,
    };
    assert_eq!(listeners_for(press), Some(ListenerKind::MouseDown));
    assert_eq!(
        listeners_for(InputEvent::MouseWheelLines),
        Some(ListenerKind::MouseWheel)
    );
}

#[test]
fn other_events_reach_no_listener() {
    let release = InputEvent::MouseInput {
        button: MouseButtonKind::Left,
        pressed: false,
    };
    let right = InputEvent::MouseInput {
        button: MouseButtonKind::Right,
        pressed: true,
    };
    assert_eq!(listeners_for(release), None);
    assert_eq!(listeners_for(right), None);
    assert_eq!(listeners_for(InputEvent::MouseWheelPixels), None);
    assert_eq!(listeners_for(InputEvent::CursorMoved), None);
    assert_eq!(listeners_for(InputEvent::Other), None);
}
