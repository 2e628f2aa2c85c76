use vstd::prelude::*;

verus! {

/// The listener lists of a window event session.
#[derive(PartialEq, Eq, Structural, Clone, Copy, Debug)]
pub enum ListenerKind {
    EventsCleared,
    MouseDown,
    MouseMotion,
    MouseWheel,
    Resize,
}

#[derive(PartialEq, Eq, Structural, Clone, Copy, Debug)]
pub enum MouseButtonKind {
    Left,
    Right,
    Other,
}

/// The window and device events that a session tells apart.
#[derive(PartialEq, Eq, Structural, Clone, Copy, Debug)]
pub enum InputEvent {
    Resized,
    MouseInput { button: MouseButtonKind, pressed: bool },
    /// A wheel scroll counted in lines.
    MouseWheelLines,
    /// A wheel scroll counted in pixels.
    MouseWheelPixels,
    CursorMoved,
    /// Raw pointer motion reported by the device.
    MouseMotion,
    /// All pending events of this round have been handled.
    EventsCleared,
    Other,
}

/// Which listeners an event reaches. A left button press reaches the
/// mouse-down listeners and a wheel scroll counted in lines the wheel
/// listeners; a release, a right or other button, a pixel scroll and cursor
/// moves reach none.
pub open spec fn routed(e: InputEvent) -> Option<ListenerKind> {
    match e {
        InputEvent::Resized => Some(ListenerKind::Resize),
        InputEvent::MouseInput { button, pressed } => if button == MouseButtonKind::Left
            && pressed {
            Some(ListenerKind::MouseDown)
        } else {
            None
        },
        InputEvent::MouseWheelLines => Some(ListenerKind::MouseWheel),
        InputEvent::MouseMotion => Some(ListenerKind::MouseMotion),
        InputEvent::EventsCleared => Some(ListenerKind::EventsCleared),
        _ => None,
    }
}

pub fn listeners_for(e: InputEvent) -> (r: Option<ListenerKind>)
    ensures
        r == routed(e),
{
    match e {
        InputEvent::Resized => Some(ListenerKind::Resize),
        InputEvent::MouseInput { button: MouseButtonKind::Left, pressed: true } => Some(
            ListenerKind::MouseDown,
        ),
        InputEvent::MouseWheelLines => Some(ListenerKind::MouseWheel),
        InputEvent::MouseMotion => Some(ListenerKind::MouseMotion),
        InputEvent::EventsCleared => Some(ListenerKind::EventsCleared),
        _ => None,
    }
}

} // verus!
