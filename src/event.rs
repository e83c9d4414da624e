use vstd::prelude::*;

verus! {

/// A platform window or input event, as the window layer reports it.
#[derive(Clone, Copy, Debug, PartialEq, Eq, Structural)]
pub enum WindowEvent {
    /// The user asked to close the window.
    CloseRequested,
    /// The drawable area changed to this width and height, in pixels.
    Resized(u32, u32),
    /// The window gained (`true`) or lost (`false`) focus.
    Focused(bool),
    /// The cursor moved to this position, in pixels.
    CursorMoved(i32, i32),
    /// A key, by scan code, went down (`true`) or up (`false`).
    Key(u32, bool),
    /// A character of text input.
    Text(char),
    /// The window was minimized (`true`) or restored (`false`).
    Minimized(bool),
}

/// An event as the application sees it.
#[derive(Clone, Copy, Debug, PartialEq, Eq, Structural)]
pub enum StateEvent {
    /// An event of the window or of its input devices.
    Window(WindowEvent),
    /// An event raised by the UI layer.
    Ui,
    /// An event of the input bindings.
    Input,
}

/// The raw input that a sequence of events hands to the UI layer, in order:
/// the window events among them.
pub open spec fn forwarded(events: Seq<StateEvent>) -> Seq<WindowEvent>
    decreases events.len(),
{
    if events.len() == 0 {
        Seq::empty()
    } else {
        forwarded(events.drop_last()) + match events.last() {
            StateEvent::Window(w) => seq![w],
            _ => Seq::empty(),
        }
    }
}

/// Whether a window event is a request to close the window.
pub fn is_close_requested(event: &WindowEvent) -> (r: bool)
    ensures
        r == (*event is CloseRequested),
{
    match event {
        WindowEvent::CloseRequested => true,
        _ => false,
    }
}

/// The raw input that an event hands to the UI layer: the window event it
/// carries, if any.
pub fn ui_input(event: &StateEvent) -> (r: Option<WindowEvent>)
    ensures
        r == (match *event {
            StateEvent::Window(w) => Some(w),
            _ => None,
        }),
{
    match event {
        StateEvent::Window(w) => Some(*w),
        _ => None,
    }
}

} // verus!
