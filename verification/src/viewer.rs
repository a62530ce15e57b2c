//! The viewer's reactions to window input, and the size of the compute
//! dispatch that fills the window.
//!
//! The window system delivers events; the viewer decides what each one asks
//! for. The camera arithmetic on cursor positions is done by the caller;
//! here are the decisions: which events resize, redraw or shut down, and when
//! a cursor move drags the camera and whether the drag orbits or zooms.
use vstd::prelude::*;

verus! {

/// A window event, reduced to what the viewer's decisions read.
#[derive(PartialEq, Eq, Structural, Debug, Clone, Copy)]
pub enum WindowInput {
    /// The user asked to close the window.
    CloseRequested,
    /// The window's inner size changed.
    Resized { width: u32, height: u32 },
    /// The window system asks for a new frame.
    RedrawRequested,
    /// A mouse button changed state; `left` tells whether it is the left button.
    MouseInput { left: bool, pressed: bool },
    /// The keyboard modifiers changed; `shift` tells whether shift is held.
    ModifiersChanged { shift: bool },
    /// The cursor moved inside the window.
    CursorMoved,
    /// Any other event.
    Other,
}

/// What an event asks the viewer to do.
#[derive(PartialEq, Eq, Structural, Debug, Clone, Copy)]
pub enum ViewerAction {
    /// Release the GPU objects and leave the event loop.
    Shutdown,
    /// Resize the surface and the output image to the new size.
    Resize { width: u32, height: u32 },
    /// Render and present a frame, then ask for the next one.
    Redraw,
    /// Orbit the camera by the cursor's travel since its last position.
    Orbit,
    /// Zoom the camera by the cursor's vertical travel since its last position.
    Zoom,
    /// Nothing to do.
    Nothing,
}

/// The abstract state of the viewer's input handling.
pub struct ViewerInfo {
    pub width: u32,
    pub height: u32,
    /// The left mouse button is held.
    pub mouse_down: bool,
    /// A shift key is held.
    pub shift_down: bool,
    /// A cursor position has been seen since the viewer started.
    pub has_cursor: bool,
}

/// The state right after the viewer opens a window of the given size.
pub open spec fn initial_viewer(width: u32, height: u32) -> ViewerInfo {
    ViewerInfo { width, height, mouse_down: false, shift_down: false, has_cursor: false }
}

/// What event `e` asks for in state `s`.
pub open spec fn action_for(s: ViewerInfo, e: WindowInput) -> ViewerAction {
    match e {
        WindowInput::CloseRequested => ViewerAction::Shutdown,
        WindowInput::Resized { width, height } => if width > 0 && height > 0 {
            ViewerAction::Resize { width, height }
        } else {
            ViewerAction::Nothing
        },
        WindowInput::RedrawRequested => ViewerAction::Redraw,
        WindowInput::CursorMoved => if s.mouse_down && s.has_cursor {
            if s.shift_down {
                ViewerAction::Zoom
            } else {
                ViewerAction::Orbit
            }
        } else {
            ViewerAction::Nothing
        },
        _ => ViewerAction::Nothing,
    }
}

/// The state after event `e` in state `s`.
pub open spec fn viewer_after(s: ViewerInfo, e: WindowInput) -> ViewerInfo {
    match e {
        WindowInput::Resized { width, height } => if width > 0 && height > 0 {
            ViewerInfo { width, height, ..s }
        } else {
            s
        },
        WindowInput::MouseInput { left, pressed } => if left {
            ViewerInfo { mouse_down: pressed, ..s }
        } else {
            s
        },
        WindowInput::ModifiersChanged { shift } => ViewerInfo { shift_down: shift, ..s },
        WindowInput::CursorMoved => ViewerInfo { has_cursor: true, ..s },
        _ => s,
    }
}

/// The state after the events `events`, one after the other.
pub open spec fn viewer_run(s: ViewerInfo, events: Seq<WindowInput>) -> ViewerInfo
    decreases events.len(),
{
    if events.len() == 0 {
        s
    } else {
        viewer_run(viewer_after(s, events[0]), events.drop_first())
    }
}

/// The input state of the viewer.
pub struct ViewerState {
    width: u32,
    height: u32,
    mouse_down: bool,
    shift_down: bool,
    has_cursor: bool,
}

impl View for ViewerState {
    type V = ViewerInfo;

    closed spec fn view(&self) -> ViewerInfo {
        ViewerInfo {
            width: self.width,
            height: self.height,
            mouse_down: self.mouse_down,
            shift_down: self.shift_down,
            has_cursor: self.has_cursor,
        }
    }
}

impl ViewerState {
    /// The state of a viewer that opens a window of the given size.
    pub fn new(width: u32, height: u32) -> (viewer: ViewerState)
        ensures
            viewer@ == initial_viewer(width, height),
            viewer@.width == width && viewer@.height == height,
            !viewer@.mouse_down && !viewer@.shift_down && !viewer@.has_cursor,
    {
        ViewerState { width, height, mouse_down: false, shift_down: false, has_cursor: false }
    }

    /// The width of the window as last accepted.
    pub fn width(&self) -> (width: u32)
        ensures
            width == self@.width,
    {
        self.width
    }

    /// The height of the window as last accepted.
    pub fn height(&self) -> (height: u32)
        ensures
            height == self@.height,
    {
        self.height
    }

    /// Takes in one window event and says what it asks for.
    pub fn handle(&mut self, event: WindowInput) -> (action: ViewerAction)
        ensures
            action == action_for(old(self)@, event),
            final(self)@ == viewer_after(old(self)@, event),
            match event {
                WindowInput::MouseInput { left, pressed } => {
                    &&& final(self)@.mouse_down == if left { pressed } else { old(self)@.mouse_down }
                    &&& action == ViewerAction::Nothing
                },
                WindowInput::ModifiersChanged { shift } => {
                    &&& final(self)@.shift_down == shift
                    &&& action == ViewerAction::Nothing
                },
                WindowInput::CursorMoved => {
                    &&& final(self)@.has_cursor
                    &&& action == if old(self)@.mouse_down && old(self)@.has_cursor {
                        if old(self)@.shift_down {
                            ViewerAction::Zoom
                        } else {
                            ViewerAction::Orbit
                        }
                    } else {
                        ViewerAction::Nothing
                    }
                },
                _ => true,
            },
            !(event is MouseInput && event->left) ==> final(self)@.mouse_down == old(self)@.mouse_down,
            !(event is ModifiersChanged) ==> final(self)@.shift_down == old(self)@.shift_down,
    {
        match event {
            WindowInput::CloseRequested => ViewerAction::Shutdown,
            WindowInput::Resized { width, height } => {
                if width > 0 && height > 0 {
                    self.width = width;
                    self.height = height;
                    ViewerAction::Resize { width, height }
                } else {
                    ViewerAction::Nothing
                }
            },
            WindowInput::RedrawRequested => ViewerAction::Redraw,
            WindowInput::MouseInput { left, pressed } => {
                if left {
                    self.mouse_down = pressed;
                }
                ViewerAction::Nothing
            },
            WindowInput::ModifiersChanged { shift } => {
                self.shift_down = shift;
                ViewerAction::Nothing
            },
            WindowInput::CursorMoved => {
                let action = if self.mouse_down && self.has_cursor {
                    if self.shift_down {
                        ViewerAction::Zoom
                    } else {
                        ViewerAction::Orbit
                    }
                } else {
                    ViewerAction::Nothing
                };
                self.has_cursor = true;
                action
            },
            WindowInput::Other => ViewerAction::Nothing,
        }
    }
}

/// The number of work groups of eight by eight invocations that cover a
/// `width` by `height` image, rounding up in each direction.
pub fn dispatch_groups(width: u32, height: u32) -> (groups: (u32, u32))
    requires
        width + 7 <= u32::MAX,
        height + 7 <= u32::MAX,
    ensures
        groups.0 == (width + 7) / 8,
        groups.1 == (height + 7) / 8,
        width <= groups.0 * 8 < width + 8,
        height <= groups.1 * 8 < height + 8,
{
    ((width + 7) / 8, (height + 7) / 8)
}

/// A cursor move drags the camera only while the left button is held and a
/// previous cursor position is known; the drag zooms exactly when shift is
/// held, and orbits otherwise.
pub proof fn lemma_drag_needs_button_and_position(s: ViewerInfo, e: WindowInput)
    ensures
        (action_for(s, e) == ViewerAction::Orbit || action_for(s, e) == ViewerAction::Zoom) ==> {
            &&& e == WindowInput::CursorMoved
            &&& s.mouse_down
            &&& s.has_cursor
            &&& (action_for(s, e) == ViewerAction::Zoom <==> s.shift_down)
        },
{
}

/// Every cursor move is remembered, so the first move after the viewer
/// starts, whatever came before it, never makes the camera jump.
pub proof fn lemma_first_move_never_drags(width: u32, height: u32, events: Seq<WindowInput>)
    requires
        forall|i: int| 0 <= i < events.len() ==> events[i] != WindowInput::CursorMoved,
    ensures
        action_for(viewer_run(initial_viewer(width, height), events), WindowInput::CursorMoved)
            == ViewerAction::Nothing,
        viewer_after(
            viewer_run(initial_viewer(width, height), events),
            WindowInput::CursorMoved,
        ).has_cursor,
{
    lemma_run_without_moves(initial_viewer(width, height), events);
}

/// Events other than cursor moves leave the knowledge of a cursor position as it is.
proof fn lemma_run_without_moves(s: ViewerInfo, events: Seq<WindowInput>)
    requires
        forall|i: int| 0 <= i < events.len() ==> events[i] != WindowInput::CursorMoved,
    ensures
        viewer_run(s, events).has_cursor == s.has_cursor,
    decreases events.len(),
{
    if events.len() > 0 {
        assert(events[0] != WindowInput::CursorMoved);
        lemma_run_without_moves(viewer_after(s, events[0]), events.drop_first());
    }
}

/// Only the left button holds a drag: a left-button event sets whether the
/// button is held to whether it was pressed, any other button changes
/// nothing at all; no button event asks for anything.
pub proof fn lemma_only_left_button_drags(s: ViewerInfo, left: bool, pressed: bool)
    ensures
        action_for(s, WindowInput::MouseInput { left, pressed }) == ViewerAction::Nothing,
        left ==> viewer_after(s, WindowInput::MouseInput { left, pressed }) == (ViewerInfo {
            mouse_down: pressed,
            ..s
        }),
        !left ==> viewer_after(s, WindowInput::MouseInput { left, pressed }) == s,
        !left ==> action_for(
            viewer_after(s, WindowInput::MouseInput { left, pressed }),
            WindowInput::CursorMoved,
        ) == action_for(s, WindowInput::CursorMoved),
{
}

/// A change of the modifiers records whether shift is held now, whatever was
/// held before, and touches nothing else; so after shift is released a drag
/// orbits, and while it is held a drag zooms.
pub proof fn lemma_shift_follows_modifiers(s: ViewerInfo, shift: bool)
    ensures
        viewer_after(s, WindowInput::ModifiersChanged { shift }).shift_down == shift,
        viewer_after(s, WindowInput::ModifiersChanged { shift }) == (ViewerInfo {
            shift_down: shift,
            ..s
        }),
        action_for(s, WindowInput::ModifiersChanged { shift }) == ViewerAction::Nothing,
        s.mouse_down && s.has_cursor ==> action_for(
            viewer_after(s, WindowInput::ModifiersChanged { shift }),
            WindowInput::CursorMoved,
        ) == if shift {
            ViewerAction::Zoom
        } else {
            ViewerAction::Orbit
        },
{
}

/// A cursor move records that a position is known and changes nothing else;
/// it drags exactly when the left button is held and a position was known
/// before, zooming with shift held and orbiting without.
pub proof fn lemma_cursor_move(s: ViewerInfo)
    ensures
        viewer_after(s, WindowInput::CursorMoved) == (ViewerInfo { has_cursor: true, ..s }),
        !(s.mouse_down && s.has_cursor) ==> action_for(s, WindowInput::CursorMoved)
            == ViewerAction::Nothing,
        s.mouse_down && s.has_cursor && s.shift_down ==> action_for(s, WindowInput::CursorMoved)
            == ViewerAction::Zoom,
        s.mouse_down && s.has_cursor && !s.shift_down ==> action_for(s, WindowInput::CursorMoved)
            == ViewerAction::Orbit,
{
}

/// A resize to a size with no zero side is taken: the viewer records the new
/// size, asks to resize to exactly it, and changes nothing else.
pub proof fn lemma_resize_taken(s: ViewerInfo, width: u32, height: u32)
    requires
        width > 0,
        height > 0,
    ensures
        action_for(s, WindowInput::Resized { width, height }) == (ViewerAction::Resize {
            width,
            height,
        }),
        viewer_after(s, WindowInput::Resized { width, height }) == (ViewerInfo {
            width,
            height,
            ..s
        }),
{
}

/// Closing, redrawing and other events change no state: closing asks to shut
/// down, a redraw request asks for a frame, anything else asks for nothing.
pub proof fn lemma_stateless_events(s: ViewerInfo)
    ensures
        action_for(s, WindowInput::CloseRequested) == ViewerAction::Shutdown,
        viewer_after(s, WindowInput::CloseRequested) == s,
        action_for(s, WindowInput::RedrawRequested) == ViewerAction::Redraw,
        viewer_after(s, WindowInput::RedrawRequested) == s,
        action_for(s, WindowInput::Other) == ViewerAction::Nothing,
        viewer_after(s, WindowInput::Other) == s,
{
}

/// The size changes only on an accepted resize, whether the left button is
/// held only on a left-button event, whether shift is held only on a
/// modifiers change, and a known cursor position is never forgotten.
pub proof fn lemma_each_field_has_one_source(s: ViewerInfo, e: WindowInput)
    ensures
        !(e is Resized) ==> viewer_after(s, e).width == s.width && viewer_after(s, e).height
            == s.height,
        !(e matches WindowInput::MouseInput { left: true, .. }) ==> viewer_after(s, e).mouse_down
            == s.mouse_down,
        !(e is ModifiersChanged) ==> viewer_after(s, e).shift_down == s.shift_down,
        s.has_cursor ==> viewer_after(s, e).has_cursor,
        viewer_after(s, e).has_cursor == (s.has_cursor || e == WindowInput::CursorMoved),
{
}

/// A resize to a size with a zero side is ignored: nothing is done and the
/// state stays as it is.
pub proof fn lemma_empty_resize_ignored(s: ViewerInfo, width: u32, height: u32)
    requires
        width == 0 || height == 0,
    ensures
        action_for(s, WindowInput::Resized { width, height }) == ViewerAction::Nothing,
        viewer_after(s, WindowInput::Resized { width, height }) == s,
{
}

} // verus!
