//! The pointer state of the map cylinder: where the pointer is, and whether a
//! button or a finger holds the map.
use crate::viewport::Viewport;
use vstd::prelude::*;

verus! {

/// Whether a button went down or came up.
#[derive(Clone, Copy, Debug, PartialEq, Eq, Structural)]
pub enum ElementState {
    Pressed,
    Released,
}

/// One pointer movement with the map held: everything the rotation of the
/// map is computed from.
#[derive(Debug, PartialEq)]
pub struct Drag<P> {
    /// Where the pointer was before the movement.
    pub from: P,
    /// Where the pointer is now.
    pub to: P,
    /// The viewport in which the pointer moved.
    pub viewport: Viewport,
}

/// What is known of the pointer: its last position and whether the map is
/// held.
pub struct Pointer<P> {
    pub position: P,
    pub dragging: bool,
}

impl<P> Pointer<P> {
    /// The pointer after a press: the map is held, the position stays.
    pub open spec fn press(self) -> Pointer<P> {
        Pointer { position: self.position, dragging: true }
    }

    /// The pointer after a release: the map is let go, the position stays.
    pub open spec fn release(self) -> Pointer<P> {
        Pointer { position: self.position, dragging: false }
    }

    /// The pointer after a button changed to `state`.
    pub open spec fn button(self, state: ElementState) -> Pointer<P> {
        match state {
            ElementState::Pressed => self.press(),
            ElementState::Released => self.release(),
        }
    }

    /// The pointer with `position` as its last position; whether the map is
    /// held stays as it is.
    pub open spec fn at(self, position: P) -> Pointer<P> {
        Pointer { position, dragging: self.dragging }
    }

    /// The drag that a movement to `position` in `viewport` amounts to: one
    /// from the last position while the map is held, none otherwise.
    pub open spec fn drag_to(self, position: P, viewport: Viewport) -> Option<Drag<P>> {
        if self.dragging {
            Some(Drag { from: self.position, to: position, viewport })
        } else {
            None
        }
    }
}

/// Keeps the pointer state of the map cylinder.
pub struct MapCylinderManager<P> {
    position: P,
    button_down: bool,
}

impl<P> View for MapCylinderManager<P> {
    type V = Pointer<P>;

    closed spec fn view(&self) -> Pointer<P> {
        Pointer { position: self.position, dragging: self.button_down }
    }
}

impl<P: Copy> MapCylinderManager<P> {
    /// A manager with the pointer at `position` and the map not held.
    pub fn new(position: P) -> (manager: Self)
        ensures
            manager@ == (Pointer { position, dragging: false }),
    {
        MapCylinderManager { position, button_down: false }
    }

    /// The last known position of the pointer.
    pub fn position(&self) -> (position: P)
        ensures
            position == self@.position,
    {
        self.position
    }

    /// Whether the map is held.
    pub fn is_dragging(&self) -> (dragging: bool)
        ensures
            dragging == self@.dragging,
    {
        self.button_down
    }

    /// Takes note that the pointer is now at `position` in a window of
    /// `window_size`. While the map is held this is a drag from the last
    /// position, which is handed back; otherwise nothing is. Either way
    /// `position` is the last position from now on.
    pub fn handle_cursor_moved(&mut self, position: P, window_size: Viewport) -> (drag: Option<
        Drag<P>,
    >)
        ensures
            final(self)@ == old(self)@.at(position),
            drag == old(self)@.drag_to(position, window_size),
        no_unwind
    {
        let drag = if self.button_down {
            Some(Drag { from: self.position, to: position, viewport: window_size })
        } else {
            None
        };
        self.position = position;
        drag
    }

    /// Takes note that a button went down or came up. The map is held from
    /// a press to the next release; the position stays as it is.
    pub fn handle_mouse_input(&mut self, state: ElementState)
        ensures
            final(self)@ == old(self)@.button(state),
        no_unwind
    {
        match state {
            ElementState::Pressed => {
                self.button_down = true;
            },
            ElementState::Released => {
                self.button_down = false;
            },
        }
    }

    /// Puts the pointer at `position` without a movement, so that what was
    /// known of it before plays no part in the next drag.
    pub fn reset_cursor_position(&mut self, position: P)
        ensures
            final(self)@ == old(self)@.at(position),
        no_unwind
    {
        self.position = position;
    }
}

} // verus!
