//! The state behind the window, and what each event does to it.
//!
//! [`State`] holds the viewport and the pointer. It is driven by
//! [`Event`]s, each with the word whether the window has the input focus,
//! and answers each with an [`Effect`] for the host to carry out.
//! [`Snapshot`] is the same state as a plain value, with the same steps
//! written as functions.
pub mod earth_texture;
pub mod frame;
pub mod map_cylinder;
pub mod surface;
pub mod trace;

use crate::state::frame::{recover, recovery, FrameAction, SurfaceError};
use crate::state::map_cylinder::{Drag, ElementState, MapCylinderManager, Pointer};
use crate::viewport::Viewport;
use vstd::prelude::*;

verus! {

/// How far a touch has come.
#[derive(Clone, Copy, Debug, PartialEq, Eq, Structural)]
pub enum TouchPhase {
    Started,
    Moved,
    Ended,
    Cancelled,
}

/// What the window reports.
#[derive(Debug, PartialEq)]
pub enum Event<P> {
    /// The window has a new size.
    Resized(Viewport),
    /// The mouse pointer is now at this position.
    CursorMoved(P),
    /// A mouse button went down or came up.
    MouseInput(ElementState),
    /// A finger touched, moved on or left the window at `location`.
    Touch { phase: TouchPhase, location: P },
    /// Anything else.
    Other,
}

/// What the host has to do after an event.
#[derive(Debug, PartialEq)]
pub enum Effect<P> {
    /// Nothing.
    Nothing,
    /// Configure the surface with this viewport.
    Reconfigure(Viewport),
    /// Turn the map by this drag.
    Rotate(Drag<P>),
}

/// The effect of a pointer movement that may have been a drag.
pub open spec fn rotation<P>(drag: Option<Drag<P>>) -> Effect<P> {
    match drag {
        Some(drag) => Effect::Rotate(drag),
        None => Effect::Nothing,
    }
}

/// The state as a plain value.
pub struct Snapshot<P> {
    pub viewport: Viewport,
    pub pointer: Pointer<P>,
}

impl<P> Snapshot<P> {
    /// A state is well formed when its viewport has area.
    pub open spec fn wf(self) -> bool {
        self.viewport.has_area()
    }

    /// The state with its pointer replaced.
    pub open spec fn with_pointer(self, pointer: Pointer<P>) -> Snapshot<P> {
        Snapshot { viewport: self.viewport, pointer }
    }

    /// The state after the window took the size `new_size`: a size without
    /// area is passed over.
    pub open spec fn resized(self, new_size: Viewport) -> Snapshot<P> {
        if new_size.has_area() {
            Snapshot { viewport: new_size, pointer: self.pointer }
        } else {
            self
        }
    }

    /// The state after `event`. A new size is taken whether or not the
    /// window has the focus; what the pointer does counts only with it.
    pub open spec fn step(self, event: Event<P>, focused: bool) -> Snapshot<P> {
        match event {
            Event::Resized(new_size) => self.resized(new_size),
            Event::CursorMoved(position) => if focused {
                self.with_pointer(self.pointer.at(position))
            } else {
                self
            },
            Event::MouseInput(state) => if focused {
                self.with_pointer(self.pointer.button(state))
            } else {
                self
            },
            Event::Touch { phase, location } => if focused {
                match phase {
                    TouchPhase::Started => self.with_pointer(self.pointer.at(location).press()),
                    TouchPhase::Moved => self.with_pointer(self.pointer.at(location)),
                    TouchPhase::Ended | TouchPhase::Cancelled => self.with_pointer(
                        self.pointer.release(),
                    ),
                }
            } else {
                self
            },
            Event::Other => self,
        }
    }

    /// What the host has to do after `event`, and `None` where the event is
    /// none of those that the state answers to.
    pub open spec fn effect(self, event: Event<P>, focused: bool) -> Option<Effect<P>> {
        match event {
            Event::Resized(new_size) => Some(
                if new_size.has_area() {
                    Effect::Reconfigure(new_size)
                } else {
                    Effect::Nothing
                },
            ),
            Event::CursorMoved(position) => Some(
                if focused {
                    rotation(self.pointer.drag_to(position, self.viewport))
                } else {
                    Effect::Nothing
                },
            ),
            Event::MouseInput(_) => Some(Effect::Nothing),
            Event::Touch { phase, location } => Some(
                if focused && phase == TouchPhase::Moved {
                    rotation(self.pointer.drag_to(location, self.viewport))
                } else {
                    Effect::Nothing
                },
            ),
            Event::Other => None,
        }
    }
}

/// The state behind the window.
pub struct State<P> {
    size: Viewport,
    map_cylinder: MapCylinderManager<P>,
}

impl<P> View for State<P> {
    type V = Snapshot<P>;

    closed spec fn view(&self) -> Snapshot<P> {
        Snapshot { viewport: self.size, pointer: self.map_cylinder@ }
    }
}

impl<P> State<P> {
    #[verifier::type_invariant]
    spec fn inv(self) -> bool {
        self.size.has_area()
    }
}

impl<P: Copy> State<P> {
    /// The state of a window of `size` with the pointer at `pointer` and the
    /// map not held.
    pub fn new(size: Viewport, pointer: P) -> (state: Self)
        requires
            size.has_area(),
        ensures
            state@ == (Snapshot { viewport: size, pointer: Pointer { position: pointer, dragging: false } }),
    {
        State { size, map_cylinder: MapCylinderManager::new(pointer) }
    }

    /// The viewport. It always has area.
    pub fn size(&self) -> (size: Viewport)
        ensures
            size == self@.viewport,
            size.has_area(),
    {
        proof {
            use_type_invariant(self);
        }
        self.size
    }

    /// The last known position of the pointer.
    pub fn pointer(&self) -> (position: P)
        ensures
            position == self@.pointer.position,
    {
        self.map_cylinder.position()
    }

    /// Whether the map is held.
    pub fn is_dragging(&self) -> (dragging: bool)
        ensures
            dragging == self@.pointer.dragging,
    {
        self.map_cylinder.is_dragging()
    }

    /// Takes `new_size` as the viewport if it has area, and says whether it
    /// did; the surface is then to be configured with it. A size without
    /// area changes nothing.
    pub fn resize(&mut self, new_size: Viewport) -> (applied: bool)
        ensures
            applied == new_size.has_area(),
            final(self)@ == old(self)@.resized(new_size),
            final(self)@.wf(),
    {
        proof {
            use_type_invariant(&*self);
        }
        if new_size.width > 0 && new_size.height > 0 {
            self.size = new_size;
            true
        } else {
            false
        }
    }

    /// Takes note of `event`, which came while the window had the focus or
    /// had not, as `focused` says. Hands back what the host has to do, and
    /// `None` where the event is none of those that the state answers to.
    pub fn handle_event(&mut self, event: &Event<P>, focused: bool) -> (effect: Option<Effect<P>>)
        ensures
            final(self)@ == old(self)@.step(*event, focused),
            effect == old(self)@.effect(*event, focused),
            final(self)@.wf(),
    {
        proof {
            use_type_invariant(&*self);
        }
        match event {
            Event::Resized(new_size) => {
                if self.resize(*new_size) {
                    Some(Effect::Reconfigure(*new_size))
                } else {
                    Some(Effect::Nothing)
                }
            },
            Event::CursorMoved(position) => {
                if focused {
                    let drag = self.map_cylinder.handle_cursor_moved(*position, self.size);
                    Some(Self::turn(drag))
                } else {
                    Some(Effect::Nothing)
                }
            },
            Event::MouseInput(state) => {
                if focused {
                    self.map_cylinder.handle_mouse_input(*state);
                }
                Some(Effect::Nothing)
            },
            Event::Touch { phase, location } => {
                if focused {
                    match phase {
                        TouchPhase::Started => {
                            self.map_cylinder.reset_cursor_position(*location);
                            self.map_cylinder.handle_mouse_input(ElementState::Pressed);
                            Some(Effect::Nothing)
                        },
                        TouchPhase::Moved => {
                            let drag = self.map_cylinder.handle_cursor_moved(*location, self.size);
                            Some(Self::turn(drag))
                        },
                        TouchPhase::Ended | TouchPhase::Cancelled => {
                            self.map_cylinder.handle_mouse_input(ElementState::Released);
                            Some(Effect::Nothing)
                        },
                    }
                } else {
                    Some(Effect::Nothing)
                }
            },
            Event::Other => None,
        }
    }

    /// Decides what is done after a frame that ended as `outcome` says: a
    /// surface that was lost or is out of date is configured again with
    /// the viewport, which has area.
    pub fn after_frame(&self, outcome: Result<(), SurfaceError>) -> (action: FrameAction)
        ensures
            action == recovery(self@.viewport, outcome),
            action matches FrameAction::Reconfigure(viewport) ==> viewport.has_area(),
    {
        proof {
            use_type_invariant(self);
        }
        recover(self.size, outcome)
    }

    fn turn(drag: Option<Drag<P>>) -> (effect: Effect<P>)
        ensures
            effect == rotation(drag),
    {
        match drag {
            Some(drag) => Effect::Rotate(drag),
            None => Effect::Nothing,
        }
    }
}

} // verus!
