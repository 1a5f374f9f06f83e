//! What holds of the state over any run of events.
use crate::state::map_cylinder::{Drag, ElementState, Pointer};
use crate::state::{Effect, Event, Snapshot, TouchPhase};
use crate::viewport::Viewport;
use vstd::prelude::*;

verus! {

/// An event together with the word whether the window had the focus when it
/// came.
pub struct Input<P> {
    pub event: Event<P>,
    pub focused: bool,
}

impl<P> Input<P> {
    /// Whether the input makes the state hold the map: a button press or
    /// the start of a touch, with the focus.
    pub open spec fn presses(self) -> bool {
        self.focused && match self.event {
            Event::MouseInput(ElementState::Pressed) => true,
            Event::Touch { phase: TouchPhase::Started, .. } => true,
            _ => false,
        }
    }

    /// Whether the input makes the state let go of the map: a button
    /// release or the end of a touch, with the focus.
    pub open spec fn releases(self) -> bool {
        self.focused && match self.event {
            Event::MouseInput(ElementState::Released) => true,
            Event::Touch { phase: TouchPhase::Ended, .. } => true,
            Event::Touch { phase: TouchPhase::Cancelled, .. } => true,
            _ => false,
        }
    }
}

/// Whether `effect` asks for the map to be turned.
pub open spec fn rotates<P>(effect: Option<Effect<P>>) -> bool {
    effect matches Some(Effect::Rotate(_))
}

/// The state that `start` has become after `inputs`, taken in order.
pub open spec fn run<P>(start: Snapshot<P>, inputs: Seq<Input<P>>) -> Snapshot<P>
    decreases inputs.len(),
{
    if inputs.len() == 0 {
        start
    } else {
        run(start, inputs.drop_last()).step(inputs.last().event, inputs.last().focused)
    }
}

/// What the host has to do after the input at place `i` of `inputs`, the
/// run having begun in `start`.
pub open spec fn effect_at<P>(start: Snapshot<P>, inputs: Seq<Input<P>>, i: int) -> Option<
    Effect<P>,
> {
    run(start, inputs.take(i)).effect(inputs[i].event, inputs[i].focused)
}

/// The map is turned only while it is held and the window has the focus,
/// and then by the movement from the last position of the pointer to the
/// new one, in the viewport of the state.
pub proof fn lemma_rotation_is_a_held_move<P>(state: Snapshot<P>, event: Event<P>, focused: bool)
    ensures
        state.effect(event, focused) matches Some(Effect::Rotate(drag)) ==> {
            &&& focused
            &&& state.pointer.dragging
            &&& drag.from == state.pointer.position
            &&& drag.to == state.step(event, focused).pointer.position
            &&& drag.viewport == state.viewport
            &&& state.step(event, focused).pointer.dragging
        },
{
}

/// While the map is not held, no movement of the pointer turns it, wherever
/// the pointer goes.
pub proof fn lemma_no_rotation_unless_held<P>(state: Snapshot<P>, event: Event<P>, focused: bool)
    requires
        !state.pointer.dragging,
    ensures
        !rotates(state.effect(event, focused)),
{
}

/// A viewport without area is passed over: the state stays as it is, and
/// the host has nothing to do.
pub proof fn lemma_resize_without_area<P>(state: Snapshot<P>, new_size: Viewport, focused: bool)
    requires
        !new_size.has_area(),
    ensures
        state.step(Event::Resized(new_size), focused) == state,
        state.effect(Event::Resized(new_size), focused) == Some(Effect::<P>::Nothing),
{
}

/// Only a new size changes the viewport, and only to one with area.
pub proof fn lemma_viewport_changes_by_resize<P>(state: Snapshot<P>, event: Event<P>, focused: bool)
    ensures
        state.step(event, focused).viewport != state.viewport ==> event == Event::<P>::Resized(
            state.step(event, focused).viewport,
        ) && state.step(event, focused).viewport.has_area(),
        state.wf() ==> state.step(event, focused).wf(),
{
}

/// Without the focus only a new size is taken note of.
pub proof fn lemma_unfocused_is_ignored<P>(state: Snapshot<P>, event: Event<P>)
    requires
        !(event is Resized),
    ensures
        state.step(event, false) == state,
        !rotates(state.effect(event, false)),
{
}

/// A pointer that was put at a position and then moves to that position
/// has not moved: whatever drag comes of it begins where it ends.
pub proof fn lemma_reset_then_move_is_still<P>(pointer: Pointer<P>, position: P, viewport: Viewport)
    ensures
        pointer.at(position).drag_to(position, viewport) matches Some(drag) ==> drag.from
            == drag.to,
        pointer.at(position).drag_to(position, viewport) is Some <==> pointer.dragging,
{
}

/// A touch that starts at a position and moves on to that same position
/// turns the map by a drag that begins where it ends, whatever the pointer
/// did before the touch.
pub proof fn lemma_touch_start_forgets_stale_position<P>(state: Snapshot<P>, location: P)
    ensures
        state.step(Event::Touch { phase: TouchPhase::Started, location }, true).effect(
            Event::Touch { phase: TouchPhase::Moved, location },
            true,
        ) == Some(Effect::Rotate(Drag { from: location, to: location, viewport: state.viewport })),
{
}

/// A release lets go of the map.
pub proof fn lemma_release_lets_go<P>(state: Snapshot<P>, input: Input<P>)
    requires
        input.releases(),
    ensures
        !state.step(input.event, input.focused).pointer.dragging,
        state.step(input.event, input.focused).pointer.position == state.pointer.position,
        !rotates(state.effect(input.event, input.focused)),
{
}

/// Every run keeps the viewport one with area.
pub proof fn lemma_run_keeps_area<P>(start: Snapshot<P>, inputs: Seq<Input<P>>)
    requires
        start.wf(),
    ensures
        run(start, inputs).wf(),
    decreases inputs.len(),
{
    if inputs.len() > 0 {
        lemma_run_keeps_area(start, inputs.drop_last());
    }
}

/// From a state in which the map is not held, a run without a press never
/// turns the map and ends with the map not held.
pub proof fn lemma_no_rotation_before_press<P>(start: Snapshot<P>, inputs: Seq<Input<P>>)
    requires
        !start.pointer.dragging,
        forall|i: int| 0 <= i < inputs.len() ==> !(#[trigger] inputs[i]).presses(),
    ensures
        !run(start, inputs).pointer.dragging,
        forall|i: int| 0 <= i < inputs.len() ==> !rotates(#[trigger] effect_at(start, inputs, i)),
    decreases inputs.len(),
{
    if inputs.len() > 0 {
        let front = inputs.drop_last();
        lemma_no_rotation_before_press(start, front);
        assert(!inputs.last().presses());
        assert forall|i: int| 0 <= i < inputs.len() implies !rotates(
            #[trigger] effect_at(start, inputs, i),
        ) by {
            if i < front.len() {
                assert(inputs.take(i) == front.take(i));
                assert(inputs[i] == front[i]);
                assert(effect_at(start, inputs, i) == effect_at(start, front, i));
            } else {
                assert(inputs.take(i) == front);
            }
        }
    }
}

/// After a release the map is not turned again before the next press,
/// however the pointer moves in between.
pub proof fn lemma_released_until_next_press<P>(
    state: Snapshot<P>,
    release: Input<P>,
    inputs: Seq<Input<P>>,
)
    requires
        release.releases(),
        forall|i: int| 0 <= i < inputs.len() ==> !(#[trigger] inputs[i]).presses(),
    ensures
        forall|i: int|
            0 <= i < inputs.len() ==> !rotates(
                #[trigger] effect_at(state.step(release.event, release.focused), inputs, i),
            ),
        !run(state.step(release.event, release.focused), inputs).pointer.dragging,
{
    lemma_release_lets_go(state, release);
    lemma_no_rotation_before_press(state.step(release.event, release.focused), inputs);
}

/// Whether `event` is a new size without area.
pub open spec fn is_empty_size<P>(event: Event<P>) -> bool {
    event matches Event::Resized(new_size) && !new_size.has_area()
}

/// A run of sizes without area leaves the state as it was.
pub proof fn lemma_run_of_empty_sizes<P>(start: Snapshot<P>, inputs: Seq<Input<P>>)
    requires
        forall|i: int| 0 <= i < inputs.len() ==> is_empty_size((#[trigger] inputs[i]).event),
    ensures
        run(start, inputs) == start,
    decreases inputs.len(),
{
    if inputs.len() > 0 {
        lemma_run_of_empty_sizes(start, inputs.drop_last());
        assert(inputs.last() == inputs[inputs.len() - 1]);
    }
}

} // verus!
