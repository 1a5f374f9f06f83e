use cylinder_map::state::map_cylinder::{Drag, ElementState};
use cylinder_map::state::{Effect, Event, State, TouchPhase};
use cylinder_map::viewport::Viewport;

type Position = (f64, f64);

fn fresh() -> State<Position> {
    State::new(Viewport::new(1000, 500), (0.0, 0.0))
}

fn touch(phase: TouchPhase, x: f64, y: f64) -> Event<Position> {
    Event::Touch { phase, location: (x, y) }
}

#[test]
fn new_state_has_its_size_and_an_idle_pointer() {
    let state: State<Position> = State::new(Viewport::new(800, 600), (1.5, 2.5));
    assert_eq!(state.size(), Viewport { width: 800, height: 600 });
    assert_eq!(state.pointer(), (1.5, 2.5));
    assert!(!state.is_dragging());
}

#[test]
fn size_of_eight_by_six_hundred_gives_four_thirds() {
    let state: State<Position> = State::new(Viewport::new(800, 600), (0.0, 0.0));
    let size = state.size();
    let aspect_ratio = size.width as f32 / size.height as f32;
    assert!((aspect_ratio - 1.333_333_3).abs() < 1.0e-6);
}

#[test]
fn resize_takes_a_size_with_area() {
    let mut state = fresh();
    assert!(state.resize(Viewport::new(640, 480)));
    assert_eq!(state.size(), Viewport { width: 640, height: 480 });
    assert!(state.resize(Viewport::new(1, 1)));
    assert_eq!(state.size(), Viewport { width: 1, height: 1 });
}

#[test]
fn resize_passes_over_a_size_without_area() {
    let mut state: State<Position> = State::new(Viewport::new(800, 600), (0.0, 0.0));
    assert!(!state.resize(Viewport::new(0, 480)));
    assert_eq!(state.size(), Viewport { width: 800, height: 600 });
    assert!(!state.resize(Viewport::new(640, 0)));
    assert_eq!(state.size(), Viewport { width: 800, height: 600 });
    assert!(!state.resize(Viewport::new(0, 0)));
    assert_eq!(state.size(), Viewport { width: 800, height: 600 });
    let size = state.size();
    let aspect_ratio = size.width as f32 / size.height as f32;
    assert!((aspect_ratio - 1.333_333_3).abs() < 1.0e-6);
}

#[test]
fn resized_event_asks_for_a_new_configuration() {
    let mut state = fresh();
    let size = Viewport::new(1280, 720);
    assert_eq!(state.handle_event(&Event::Resized(size), true), Some(Effect::Reconfigure(size)));
    assert_eq!(state.size(), size);
}

#[test]
fn resized_event_counts_without_focus() {
    let mut state = fresh();
    let size = Viewport::new(320, 200);
    assert_eq!(state.handle_event(&Event::Resized(size), false), Some(Effect::Reconfigure(size)));
    assert_eq!(state.size(), size);
}

#[test]
fn resized_event_without_area_changes_nothing() {
    let mut state = fresh();
    assert_eq!(
        state.handle_event(&Event::Resized(Viewport::new(0, 500)), true),
        Some(Effect::Nothing)
    );
    assert_eq!(
        state.handle_event(&Event::Resized(Viewport::new(1000, 0)), false),
        Some(Effect::Nothing)
    );
    assert_eq!(state.size(), Viewport { width: 1000, height: 500 });
}

#[test]
fn other_events_are_not_answered() {
    let mut state = fresh();
    assert_eq!(state.handle_event(&Event::Other, true), None);
    assert_eq!(state.handle_event(&Event::Other, false), None);
    assert_eq!(state.size(), Viewport { width: 1000, height: 500 });
    assert_eq!(state.pointer(), (0.0, 0.0));
    assert!(!state.is_dragging());
}

#[test]
fn mouse_drag_turns_the_map() {
    let mut state = fresh();
    assert_eq!(state.handle_event(&Event::CursorMoved((100.0, 100.0)), true), Some(Effect::Nothing));
    assert_eq!(
        state.handle_event(&Event::MouseInput(ElementState::Pressed), true),
        Some(Effect::Nothing)
    );
    assert!(state.is_dragging());
    assert_eq!(
        state.handle_event(&Event::CursorMoved((150.0, 100.0)), true),
        Some(Effect::Rotate(Drag {
            from: (100.0, 100.0),
            to: (150.0, 100.0),
            viewport: Viewport { width: 1000, height: 500 },
        }))
    );
    assert_eq!(state.pointer(), (150.0, 100.0));
}

#[test]
fn drag_uses_the_size_of_the_last_resize() {
    let mut state = fresh();
    state.handle_event(&Event::MouseInput(ElementState::Pressed), true);
    state.handle_event(&Event::Resized(Viewport::new(640, 480)), true);
    state.handle_event(&Event::Resized(Viewport::new(0, 0)), true);
    assert_eq!(
        state.handle_event(&Event::CursorMoved((5.0, 6.0)), true),
        Some(Effect::Rotate(Drag {
            from: (0.0, 0.0),
            to: (5.0, 6.0),
            viewport: Viewport { width: 640, height: 480 },
        }))
    );
}

#[test]
fn move_without_press_does_not_turn_the_map() {
    let mut state = fresh();
    assert_eq!(state.handle_event(&Event::CursorMoved((10.0, 20.0)), true), Some(Effect::Nothing));
    assert_eq!(state.handle_event(&Event::CursorMoved((900.0, 2.0)), true), Some(Effect::Nothing));
    assert_eq!(state.handle_event(&touch(TouchPhase::Moved, 3.0, 3.0), true), Some(Effect::Nothing));
    assert_eq!(state.pointer(), (3.0, 3.0));
    assert!(!state.is_dragging());
}

#[test]
fn release_ends_the_drag() {
    let mut state = fresh();
    state.handle_event(&Event::MouseInput(ElementState::Pressed), true);
    assert!(matches!(
        state.handle_event(&Event::CursorMoved((10.0, 10.0)), true),
        Some(Effect::Rotate(_))
    ));
    assert_eq!(
        state.handle_event(&Event::MouseInput(ElementState::Released), true),
        Some(Effect::Nothing)
    );
    assert!(!state.is_dragging());
    assert_eq!(state.handle_event(&Event::CursorMoved((20.0, 20.0)), true), Some(Effect::Nothing));
    assert_eq!(state.handle_event(&Event::CursorMoved((30.0, 30.0)), true), Some(Effect::Nothing));
    state.handle_event(&Event::MouseInput(ElementState::Pressed), true);
    assert_eq!(
        state.handle_event(&Event::CursorMoved((31.0, 30.0)), true),
        Some(Effect::Rotate(Drag {
            from: (30.0, 30.0),
            to: (31.0, 30.0),
            viewport: Viewport { width: 1000, height: 500 },
        }))
    );
}

#[test]
fn pointer_events_without_focus_are_passed_over() {
    let mut state = fresh();
    assert_eq!(state.handle_event(&Event::CursorMoved((10.0, 10.0)), false), Some(Effect::Nothing));
    assert_eq!(state.pointer(), (0.0, 0.0));
    assert_eq!(
        state.handle_event(&Event::MouseInput(ElementState::Pressed), false),
        Some(Effect::Nothing)
    );
    assert!(!state.is_dragging());
    assert_eq!(state.handle_event(&touch(TouchPhase::Started, 5.0, 5.0), false), Some(Effect::Nothing));
    assert_eq!(state.pointer(), (0.0, 0.0));
    assert!(!state.is_dragging());

    state.handle_event(&Event::MouseInput(ElementState::Pressed), true);
    assert_eq!(state.handle_event(&Event::CursorMoved((10.0, 10.0)), false), Some(Effect::Nothing));
    assert_eq!(state.handle_event(&touch(TouchPhase::Moved, 11.0, 11.0), false), Some(Effect::Nothing));
    assert_eq!(state.pointer(), (0.0, 0.0));
    assert_eq!(
        state.handle_event(&Event::MouseInput(ElementState::Released), false),
        Some(Effect::Nothing)
    );
    assert_eq!(state.handle_event(&touch(TouchPhase::Ended, 11.0, 11.0), false), Some(Effect::Nothing));
    assert!(state.is_dragging());
}

#[test]
fn touch_start_forgets_the_stale_position() {
    let mut state = fresh();
    state.handle_event(&Event::CursorMoved((900.0, 400.0)), true);
    assert_eq!(state.handle_event(&touch(TouchPhase::Started, 50.0, 60.0), true), Some(Effect::Nothing));
    assert!(state.is_dragging());
    assert_eq!(state.pointer(), (50.0, 60.0));
    assert_eq!(
        state.handle_event(&touch(TouchPhase::Moved, 50.0, 60.0), true),
        Some(Effect::Rotate(Drag {
            from: (50.0, 60.0),
            to: (50.0, 60.0),
            viewport: Viewport { width: 1000, height: 500 },
        }))
    );
    assert_eq!(
        state.handle_event(&touch(TouchPhase::Moved, 55.0, 58.0), true),
        Some(Effect::Rotate(Drag {
            from: (50.0, 60.0),
            to: (55.0, 58.0),
            viewport: Viewport { width: 1000, height: 500 },
        }))
    );
}

#[test]
fn touch_end_and_cancel_let_go() {
    let mut state = fresh();
    state.handle_event(&touch(TouchPhase::Started, 1.0, 1.0), true);
    assert_eq!(state.handle_event(&touch(TouchPhase::Ended, 9.0, 9.0), true), Some(Effect::Nothing));
    assert!(!state.is_dragging());
    assert_eq!(state.pointer(), (1.0, 1.0));
    assert_eq!(state.handle_event(&touch(TouchPhase::Moved, 2.0, 2.0), true), Some(Effect::Nothing));

    state.handle_event(&touch(TouchPhase::Started, 3.0, 3.0), true);
    assert!(state.is_dragging());
    assert_eq!(state.handle_event(&touch(TouchPhase::Cancelled, 4.0, 4.0), true), Some(Effect::Nothing));
    assert!(!state.is_dragging());
    assert_eq!(state.handle_event(&touch(TouchPhase::Moved, 5.0, 5.0), true), Some(Effect::Nothing));
}
