use iced_table::divider::{Divider, Event, Interaction, Outcome, State, Strip, HOVER_MARGIN};
use iced_table::geometry::{Padding, Point, Rectangle};

const BOUNDS: Rectangle = Rectangle { x: 100, y: 10, width: 102, height: 20 };

fn at(x: i32) -> Point {
    Point { x, y: 15 }
}

#[test]
fn divider_is_hovered_within_the_margin() {
    let divider = Divider::new(0, 2);
    // The strip begins at x = 200.
    assert!(divider.is_divider_hovered(BOUNDS, at(200 - 4)));
    assert!(divider.is_divider_hovered(BOUNDS, at(200 - HOVER_MARGIN)));
    assert!(!divider.is_divider_hovered(BOUNDS, at(200 - 6)));
    assert!(divider.is_divider_hovered(BOUNDS, at(202 + 5)));
    assert!(!divider.is_divider_hovered(BOUNDS, at(202 + 6)));
    assert!(divider.is_divider_hovered(BOUNDS, Point { x: 201, y: 10 }));
    assert!(divider.is_divider_hovered(BOUNDS, Point { x: 201, y: 30 }));
    assert!(!divider.is_divider_hovered(BOUNDS, Point { x: 201, y: 9 }));
    assert!(!divider.is_divider_hovered(BOUNDS, Point { x: 201, y: 31 }));
}

#[test]
fn press_within_the_margin_is_captured() {
    let divider = Divider::new(0, 2);
    let mut state = State::default();
    let outcome = divider.on_event(&mut state, Event::ButtonPressed, BOUNDS, at(196));
    assert_eq!(outcome, Outcome::Grabbed);
    assert!(outcome.is_captured());
    assert_eq!(state.drag_origin, Some(at(196)));
    assert!(state.is_divider_hovered);
}

#[test]
fn press_beyond_the_margin_is_ignored() {
    let divider = Divider::new(0, 2);
    let mut state = State::default();
    let outcome = divider.on_event(&mut state, Event::ButtonPressed, BOUNDS, at(194));
    assert_eq!(outcome, Outcome::Ignored);
    assert!(!outcome.is_captured());
    assert_eq!(state, State::default());
}

#[test]
fn offsets_are_measured_from_the_press() {
    let divider = Divider::new(3, 2);
    let bounds = Rectangle { x: 0, y: 0, width: 102, height: 20 };
    let mut state = State::default();
    let press = Point { x: 100, y: 5 };
    assert_eq!(divider.on_event(&mut state, Event::ButtonPressed, bounds, press), Outcome::Grabbed);
    let first = Point { x: 130, y: 5 };
    assert_eq!(
        divider.on_event(&mut state, Event::CursorMoved { position: first }, bounds, first),
        Outcome::Resized { index: 3, offset: 30 }
    );
    let second = Point { x: 120, y: 5 };
    assert_eq!(
        divider.on_event(&mut state, Event::CursorMoved { position: second }, bounds, second),
        Outcome::Resized { index: 3, offset: 20 }
    );
    assert_eq!(state.drag_origin, Some(press));
}

#[test]
fn a_drag_goes_on_outside_the_divider() {
    let divider = Divider::new(0, 2);
    let mut state = State::default();
    divider.on_event(&mut state, Event::ButtonPressed, BOUNDS, at(200));
    let far = Point { x: -500, y: 900 };
    let outcome = divider.on_event(&mut state, Event::CursorMoved { position: far }, BOUNDS, far);
    assert_eq!(outcome, Outcome::Resized { index: 0, offset: -700 });
    assert!(state.is_dragging());
    assert!(!state.is_divider_hovered);
}

#[test]
fn release_ends_the_drag() {
    let divider = Divider::new(0, 2);
    let mut state = State::default();
    divider.on_event(&mut state, Event::ButtonPressed, BOUNDS, at(200));
    assert!(state.is_dragging());
    let outcome = divider.on_event(&mut state, Event::ButtonReleased, BOUNDS, at(240));
    assert_eq!(outcome, Outcome::Released);
    assert!(!state.is_dragging());
    let moved = divider.on_event(
        &mut state,
        Event::CursorMoved { position: at(250) },
        BOUNDS,
        at(250),
    );
    assert_eq!(moved, Outcome::Ignored);
    assert!(!state.is_dragging());
}

#[test]
fn release_without_a_press_is_ignored() {
    let divider = Divider::new(0, 2);
    let mut state = State::default();
    let outcome = divider.on_event(&mut state, Event::ButtonReleased, BOUNDS, at(200));
    assert_eq!(outcome, Outcome::Ignored);
    assert_eq!(state.drag_origin, None);
    assert!(state.is_divider_hovered);
}

#[test]
fn other_events_only_refresh_the_hover_flag() {
    let divider = Divider::new(0, 2);
    let mut state = State::default();
    assert_eq!(divider.on_event(&mut state, Event::Other, BOUNDS, at(201)), Outcome::Ignored);
    assert!(state.is_divider_hovered);
    assert_eq!(divider.on_event(&mut state, Event::Other, BOUNDS, at(150)), Outcome::Ignored);
    assert!(!state.is_divider_hovered);
}

#[test]
fn extreme_positions_do_not_overflow() {
    let divider = Divider::new(0, i32::MIN);
    let bounds = Rectangle { x: i32::MAX, y: i32::MAX, width: i32::MAX, height: i32::MAX };
    let corner = Point { x: i32::MAX, y: i32::MAX };
    assert!(!divider.is_divider_hovered(bounds, corner));
    let mut state = State { drag_origin: Some(corner), is_divider_hovered: false };
    let position = Point { x: i32::MIN, y: 0 };
    assert_eq!(
        divider.on_event(&mut state, Event::CursorMoved { position }, bounds, position),
        Outcome::Resized { index: 0, offset: i32::MIN as i64 - i32::MAX as i64 }
    );
    let strip = divider.draw(&state, bounds, corner).unwrap();
    assert_eq!(strip.x, 2 * (i32::MAX as i64) - i32::MIN as i64);
}

#[test]
fn content_is_hovered_clear_of_the_leading_margin() {
    // The bounds span 100..=202.
    assert!(!Divider::is_content_hovered(BOUNDS, at(104)));
    assert!(Divider::is_content_hovered(BOUNDS, at(105)));
    assert!(Divider::is_content_hovered(BOUNDS, at(202)));
    assert!(!Divider::is_content_hovered(BOUNDS, at(203)));
    assert!(!Divider::is_content_hovered(BOUNDS, at(207)));
    assert!(Divider::is_content_hovered(BOUNDS, Point { x: 150, y: 10 }));
    assert!(Divider::is_content_hovered(BOUNDS, Point { x: 150, y: 30 }));
    assert!(!Divider::is_content_hovered(BOUNDS, Point { x: 150, y: 31 }));
}

#[test]
fn narrow_content_keeps_a_margin_of_itself() {
    let narrow = Rectangle { x: 0, y: 10, width: 8, height: 20 };
    assert!(!Divider::is_content_hovered(narrow, at(2)));
    assert!(Divider::is_content_hovered(narrow, at(3)));
    assert!(Divider::is_content_hovered(narrow, at(8)));
    assert!(!Divider::is_content_hovered(narrow, at(9)));
    let slim = Rectangle { x: 0, y: 10, width: 4, height: 20 };
    assert!(Divider::is_content_hovered(slim, at(0)));
    assert!(Divider::is_content_hovered(slim, at(4)));
    assert!(!Divider::is_content_hovered(slim, at(5)));
}

#[test]
fn strip_is_not_drawn_for_a_pointer_beyond_the_trailing_edge() {
    let divider = Divider::new(0, 2);
    let idle = State::default();
    assert_eq!(divider.draw(&idle, BOUNDS, at(203)), None);
    assert_eq!(divider.draw(&idle, BOUNDS, at(207)), None);
    assert!(divider.draw(&idle, BOUNDS, at(202)).is_some());
}

#[test]
fn strip_is_drawn_flush_with_the_trailing_edge() {
    let divider = Divider::new(0, 2);
    let idle = State::default();
    assert_eq!(divider.draw(&idle, BOUNDS, at(50)), None);
    assert_eq!(
        divider.draw(&idle, BOUNDS, at(150)),
        Some(Strip { x: 200, y: 10, width: 2, height: 20, is_active: false })
    );
    let hovered = State { drag_origin: None, is_divider_hovered: true };
    assert_eq!(
        divider.draw(&hovered, BOUNDS, at(50)),
        Some(Strip { x: 200, y: 10, width: 2, height: 20, is_active: true })
    );
    let dragging = State { drag_origin: Some(at(200)), is_divider_hovered: false };
    assert_eq!(
        divider.draw(&dragging, BOUNDS, at(50)),
        Some(Strip { x: 200, y: 10, width: 2, height: 20, is_active: true })
    );
}

#[test]
fn pointer_shows_resizing_while_hovered_or_dragged() {
    let idle = State::default();
    assert_eq!(Divider::mouse_interaction(&idle), Interaction::Content);
    let hovered = State { drag_origin: None, is_divider_hovered: true };
    assert_eq!(Divider::mouse_interaction(&hovered), Interaction::ResizingHorizontally);
    let dragging = State { drag_origin: Some(at(0)), is_divider_hovered: false };
    assert_eq!(Divider::mouse_interaction(&dragging), Interaction::ResizingHorizontally);
}

#[test]
fn divider_keeps_its_width_free_of_content() {
    assert_eq!(Divider::new(1, 3).padding(), Padding { top: 0, right: 3, bottom: 0, left: 0 });
    assert!(Rectangle { x: 0, y: 0, width: 3, height: 3 }.contains(Point { x: 3, y: 3 }));
    assert!(!Rectangle { x: 0, y: 0, width: 3, height: 3 }.contains(Point { x: 4, y: 3 }));
}
