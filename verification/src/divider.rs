//! The divider of a resizable column: a thin strip at the trailing edge of the
//! column's header that can be dragged to change the column's width.
//!
//! A divider owns no width. It reports how far the pointer has been dragged
//! from where it was pressed, and the caller decides what to make of that.

use vstd::prelude::*;
use crate::geometry::{Padding, Point, Rectangle, Region};

verus! {

/// How far to the left and right of the strip the pointer still counts as
/// being over the divider. The same margin is left out of the content at its
/// leading edge, for the divider of the column before.
pub const HOVER_MARGIN: i32 = 5;

/// What a divider remembers from one event to the next.
#[derive(Clone, Copy, Debug, PartialEq, Eq)]
pub struct State {
    /// Where the pointer was pressed, while a drag is in progress.
    pub drag_origin: Option<Point>,
    /// Whether the pointer was over the divider at the last event.
    pub is_divider_hovered: bool,
}

/// A pointer event, as far as a divider tells events apart.
#[derive(Clone, Copy, Debug, PartialEq, Eq)]
pub enum Event {
    /// The primary button went down.
    ButtonPressed,
    /// The primary button came up.
    ButtonReleased,
    /// The pointer moved to `position`.
    CursorMoved { position: Point },
    /// Any other event.
    Other,
}

/// What a divider made of an event.
#[derive(Clone, Copy, Debug, PartialEq, Eq)]
pub enum Outcome {
    /// The event is not for the divider and goes on to the content.
    Ignored,
    /// The event was consumed: a drag has begun.
    Grabbed,
    /// The event was consumed: column `index` is to be `offset` wider than it
    /// was when the drag began.
    Resized { index: usize, offset: i64 },
    /// The event was consumed: the drag is over.
    Released,
}

/// The pointer shape a divider asks for.
#[derive(Clone, Copy, Debug, PartialEq, Eq)]
pub enum Interaction {
    /// The shape for resizing horizontally.
    ResizingHorizontally,
    /// Whatever the content asks for.
    Content,
}

/// The strip of a divider, as it is to be painted over the content.
#[derive(Clone, Copy, Debug, PartialEq, Eq)]
pub struct Strip {
    pub x: i64,
    pub y: i32,
    pub width: i32,
    pub height: i32,
    /// Whether the strip is hovered or dragged, rather than at rest.
    pub is_active: bool,
}

/// The divider of one column.
#[derive(Clone, Copy, Debug, PartialEq, Eq)]
pub struct Divider {
    /// The index of the column that the divider resizes.
    pub index: usize,
    /// The width of the strip.
    pub width: i32,
}

impl State {
    /// Whether a drag is in progress.
    pub open spec fn dragging(self) -> bool {
        self.drag_origin is Some
    }

    /// Returns true while a drag is in progress.
    pub fn is_dragging(&self) -> (dragging: bool)
        ensures
            dragging == self.dragging(),
    {
        self.drag_origin.is_some()
    }
}

impl Default for State {
    /// The state of a divider that no event has reached yet.
    fn default() -> (state: State)
        ensures
            state.drag_origin is None,
            !state.is_divider_hovered,
    {
        State { drag_origin: None, is_divider_hovered: false }
    }
}

impl Outcome {
    /// Returns true if the divider consumed the event.
    pub fn is_captured(&self) -> (captured: bool)
        ensures
            captured == !(*self is Ignored),
    {
        match self {
            Outcome::Ignored => false,
            _ => true,
        }
    }
}

impl Strip {
    /// The area the strip covers.
    pub open spec fn region(self) -> Region {
        Region {
            x: self.x as int,
            y: self.y as int,
            width: self.width as int,
            height: self.height as int,
        }
    }
}

impl Divider {
    /// The area of the strip: as wide as the divider, flush with the right
    /// edge of `bounds`, over their full height.
    pub open spec fn divider_bounds(self, bounds: Rectangle) -> Region {
        Region {
            x: bounds.x + bounds.width - self.width,
            y: bounds.y as int,
            width: self.width as int,
            height: bounds.height as int,
        }
    }

    /// The area in which the pointer is over the divider: the strip, widened
    /// by the hover margin on both sides.
    pub open spec fn divider_hover_region(self, bounds: Rectangle) -> Region {
        let strip = self.divider_bounds(bounds);
        Region { x: strip.x - HOVER_MARGIN, width: strip.width + 2 * HOVER_MARGIN, ..strip }
    }

    /// The area in which the pointer is over the content: `bounds` without
    /// the hover margin at their leading edge, up to their trailing edge.
    /// Bounds narrower than twice the margin give up less, so that as much as
    /// one margin of them is left, or all of them if that is less.
    pub open spec fn content_hover_region(bounds: Rectangle) -> Region {
        let inset = if bounds.width - HOVER_MARGIN < 0 {
            0
        } else if bounds.width - HOVER_MARGIN > HOVER_MARGIN {
            HOVER_MARGIN as int
        } else {
            bounds.width - HOVER_MARGIN
        };
        Region { x: bounds.x + inset, width: bounds.width - inset, ..bounds@ }
    }

    /// Whether the strip is to be painted: while the pointer is over the
    /// content or the divider, and throughout a drag.
    pub open spec fn is_shown(state: State, bounds: Rectangle, cursor_position: Point) -> bool {
        ||| Self::content_hover_region(bounds).contains(cursor_position)
        ||| state.is_divider_hovered
        ||| state.dragging()
    }

    /// The state after `event` and what the divider makes of the event.
    ///
    /// Every event refreshes the hover flag from the pointer's position. A
    /// press over the divider begins a drag at that position. During a drag, a
    /// move reports the horizontal distance from where the drag began, and a
    /// release ends the drag. Nothing else is for the divider.
    pub open spec fn step(
        self,
        state: State,
        event: Event,
        bounds: Rectangle,
        cursor_position: Point,
    ) -> (State, Outcome) {
        let hovered = self.divider_hover_region(bounds).contains(cursor_position);
        let seen = State { is_divider_hovered: hovered, ..state };
        match event {
            Event::ButtonPressed if hovered => (
                State { drag_origin: Some(cursor_position), ..seen },
                Outcome::Grabbed,
            ),
            Event::ButtonReleased if state.dragging() => (
                State { drag_origin: None, ..seen },
                Outcome::Released,
            ),
            Event::CursorMoved { position } if state.dragging() => (
                seen,
                Outcome::Resized {
                    index: self.index,
                    offset: (position.x - state.drag_origin->0.x) as i64,
                },
            ),
            _ => (seen, Outcome::Ignored),
        }
    }

    /// Creates the divider of column `index` with a strip `width` wide.
    pub fn new(index: usize, width: i32) -> (divider: Divider)
        ensures
            divider.index == index,
            divider.width == width,
    {
        Divider { index, width }
    }

    /// The room the divider keeps free of content: its own width, at the
    /// trailing edge.
    pub fn padding(&self) -> (padding: Padding)
        ensures
            padding == (Padding { top: 0, right: self.width, bottom: 0, left: 0 }),
    {
        Padding { top: 0, right: self.width, bottom: 0, left: 0 }
    }

    /// Returns true if the pointer at `cursor_position` is over the divider of
    /// a column header that occupies `bounds`.
    pub fn is_divider_hovered(&self, bounds: Rectangle, cursor_position: Point) -> (hovered: bool)
        ensures
            hovered == self.divider_hover_region(bounds).contains(cursor_position),
    {
        let right: i64 = bounds.x as i64 + bounds.width as i64;
        let x: i64 = cursor_position.x as i64;
        let y: i64 = cursor_position.y as i64;
        right - self.width as i64 - HOVER_MARGIN as i64 <= x && x <= right + HOVER_MARGIN as i64
            && bounds.y as i64 <= y && y <= bounds.y as i64 + bounds.height as i64
    }

    /// Returns true if the pointer at `cursor_position` is over the content of
    /// a column header that occupies `bounds`, clear of the divider of the
    /// column before.
    pub fn is_content_hovered(bounds: Rectangle, cursor_position: Point) -> (hovered: bool)
        ensures
            hovered == Self::content_hover_region(bounds).contains(cursor_position),
    {
        let spare: i64 = bounds.width as i64 - HOVER_MARGIN as i64;
        let inset: i64 = if spare < 0 {
            0
        } else if spare > HOVER_MARGIN as i64 {
            HOVER_MARGIN as i64
        } else {
            spare
        };
        let left: i64 = bounds.x as i64 + inset;
        let x: i64 = cursor_position.x as i64;
        let y: i64 = cursor_position.y as i64;
        left <= x && x <= bounds.x as i64 + bounds.width as i64 && bounds.y as i64 <= y && y
            <= bounds.y as i64 + bounds.height as i64
    }

    /// Takes one pointer event, with the bounds of the column header and the
    /// position of the pointer, and updates `state`. The result says whether
    /// the divider consumed the event and what is to be told to the owner of
    /// the column widths.
    pub fn on_event(
        &self,
        state: &mut State,
        event: Event,
        bounds: Rectangle,
        cursor_position: Point,
    ) -> (outcome: Outcome)
        ensures
            (*final(state), outcome) == self.step(*old(state), event, bounds, cursor_position),
    {
        state.is_divider_hovered = self.is_divider_hovered(bounds, cursor_position);
        match event {
            Event::ButtonPressed => {
                if state.is_divider_hovered {
                    state.drag_origin = Some(cursor_position);
                    return Outcome::Grabbed;
                }
            },
            Event::ButtonReleased => {
                if state.drag_origin.is_some() {
                    state.drag_origin = None;
                    return Outcome::Released;
                }
            },
            Event::CursorMoved { position } => {
                if let Some(origin) = state.drag_origin {
                    return Outcome::Resized {
                        index: self.index,
                        offset: position.x as i64 - origin.x as i64,
                    };
                }
            },
            Event::Other => {},
        }
        Outcome::Ignored
    }

    /// The pointer shape over the divider and its content: the one for
    /// resizing while the divider is hovered or dragged.
    pub fn mouse_interaction(state: &State) -> (interaction: Interaction)
        ensures
            interaction == if state.dragging() || state.is_divider_hovered {
                Interaction::ResizingHorizontally
            } else {
                Interaction::Content
            },
    {
        if state.drag_origin.is_some() || state.is_divider_hovered {
            Interaction::ResizingHorizontally
        } else {
            Interaction::Content
        }
    }

    /// The strip to paint over the content of a column header that occupies
    /// `bounds`, if any. The strip is active while the divider is hovered or
    /// dragged.
    pub fn draw(&self, state: &State, bounds: Rectangle, cursor_position: Point) -> (strip: Option<
        Strip,
    >)
        ensures
            strip is Some == Self::is_shown(*state, bounds, cursor_position),
            strip matches Some(strip) ==> {
                &&& strip.region() == self.divider_bounds(bounds)
                &&& strip.is_active == (state.is_divider_hovered || state.dragging())
            },
    {
        if Self::is_content_hovered(bounds, cursor_position) || state.is_divider_hovered
            || state.drag_origin.is_some() {
            Some(
                Strip {
                    x: bounds.x as i64 + bounds.width as i64 - self.width as i64,
                    y: bounds.y,
                    width: self.width,
                    height: bounds.height,
                    is_active: state.is_divider_hovered || state.drag_origin.is_some(),
                },
            )
        } else {
            None
        }
    }
}

/// The pointer is over a divider up to the hover margin away from the strip
/// and no further: at the height of the column header, `distance` to the left
/// of the strip's left edge, it is over the divider if and only if `distance`
/// is at most the margin. A press there begins a drag exactly then.
pub proof fn lemma_hover_margin(
    divider: Divider,
    state: State,
    bounds: Rectangle,
    cursor_position: Point,
    distance: int,
)
    requires
        divider.width >= 0,
        distance >= 0,
        cursor_position.x == divider.divider_bounds(bounds).x - distance,
        bounds.y <= cursor_position.y <= bounds.y + bounds.height,
    ensures
        divider.divider_hover_region(bounds).contains(cursor_position) <==> distance
            <= HOVER_MARGIN,
        divider.step(state, Event::ButtonPressed, bounds, cursor_position).1 is Grabbed
            <==> distance <= HOVER_MARGIN,
{
}

/// Every offset reported during a drag is measured from where the drag began,
/// not from the previous report, wherever the pointer is in between: two moves
/// in a row report the distances of their own positions from the same origin.
pub proof fn lemma_drag_is_origin_relative(
    divider: Divider,
    state: State,
    first: Point,
    second: Point,
    bounds: Rectangle,
    cursor_position: Point,
)
    requires
        state.dragging(),
    ensures
        ({
            let origin = state.drag_origin->0;
            let (moved, reported) = divider.step(
                state,
                Event::CursorMoved { position: first },
                bounds,
                cursor_position,
            );
            let (moved_again, reported_again) = divider.step(
                moved,
                Event::CursorMoved { position: second },
                bounds,
                cursor_position,
            );
            &&& reported == (Outcome::Resized {
                index: divider.index,
                offset: (first.x - origin.x) as i64,
            })
            &&& reported_again == (Outcome::Resized {
                index: divider.index,
                offset: (second.x - origin.x) as i64,
            })
            &&& moved.drag_origin == Some(origin)
            &&& moved_again.drag_origin == Some(origin)
        }),
{
}

/// A release ends the drag, whatever the state was.
pub proof fn lemma_release_clears_drag(
    divider: Divider,
    state: State,
    bounds: Rectangle,
    cursor_position: Point,
)
    ensures
        !divider.step(state, Event::ButtonReleased, bounds, cursor_position).0.dragging(),
        divider.step(state, Event::ButtonReleased, bounds, cursor_position).1 is Released
            <==> state.dragging(),
{
}

/// While no drag is in progress, only a press can begin one: any other event
/// is left to the content, reports nothing and leaves the divider idle.
pub proof fn lemma_idle_stays_idle(
    divider: Divider,
    state: State,
    event: Event,
    bounds: Rectangle,
    cursor_position: Point,
)
    requires
        !state.dragging(),
        !(event is ButtonPressed),
    ensures
        divider.step(state, event, bounds, cursor_position).1 is Ignored,
        !divider.step(state, event, bounds, cursor_position).0.dragging(),
{
}

} // verus!
