//! Geometry and the event envelope that travels down the tree.

use vstd::prelude::*;
use crate::units::clip;
use crate::units::sat_add;

verus! {

/// A point in canvas pixels.
#[derive(Clone, Copy, Debug, PartialEq, Eq, Structural)]
pub struct Position(pub i64, pub i64);

impl Position {
    /// Whether the point lies strictly inside the rectangle with corner
    /// `(x, y)`, width `w` and height `h`.
    pub open spec fn spec_in_rec(self, x: int, y: int, w: int, h: int) -> bool {
        self.0 > x && self.0 < clip(x + w) && self.1 > y && self.1 < clip(y + h)
    }

    /// Whether the point lies strictly inside the area between the given edges.
    pub open spec fn spec_in_area(self, left: int, top: int, right: int, bottom: int) -> bool {
        self.0 > left && self.0 < right && self.1 > top && self.1 < bottom
    }

    pub fn new(x: i64, y: i64) -> (p: Position)
        ensures
            p == Position(x, y),
    {
        Position(x, y)
    }

    pub fn in_rec(&self, x: i64, y: i64, w: i64, h: i64) -> (inside: bool)
        ensures
            inside == self.spec_in_rec(x as int, y as int, w as int, h as int),
    {
        self.0 > x && self.0 < sat_add(x, w) && self.1 > y && self.1 < sat_add(y, h)
    }

    pub fn in_area(&self, left: i64, top: i64, right: i64, bottom: i64) -> (inside: bool)
        ensures
            inside == self.spec_in_area(left as int, top as int, right as int, bottom as int),
    {
        self.0 > left && self.0 < right && self.1 > top && self.1 < bottom
    }
}

/// The kinds of event that the tree routes.
#[derive(Clone, Copy, Debug, PartialEq, Eq, Structural)]
pub enum EventType {
    MouseMove,
}

/// An event on its way down the tree. `trail` records, in visiting order, the
/// identifier of every section that handled the event.
pub struct Event {
    pub pos: Position,
    pub ev: EventType,
    pub consumed: bool,
    pub trail: Vec<u64>,
}

impl Event {
    /// A fresh, unconsumed mouse-move event at `(x, y)`.
    pub fn mouse_move(x: i64, y: i64) -> (e: Event)
        ensures
            e.pos == Position(x, y),
            e.ev == EventType::MouseMove,
            !e.consumed,
            e.trail@ == Seq::<u64>::empty(),
    {
        Event { pos: Position(x, y), ev: EventType::MouseMove, consumed: false, trail: Vec::new() }
    }
}

} // verus!
