//! Plain geometry values.

use vstd::prelude::*;

verus! {

/// Space left around a layer surface, per edge.
#[derive(Debug, Clone, Copy, PartialEq, Eq, Structural, Default)]
pub struct Margin {
    pub top: i32,
    pub right: i32,
    pub bottom: i32,
    pub left: i32,
}

/// A point.
#[derive(Debug, Clone, Copy, PartialEq, Eq, Default)]
pub struct Position<T> {
    pub x: T,
    pub y: T,
}

impl<T> Position<T> {
    /// The point at `x`, `y`.
    pub fn new(x: T, y: T) -> (r: Self)
        ensures
            r.x == x,
            r.y == y,
    {
        Position { x, y }
    }
}

/// A width and a height.
#[derive(Debug, Clone, Copy, PartialEq, Eq, Default)]
pub struct Size<T> {
    pub width: T,
    pub height: T,
}

} // verus!
