//! Pairs of scalars: positions, sizes and velocities.

use vstd::prelude::*;
use crate::fixed::{Fixed, SCALE};

verus! {

/// A point or a displacement of the plane; `y` grows upward.
#[derive(Clone, Copy, Debug, PartialEq, Eq, Structural)]
pub struct Vector2 {
    pub x: Fixed,
    pub y: Fixed,
}

impl View for Vector2 {
    type V = (int, int);

    open spec fn view(&self) -> (int, int) {
        (self.x@, self.y@)
    }
}

impl Vector2 {
    /// The vector with the given components.
    pub fn new(x: Fixed, y: Fixed) -> (r: Vector2)
        ensures
            r == (Vector2 { x, y }),
    {
        Vector2 { x, y }
    }

    /// The vector whose components are the whole numbers `x` and `y`.
    pub fn from_ints(x: i32, y: i32) -> (r: Vector2)
        ensures
            r@ == (x * SCALE, y * SCALE),
    {
        Vector2 { x: Fixed::from_int(x), y: Fixed::from_int(y) }
    }

    /// The zero vector.
    pub fn zero() -> (r: Vector2)
        ensures
            r@ == (0int, 0int),
    {
        Vector2 { x: Fixed::zero(), y: Fixed::zero() }
    }

    /// Whether both components are zero.
    pub fn is_zero(self) -> (r: bool)
        ensures
            r == (self@ == (0int, 0int)),
    {
        self.x.raw == 0 && self.y.raw == 0
    }
}

} // verus!
