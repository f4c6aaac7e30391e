//! Axis-aligned rectangles, the immovable obstacles and the one body that
//! moves among them.

use vstd::prelude::*;
use crate::fixed::trunc_div;
use crate::vector::Vector2;

verus! {

/// The largest width or height of a body, and the farthest an obstacle's
/// centre lies from the origin on either axis. Within it every edge, and
/// every centre that puts two edges together, is an `i64`.
pub const MAX_EXTENT: i64 = 0x1000_0000_0000_0000;

/// Whether `e` can be a width or a height.
pub open spec fn valid_extent(e: int) -> bool {
    0 < e <= MAX_EXTENT
}

/// An axis-aligned rectangle, given by its centre and its size.
#[derive(Clone, Copy, Debug, PartialEq, Eq, Structural)]
pub struct Rect {
    pub center: Vector2,
    pub size: Vector2,
}

/// The four edges of a rectangle as plain numbers.
#[derive(Clone, Copy, Debug, PartialEq, Eq, Structural)]
pub struct Edges {
    pub left: i128,
    pub right: i128,
    pub bottom: i128,
    pub top: i128,
}

impl Rect {
    /// The x coordinate of the left edge: half a width left of the centre.
    pub open spec fn left(&self) -> int {
        self.center.x@ - trunc_div(self.size.x@, 2)
    }

    /// The x coordinate of the right edge: one width right of the left edge.
    pub open spec fn right(&self) -> int {
        self.left() + self.size.x@
    }

    /// The y coordinate of the top edge: half a height above the centre.
    pub open spec fn top(&self) -> int {
        self.center.y@ + trunc_div(self.size.y@, 2)
    }

    /// The y coordinate of the bottom edge: one height below the top edge.
    pub open spec fn bottom(&self) -> int {
        self.top() - self.size.y@
    }

    /// Whether width and height are positive and within `MAX_EXTENT`.
    pub open spec fn valid_size(&self) -> bool {
        valid_extent(self.size.x@) && valid_extent(self.size.y@)
    }

    /// Whether the interiors of the two rectangles meet. Rectangles that
    /// only share an edge or a corner do not overlap.
    pub open spec fn overlaps(&self, other: &Rect) -> bool {
        &&& self.left() < other.right()
        &&& self.right() > other.left()
        &&& self.bottom() < other.top()
        &&& self.top() > other.bottom()
    }

    /// The rectangle with the given centre and size.
    pub fn new(center: Vector2, size: Vector2) -> (r: Rect)
        ensures
            r == (Rect { center, size }),
    {
        Rect { center, size }
    }

    /// Whether width and height are positive and within `MAX_EXTENT`.
    pub fn has_valid_size(&self) -> (r: bool)
        ensures
            r == self.valid_size(),
    {
        0 < self.size.x.raw && self.size.x.raw <= MAX_EXTENT && 0 < self.size.y.raw
            && self.size.y.raw <= MAX_EXTENT
    }

    /// The four edges.
    pub fn edges(&self) -> (e: Edges)
        ensures
            e.left == self.left(),
            e.right == self.right(),
            e.bottom == self.bottom(),
            e.top == self.top(),
    {
        let left: i128 = self.center.x.raw as i128 - self.size.x.half().raw as i128;
        let top: i128 = self.center.y.raw as i128 + self.size.y.half().raw as i128;
        Edges {
            left,
            right: left + self.size.x.raw as i128,
            bottom: top - self.size.y.raw as i128,
            top,
        }
    }

    /// The overlap test on two rectangles.
    pub fn intersects(&self, other: &Rect) -> (r: bool)
        ensures
            r == self.overlaps(other),
    {
        let a: Edges = self.edges();
        let b: Edges = other.edges();
        a.left < b.right && a.right > b.left && a.bottom < b.top && a.top > b.bottom
    }
}

/// An immovable obstacle.
#[derive(Clone, Copy, Debug, PartialEq, Eq, Structural)]
pub struct StaticBody {
    pub rect: Rect,
}

impl StaticBody {
    /// The obstacle has a valid size and its centre lies within
    /// `MAX_EXTENT` of the origin on both axes.
    pub open spec fn wf(&self) -> bool {
        &&& self.rect.valid_size()
        &&& -MAX_EXTENT <= self.rect.center.x@ <= MAX_EXTENT
        &&& -MAX_EXTENT <= self.rect.center.y@ <= MAX_EXTENT
    }

    /// The obstacle with the given centre and size, if that is a valid
    /// obstacle.
    pub fn new(center: Vector2, size: Vector2) -> (r: Option<StaticBody>)
        ensures
            r is Some <==> (StaticBody { rect: Rect { center, size } }).wf(),
            r matches Some(b) ==> b.rect == (Rect { center, size }),
    {
        let body: StaticBody = StaticBody { rect: Rect { center, size } };
        if body.is_valid() {
            Some(body)
        } else {
            None
        }
    }

    /// Whether the obstacle is well formed.
    pub fn is_valid(&self) -> (r: bool)
        ensures
            r == self.wf(),
    {
        self.rect.has_valid_size() && -MAX_EXTENT <= self.rect.center.x.raw
            && self.rect.center.x.raw <= MAX_EXTENT && -MAX_EXTENT <= self.rect.center.y.raw
            && self.rect.center.y.raw <= MAX_EXTENT
    }

    /// The obstacle's rectangle.
    pub fn rect(&self) -> (r: Rect)
        ensures
            r == self.rect,
    {
        self.rect
    }
}

/// The body that input moves: a rectangle and its velocity. Only the
/// centre and the velocity ever change.
#[derive(Clone, Copy, Debug, PartialEq, Eq, Structural)]
pub struct ControlledBody {
    pub rect: Rect,
    pub velocity: Vector2,
}

impl ControlledBody {
    /// The body has a valid size. Its centre and its velocity are free.
    pub open spec fn wf(&self) -> bool {
        self.rect.valid_size()
    }

    /// The body at rest with the given centre and size, if the size is
    /// valid.
    pub fn new(center: Vector2, size: Vector2) -> (r: Option<ControlledBody>)
        ensures
            r is Some <==> (Rect { center, size }).valid_size(),
            r matches Some(b) ==> b.rect == (Rect { center, size }) && b.velocity@ == (0int, 0int),
    {
        let rect: Rect = Rect { center, size };
        if rect.has_valid_size() {
            Some(ControlledBody { rect, velocity: Vector2::zero() })
        } else {
            None
        }
    }

    /// Whether the body is well formed.
    pub fn is_valid(&self) -> (r: bool)
        ensures
            r == self.wf(),
    {
        self.rect.has_valid_size()
    }

    /// The same body moving at `velocity`.
    pub fn with_velocity(self, velocity: Vector2) -> (r: ControlledBody)
        ensures
            r == (ControlledBody { velocity, ..self }),
    {
        ControlledBody { rect: self.rect, velocity }
    }

    /// The body's rectangle.
    pub fn rect(&self) -> (r: Rect)
        ensures
            r == self.rect,
    {
        self.rect
    }

    /// The centre of the body.
    pub fn position(&self) -> (r: Vector2)
        ensures
            r == self.rect.center,
    {
        self.rect.center
    }

    /// The velocity of the body.
    pub fn velocity(&self) -> (r: Vector2)
        ensures
            r == self.velocity,
    {
        self.velocity
    }
}

/// The overlap test does not depend on the order of its arguments.
pub proof fn lemma_overlap_symmetric(a: Rect, b: Rect)
    ensures
        a.overlaps(&b) == b.overlaps(&a),
{
}

} // verus!
