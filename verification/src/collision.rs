//! Collision of the controlled body with the obstacles: the overlap test,
//! the ordered rules that pick the face of the obstacle to put the body
//! against, and the correction itself.

use vstd::prelude::*;
use crate::body::{ControlledBody, Edges, Rect, StaticBody};
use crate::fixed::{trunc_div, Fixed};
use crate::vector::Vector2;

verus! {

/// The rules by which an overlap is resolved, in the order in which they
/// are tried. The first four apply to motion along one axis, the last four
/// to motion along both.
#[derive(Clone, Copy, Debug, PartialEq, Eq, Structural)]
pub enum Clause {
    OrthogonalDown,
    OrthogonalUp,
    OrthogonalRight,
    OrthogonalLeft,
    DiagonalRight,
    DiagonalLeft,
    DiagonalDown,
    DiagonalUp,
}

/// A face of an obstacle.
#[derive(Clone, Copy, Debug, PartialEq, Eq, Structural)]
pub enum Face {
    Top,
    Bottom,
    Left,
    Right,
}

/// The sign of `v`: -1, 0 or 1.
pub open spec fn signum(v: int) -> int {
    if v < 0 {
        -1
    } else if v > 0 {
        1
    } else {
        0
    }
}

/// The direction of travel. The rules read only the signs of its
/// components, and scaling a vector to unit length keeps those, so the
/// direction is given as the two signs; for the zero vector it is zero.
pub open spec fn direction(velocity: Vector2) -> (int, int) {
    (signum(velocity.x@), signum(velocity.y@))
}

impl Clause {
    /// The place of the rule in the order in which the rules are tried.
    pub open spec fn rank(self) -> nat {
        match self {
            Clause::OrthogonalDown => 0,
            Clause::OrthogonalUp => 1,
            Clause::OrthogonalRight => 2,
            Clause::OrthogonalLeft => 3,
            Clause::DiagonalRight => 4,
            Clause::DiagonalLeft => 5,
            Clause::DiagonalDown => 6,
            Clause::DiagonalUp => 7,
        }
    }

    /// The face of the obstacle that the rule puts the body against: the
    /// one that a body moving this way meets first.
    pub open spec fn face(self) -> Face {
        match self {
            Clause::OrthogonalDown | Clause::DiagonalDown => Face::Top,
            Clause::OrthogonalUp | Clause::DiagonalUp => Face::Bottom,
            Clause::OrthogonalRight | Clause::DiagonalRight => Face::Left,
            Clause::OrthogonalLeft | Clause::DiagonalLeft => Face::Right,
        }
    }

    /// The rule's own condition on a body that overlaps the obstacle.
    pub open spec fn applies(self, body: ControlledBody, obstacle: StaticBody) -> bool {
        let (dx, dy) = direction(body.velocity);
        match self {
            Clause::OrthogonalDown => dy < 0 && dx == 0,
            Clause::OrthogonalUp => dy > 0 && dx == 0,
            Clause::OrthogonalRight => dx > 0 && dy == 0,
            Clause::OrthogonalLeft => dx < 0 && dy == 0,
            Clause::DiagonalRight => dx > 0 && body.rect.left() < obstacle.rect.left(),
            Clause::DiagonalLeft => dx < 0 && body.rect.right() > obstacle.rect.right(),
            Clause::DiagonalDown => dy < 0 && body.rect.top() > obstacle.rect.top(),
            Clause::DiagonalUp => dy > 0 && body.rect.bottom() < obstacle.rect.bottom(),
        }
    }

    /// The face of the obstacle that the rule puts the body against.
    pub fn target(self) -> (f: Face)
        ensures
            f == self.face(),
    {
        match self {
            Clause::OrthogonalDown => Face::Top,
            Clause::DiagonalDown => Face::Top,
            Clause::OrthogonalUp => Face::Bottom,
            Clause::DiagonalUp => Face::Bottom,
            Clause::OrthogonalRight => Face::Left,
            Clause::DiagonalRight => Face::Left,
            Clause::OrthogonalLeft => Face::Right,
            Clause::DiagonalLeft => Face::Right,
        }
    }
}

/// The rule that resolves the body against the obstacle: none where the
/// two do not overlap, else the first rule in order whose condition holds,
/// and none where no condition holds.
pub open spec fn matching_clause(body: ControlledBody, obstacle: StaticBody) -> Option<Clause> {
    if !body.rect.overlaps(&obstacle.rect) {
        None
    } else if Clause::OrthogonalDown.applies(body, obstacle) {
        Some(Clause::OrthogonalDown)
    } else if Clause::OrthogonalUp.applies(body, obstacle) {
        Some(Clause::OrthogonalUp)
    } else if Clause::OrthogonalRight.applies(body, obstacle) {
        Some(Clause::OrthogonalRight)
    } else if Clause::OrthogonalLeft.applies(body, obstacle) {
        Some(Clause::OrthogonalLeft)
    } else if Clause::DiagonalRight.applies(body, obstacle) {
        Some(Clause::DiagonalRight)
    } else if Clause::DiagonalLeft.applies(body, obstacle) {
        Some(Clause::DiagonalLeft)
    } else if Clause::DiagonalDown.applies(body, obstacle) {
        Some(Clause::DiagonalDown)
    } else if Clause::DiagonalUp.applies(body, obstacle) {
        Some(Clause::DiagonalUp)
    } else {
        None
    }
}

/// The matching rule is the first, in the order of the rules, whose
/// condition holds of a body that overlaps the obstacle.
pub proof fn lemma_matching_clause_is_first(body: ControlledBody, obstacle: StaticBody)
    ensures
        match matching_clause(body, obstacle) {
            Some(clause) => {
                &&& body.rect.overlaps(&obstacle.rect)
                &&& clause.applies(body, obstacle)
                &&& forall|other: Clause|
                    other.rank() < clause.rank() ==> !#[trigger] other.applies(body, obstacle)
            },
            None => !body.rect.overlaps(&obstacle.rect) || forall|other: Clause|
                !#[trigger] other.applies(body, obstacle),
        },
{
}

/// The body put against a face of the obstacle: its centre moves along one
/// axis until the facing edges coincide, and its velocity along that axis
/// becomes zero. Size, and centre and velocity along the other axis, stay.
pub open spec fn placed_against(body: ControlledBody, obstacle: StaticBody, face: Face)
    -> ControlledBody {
    let width = body.rect.size.x@;
    let height = body.rect.size.y@;
    let center = body.rect.center;
    let velocity = body.velocity;
    match face {
        Face::Top => ControlledBody {
            rect: Rect {
                center: Vector2 {
                    x: center.x,
                    y: Fixed { raw: (obstacle.rect.top() + height - trunc_div(height, 2)) as i64 },
                },
                size: body.rect.size,
            },
            velocity: Vector2 { x: velocity.x, y: Fixed { raw: 0 } },
        },
        Face::Bottom => ControlledBody {
            rect: Rect {
                center: Vector2 {
                    x: center.x,
                    y: Fixed { raw: (obstacle.rect.bottom() - trunc_div(height, 2)) as i64 },
                },
                size: body.rect.size,
            },
            velocity: Vector2 { x: velocity.x, y: Fixed { raw: 0 } },
        },
        Face::Left => ControlledBody {
            rect: Rect {
                center: Vector2 {
                    x: Fixed { raw: (obstacle.rect.left() - width + trunc_div(width, 2)) as i64 },
                    y: center.y,
                },
                size: body.rect.size,
            },
            velocity: Vector2 { x: Fixed { raw: 0 }, y: velocity.y },
        },
        Face::Right => ControlledBody {
            rect: Rect {
                center: Vector2 {
                    x: Fixed { raw: (obstacle.rect.right() + trunc_div(width, 2)) as i64 },
                    y: center.y,
                },
                size: body.rect.size,
            },
            velocity: Vector2 { x: Fixed { raw: 0 }, y: velocity.y },
        },
    }
}

/// The body after it was resolved against one obstacle.
pub open spec fn resolved_against(body: ControlledBody, obstacle: StaticBody) -> ControlledBody {
    match matching_clause(body, obstacle) {
        Some(clause) => placed_against(body, obstacle, clause.face()),
        None => body,
    }
}

/// The body after it was resolved against each obstacle in turn, each one
/// meeting the body as the obstacles before it left it.
pub open spec fn resolved(body: ControlledBody, obstacles: Seq<StaticBody>) -> ControlledBody
    decreases obstacles.len(),
{
    if obstacles.len() == 0 {
        body
    } else {
        resolved_against(resolved(body, obstacles.drop_last()), obstacles.last())
    }
}

/// Whether every obstacle of the sequence is well formed.
pub open spec fn all_wf(obstacles: Seq<StaticBody>) -> bool {
    forall|i: int| 0 <= i < obstacles.len() ==> (#[trigger] obstacles[i]).wf()
}

/// In a valid scene the centre that puts the body against a face of an
/// obstacle is an `i64`, and there the facing edges coincide.
pub proof fn lemma_placed_edges(body: ControlledBody, obstacle: StaticBody, face: Face)
    requires
        body.wf(),
        obstacle.wf(),
    ensures
        placed_against(body, obstacle, face).wf(),
        face == Face::Top ==> placed_against(body, obstacle, face).rect.bottom()
            == obstacle.rect.top(),
        face == Face::Bottom ==> placed_against(body, obstacle, face).rect.top()
            == obstacle.rect.bottom(),
        face == Face::Left ==> placed_against(body, obstacle, face).rect.right()
            == obstacle.rect.left(),
        face == Face::Right ==> placed_against(body, obstacle, face).rect.left()
            == obstacle.rect.right(),
{
}

/// The signs of the two components of a velocity.
pub fn heading(velocity: Vector2) -> (d: (i8, i8))
    ensures
        (d.0 as int, d.1 as int) == direction(velocity),
{
    let dx: i8 = if velocity.x.raw < 0 {
        -1
    } else if velocity.x.raw > 0 {
        1
    } else {
        0
    };
    let dy: i8 = if velocity.y.raw < 0 {
        -1
    } else if velocity.y.raw > 0 {
        1
    } else {
        0
    };
    (dx, dy)
}

/// Decides by which rule, if any, the body is resolved against the
/// obstacle.
pub fn find_clause(body: &ControlledBody, obstacle: &StaticBody) -> (r: Option<Clause>)
    ensures
        r == matching_clause(*body, *obstacle),
{
    let b: Edges = body.rect.edges();
    let o: Edges = obstacle.rect.edges();
    if !(b.left < o.right && b.right > o.left && b.bottom < o.top && b.top > o.bottom) {
        return None;
    }
    let (dx, dy) = heading(body.velocity);
    if dy < 0 && dx == 0 {
        Some(Clause::OrthogonalDown)
    } else if dy > 0 && dx == 0 {
        Some(Clause::OrthogonalUp)
    } else if dx > 0 && dy == 0 {
        Some(Clause::OrthogonalRight)
    } else if dx < 0 && dy == 0 {
        Some(Clause::OrthogonalLeft)
    } else if dx > 0 && b.left < o.left {
        Some(Clause::DiagonalRight)
    } else if dx < 0 && b.right > o.right {
        Some(Clause::DiagonalLeft)
    } else if dy < 0 && b.top > o.top {
        Some(Clause::DiagonalDown)
    } else if dy > 0 && b.bottom < o.bottom {
        Some(Clause::DiagonalUp)
    } else {
        None
    }
}

/// Puts the body against a face of the obstacle and stops it along that
/// axis.
pub fn place_against(body: &mut ControlledBody, obstacle: &StaticBody, face: Face)
    requires
        old(body).wf(),
        obstacle.wf(),
    ensures
        *final(body) == placed_against(*old(body), *obstacle, face),
        final(body).rect.size == old(body).rect.size,
        final(body).wf(),
{
    let o: Edges = obstacle.rect.edges();
    let width: i128 = body.rect.size.x.raw as i128;
    let height: i128 = body.rect.size.y.raw as i128;
    match face {
        Face::Top => {
            body.rect.center.y = Fixed { raw: (o.top + height - height / 2) as i64 };
            body.velocity.y = Fixed { raw: 0 };
        },
        Face::Bottom => {
            body.rect.center.y = Fixed { raw: (o.bottom - height / 2) as i64 };
            body.velocity.y = Fixed { raw: 0 };
        },
        Face::Left => {
            body.rect.center.x = Fixed { raw: (o.left - width + width / 2) as i64 };
            body.velocity.x = Fixed { raw: 0 };
        },
        Face::Right => {
            body.rect.center.x = Fixed { raw: (o.right + width / 2) as i64 };
            body.velocity.x = Fixed { raw: 0 };
        },
    }
}

/// Resolves the body against one obstacle and tells which rule did it.
pub fn resolve_against(body: &mut ControlledBody, obstacle: &StaticBody) -> (r: Option<Clause>)
    requires
        old(body).wf(),
        obstacle.wf(),
    ensures
        r == matching_clause(*old(body), *obstacle),
        *final(body) == resolved_against(*old(body), *obstacle),
        final(body).rect.size == old(body).rect.size,
        final(body).wf(),
{
    let clause: Option<Clause> = find_clause(body, obstacle);
    match clause {
        Some(c) => {
            place_against(body, obstacle, c.target());
        },
        None => {},
    }
    clause
}

/// Resolves the body against the obstacles, one after the other in the
/// order of the slice.
pub fn resolve(body: &mut ControlledBody, obstacles: &[StaticBody])
    requires
        old(body).wf(),
        all_wf(obstacles@),
    ensures
        *final(body) == resolved(*old(body), obstacles@),
        final(body).rect.size == old(body).rect.size,
        final(body).wf(),
{
    let mut i: usize = 0;
    while i < obstacles.len()
        invariant
            i <= obstacles.len(),
            body.wf(),
            body.rect.size == old(body).rect.size,
            all_wf(obstacles@),
            *body == resolved(*old(body), obstacles@.take(i as int)),
        decreases obstacles.len() - i,
    {
        resolve_against(body, &obstacles[i]);
        proof {
            assert(obstacles@.take(i + 1).drop_last() == obstacles@.take(i as int));
        }
        i += 1;
    }
    proof {
        assert(obstacles@.take(i as int) == obstacles@);
    }
}

} // verus!
