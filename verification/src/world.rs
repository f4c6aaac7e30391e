//! The scene: the controlled body and the obstacles, and the update that a
//! frame applies to it.

use vstd::prelude::*;
use crate::body::{ControlledBody, Rect, StaticBody};
use crate::collision::{all_wf, resolve, resolved};
use crate::fixed::{Fixed, SCALE};
use crate::input::Keys;
use crate::motion::{integrate, integrated};
use crate::vector::Vector2;

verus! {

/// One controlled body and the obstacles, in the order in which collisions
/// with them are resolved.
#[derive(Debug)]
pub struct World {
    pub body: ControlledBody,
    pub obstacles: Vec<StaticBody>,
}

/// The controlled body of the opening scene: at the origin, fifty wide and
/// fifty high, at rest.
pub open spec fn opening_body() -> ControlledBody {
    ControlledBody {
        rect: Rect {
            center: Vector2 { x: Fixed { raw: 0 }, y: Fixed { raw: 0 } },
            size: Vector2 { x: Fixed { raw: 50_000_000 }, y: Fixed { raw: 50_000_000 } },
        },
        velocity: Vector2 { x: Fixed { raw: 0 }, y: Fixed { raw: 0 } },
    }
}

/// The obstacle of the opening scene: a wall fifty wide and five hundred
/// high, centred four hundred to the left of the origin.
pub open spec fn opening_wall() -> StaticBody {
    StaticBody {
        rect: Rect {
            center: Vector2 { x: Fixed { raw: -400_000_000i64 }, y: Fixed { raw: 0 } },
            size: Vector2 { x: Fixed { raw: 50_000_000 }, y: Fixed { raw: 500_000_000 } },
        },
    }
}

/// Whether every obstacle of the slice is well formed.
pub fn all_valid(obstacles: &[StaticBody]) -> (r: bool)
    ensures
        r == all_wf(obstacles@),
{
    let mut i: usize = 0;
    while i < obstacles.len()
        invariant
            i <= obstacles.len(),
            forall|j: int| 0 <= j < i ==> (#[trigger] obstacles@[j]).wf(),
        decreases obstacles.len() - i,
    {
        if !obstacles[i].is_valid() {
            return false;
        }
        i += 1;
    }
    true
}

impl World {
    /// The body and every obstacle are well formed.
    pub open spec fn wf(&self) -> bool {
        self.body.wf() && all_wf(self.obstacles@)
    }

    /// The scene made of `body` and `obstacles`, if all of them are well
    /// formed.
    pub fn new(body: ControlledBody, obstacles: Vec<StaticBody>) -> (r: Option<World>)
        ensures
            r is Some <==> body.wf() && all_wf(obstacles@),
            r matches Some(w) ==> w.body == body && w.obstacles@ == obstacles@,
    {
        let world = World { body, obstacles };
        if world.is_valid() {
            Some(world)
        } else {
            None
        }
    }

    /// Whether the scene is well formed.
    pub fn is_valid(&self) -> (r: bool)
        ensures
            r == self.wf(),
    {
        self.body.is_valid() && all_valid(self.obstacles.as_slice())
    }

    /// One frame of `dt` seconds with `keys` held down: the body moves,
    /// then collisions are resolved on where it arrived. The obstacles
    /// stay as they are.
    pub fn on_frame(&mut self, dt: Fixed, keys: Keys)
        requires
            old(self).wf(),
        ensures
            final(self).wf(),
            final(self).obstacles == old(self).obstacles,
            final(self).body.rect.size == old(self).body.rect.size,
            final(self).body == resolved(
                integrated(old(self).body, keys@, dt),
                old(self).obstacles@,
            ),
    {
        integrate(&mut self.body, keys, dt);
        resolve(&mut self.body, self.obstacles.as_slice());
    }
}

/// The opening scene.
pub fn init_world() -> (w: World)
    ensures
        w.wf(),
        w.body == opening_body(),
        w.obstacles@ == seq![opening_wall()],
{
    let body = ControlledBody {
        rect: Rect {
            center: Vector2 { x: Fixed { raw: 0 }, y: Fixed { raw: 0 } },
            size: Vector2 { x: Fixed { raw: 50 * SCALE }, y: Fixed { raw: 50 * SCALE } },
        },
        velocity: Vector2 { x: Fixed { raw: 0 }, y: Fixed { raw: 0 } },
    };
    let wall = StaticBody {
        rect: Rect {
            center: Vector2 { x: Fixed { raw: -400 * SCALE }, y: Fixed { raw: 0 } },
            size: Vector2 { x: Fixed { raw: 50 * SCALE }, y: Fixed { raw: 500 * SCALE } },
        },
    };
    let mut obstacles: Vec<StaticBody> = Vec::new();
    obstacles.push(wall);
    assert(obstacles@ =~= seq![opening_wall()]);
    World { body, obstacles }
}

} // verus!
