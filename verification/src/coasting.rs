//! Coasting: with no key held, damping and the dead zone bring every
//! velocity to rest within a fixed number of frames.

use vstd::prelude::*;
use vstd::arithmetic::power::pow;
use crate::body::{ControlledBody, StaticBody};
use crate::collision::resolved;
use crate::fixed::Fixed;
use crate::input::Key;
use crate::motion::{integrated, next_velocity, DEADZONE};

verus! {

/// Frames of coasting after which every velocity is zero.
pub const REST_FRAMES: usize = 145;

/// The size of `v`.
pub open spec fn magnitude(v: int) -> int {
    if v < 0 {
        -v
    } else {
        v
    }
}

/// A velocity component after `frames` frames without a push.
pub open spec fn coasted(v: int, frames: nat) -> int
    decreases frames,
{
    if frames == 0 {
        v
    } else {
        next_velocity(coasted(v, (frames - 1) as nat), 0)
    }
}

/// A frame without a push leaves at most four fifths of a velocity
/// component, and what it leaves is zero or outside the dead zone.
pub proof fn lemma_frame_shrinks(v: int)
    requires
        i64::MIN <= v <= i64::MAX,
    ensures
        5 * magnitude(next_velocity(v, 0)) <= 4 * magnitude(v),
        next_velocity(v, 0) == 0 || magnitude(next_velocity(v, 0)) >= DEADZONE,
        i64::MIN <= next_velocity(v, 0) <= i64::MAX,
{
}

/// After `frames` frames without a push a velocity component has shrunk by
/// the factor four fifths to the power of `frames`, or more.
pub proof fn lemma_coasted_shrinks(v: int, frames: nat)
    requires
        i64::MIN <= v <= i64::MAX,
    ensures
        magnitude(coasted(v, frames)) * pow(5, frames) <= magnitude(v) * pow(4, frames),
        i64::MIN <= coasted(v, frames) <= i64::MAX,
        frames > 0 ==> coasted(v, frames) == 0 || magnitude(coasted(v, frames)) >= DEADZONE,
    decreases frames,
{
    reveal(pow);
    if frames > 0 {
        let before = coasted(v, (frames - 1) as nat);
        let after = coasted(v, frames);
        lemma_coasted_shrinks(v, (frames - 1) as nat);
        lemma_frame_shrinks(before);
        let fives = pow(5, (frames - 1) as nat);
        let fours = pow(4, (frames - 1) as nat);
        vstd::arithmetic::power::lemma_pow_positive(5, (frames - 1) as nat);
        assert(magnitude(after) * (5 * fives) <= magnitude(v) * (4 * fours)) by (nonlinear_arith)
            requires
                5 * magnitude(after) <= 4 * magnitude(before),
                magnitude(before) * fives <= magnitude(v) * fours,
                fives > 0,
        ;
    }
}

/// Four fifths to the power of `REST_FRAMES` takes the largest velocity
/// into the dead zone.
proof fn lemma_rest_frames_suffice()
    ensures
        0x8000_0000_0000_0000 * pow(4, REST_FRAMES as nat) < DEADZONE * pow(5, REST_FRAMES as nat),
{
    assert(pow(5, 29) == 186264514923095703125 && pow(4, 29) == 288230376151711744) by {
        reveal_with_fuel(pow, 30);
    }
    assert(pow(5, 145) == pow(186264514923095703125, 5) && pow(4, 145) == pow(
        288230376151711744,
        5,
    )) by {
        vstd::arithmetic::power::lemma_pow_multiplies(5, 29, 5);
        vstd::arithmetic::power::lemma_pow_multiplies(4, 29, 5);
    }
    reveal_with_fuel(pow, 6);
}

/// A speed that four fifths to the power of `REST_FRAMES` bound from above
/// is zero, if it is zero or outside the dead zone.
proof fn lemma_bounded_speed_is_zero(start: int, speed: int)
    requires
        0 <= start <= 0x8000_0000_0000_0000,
        0 <= speed,
        speed * pow(5, REST_FRAMES as nat) <= start * pow(4, REST_FRAMES as nat),
        speed == 0 || speed >= DEADZONE,
    ensures
        speed == 0,
{
    lemma_rest_frames_suffice();
    let fives = pow(5, REST_FRAMES as nat);
    let fours = pow(4, REST_FRAMES as nat);
    vstd::arithmetic::power::lemma_pow_positive(5, REST_FRAMES as nat);
    vstd::arithmetic::power::lemma_pow_positive(4, REST_FRAMES as nat);
    assert(speed < DEADZONE) by (nonlinear_arith)
        requires
            0 <= start <= 0x8000_0000_0000_0000,
            0 <= speed,
            speed * fives <= start * fours,
            0x8000_0000_0000_0000 * fours < DEADZONE * fives,
            fives > 0,
            fours > 0,
    ;
}

/// Without a push every velocity component is exactly zero after
/// `REST_FRAMES` frames, and stays zero.
pub proof fn lemma_component_comes_to_rest(v: int, frames: nat)
    requires
        i64::MIN <= v <= i64::MAX,
        frames >= REST_FRAMES,
    ensures
        coasted(v, frames) == 0,
    decreases frames,
{
    if frames == REST_FRAMES {
        lemma_coasted_shrinks(v, frames);
        lemma_bounded_speed_is_zero(magnitude(v), magnitude(coasted(v, frames)));
    } else {
        lemma_component_comes_to_rest(v, (frames - 1) as nat);
    }
}

/// The body after frames without input and without obstacles; `frames`
/// gives the length of each frame in seconds.
pub open spec fn coasting(body: ControlledBody, frames: Seq<Fixed>) -> ControlledBody
    decreases frames.len(),
{
    if frames.len() == 0 {
        body
    } else {
        integrated(coasting(body, frames.drop_last()), Set::<Key>::empty(), frames.last())
    }
}

/// While a body coasts, each component of its velocity goes its own way,
/// whatever the frames took.
pub proof fn lemma_coasting_velocity(body: ControlledBody, frames: Seq<Fixed>)
    ensures
        coasting(body, frames).velocity.x@ == coasted(body.velocity.x@, frames.len()),
        coasting(body, frames).velocity.y@ == coasted(body.velocity.y@, frames.len()),
    decreases frames.len(),
{
    if frames.len() > 0 {
        lemma_coasting_velocity(body, frames.drop_last());
        let before = coasting(body, frames.drop_last());
        lemma_frame_shrinks(before.velocity.x@);
        lemma_frame_shrinks(before.velocity.y@);
    }
}

/// Whatever its velocity, a body that gets no input is at rest after
/// `REST_FRAMES` frames, and stays at rest.
pub proof fn lemma_body_comes_to_rest(body: ControlledBody, frames: Seq<Fixed>)
    requires
        frames.len() >= REST_FRAMES,
    ensures
        coasting(body, frames).velocity@ == (0int, 0int),
{
    lemma_coasting_velocity(body, frames);
    lemma_component_comes_to_rest(body.velocity.x@, frames.len());
    lemma_component_comes_to_rest(body.velocity.y@, frames.len());
}

/// The body after frames without input among `obstacles`: each frame
/// moves the body and then resolves its collisions.
pub open spec fn drifting(body: ControlledBody, obstacles: Seq<StaticBody>, frames: Seq<Fixed>)
    -> ControlledBody
    decreases frames.len(),
{
    if frames.len() == 0 {
        body
    } else {
        resolved(
            integrated(
                drifting(body, obstacles, frames.drop_last()),
                Set::<Key>::empty(),
                frames.last(),
            ),
            obstacles,
        )
    }
}

/// Resolving collisions leaves each velocity component as it was or makes
/// it zero.
pub proof fn lemma_resolved_velocity(body: ControlledBody, obstacles: Seq<StaticBody>)
    ensures
        resolved(body, obstacles).velocity.x@ == body.velocity.x@ || resolved(
            body,
            obstacles,
        ).velocity.x@ == 0,
        resolved(body, obstacles).velocity.y@ == body.velocity.y@ || resolved(
            body,
            obstacles,
        ).velocity.y@ == 0,
    decreases obstacles.len(),
{
    if obstacles.len() > 0 {
        lemma_resolved_velocity(body, obstacles.drop_last());
    }
}

/// A frame without input among obstacles shrinks each velocity component
/// as coasting does, or more.
proof fn lemma_drifting_shrinks(
    body: ControlledBody,
    obstacles: Seq<StaticBody>,
    frames: Seq<Fixed>,
)
    ensures
        ({
            let after = drifting(body, obstacles, frames).velocity;
            let n = frames.len();
            &&& magnitude(after.x@) * pow(5, n) <= magnitude(body.velocity.x@) * pow(4, n)
            &&& magnitude(after.y@) * pow(5, n) <= magnitude(body.velocity.y@) * pow(4, n)
            &&& n > 0 ==> after.x@ == 0 || magnitude(after.x@) >= DEADZONE
            &&& n > 0 ==> after.y@ == 0 || magnitude(after.y@) >= DEADZONE
        }),
    decreases frames.len(),
{
    reveal(pow);
    if frames.len() > 0 {
        let n = (frames.len() - 1) as nat;
        let before = drifting(body, obstacles, frames.drop_last());
        let moved = integrated(before, Set::<Key>::empty(), frames.last());
        let after = drifting(body, obstacles, frames);
        lemma_drifting_shrinks(body, obstacles, frames.drop_last());
        lemma_frame_shrinks(before.velocity.x@);
        lemma_frame_shrinks(before.velocity.y@);
        lemma_resolved_velocity(moved, obstacles);
        let fives = pow(5, n);
        let fours = pow(4, n);
        vstd::arithmetic::power::lemma_pow_positive(5, n);
        vstd::arithmetic::power::lemma_pow_positive(4, n);
        assert(magnitude(after.velocity.x@) * (5 * fives) <= magnitude(body.velocity.x@) * (4 * fours))
            by (nonlinear_arith)
            requires
                5 * magnitude(after.velocity.x@) <= 4 * magnitude(before.velocity.x@),
                magnitude(before.velocity.x@) * fives <= magnitude(body.velocity.x@) * fours,
                fives > 0,
        ;
        assert(magnitude(after.velocity.y@) * (5 * fives) <= magnitude(body.velocity.y@) * (4 * fours))
            by (nonlinear_arith)
            requires
                5 * magnitude(after.velocity.y@) <= 4 * magnitude(before.velocity.y@),
                magnitude(before.velocity.y@) * fives <= magnitude(body.velocity.y@) * fours,
                fives > 0,
        ;
    }
}

/// Among obstacles too, a body that gets no input is at rest after
/// `REST_FRAMES` frames, and stays at rest, whatever it collides with on
/// the way.
pub proof fn lemma_drifting_comes_to_rest(
    body: ControlledBody,
    obstacles: Seq<StaticBody>,
    frames: Seq<Fixed>,
)
    requires
        frames.len() >= REST_FRAMES,
    ensures
        drifting(body, obstacles, frames).velocity@ == (0int, 0int),
    decreases frames.len(),
{
    if frames.len() == REST_FRAMES {
        lemma_drifting_shrinks(body, obstacles, frames);
        let after = drifting(body, obstacles, frames).velocity;
        lemma_bounded_speed_is_zero(magnitude(body.velocity.x@), magnitude(after.x@));
        lemma_bounded_speed_is_zero(magnitude(body.velocity.y@), magnitude(after.y@));
    } else {
        lemma_drifting_comes_to_rest(body, obstacles, frames.drop_last());
        let before = drifting(body, obstacles, frames.drop_last());
        let moved = integrated(before, Set::<Key>::empty(), frames.last());
        lemma_resolved_velocity(moved, obstacles);
    }
}

} // verus!
