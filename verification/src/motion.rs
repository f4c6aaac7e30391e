//! Motion of the controlled body over one frame: the push of the keys,
//! damping, the step along the velocity, and the dead zone.

use vstd::prelude::*;
use crate::body::{ControlledBody, Rect};
use crate::fixed::{saturate, saturate_to_i64, trunc_div, trunc_div_i128, Fixed, SCALE};
use crate::input::{Key, Keys};
use crate::vector::Vector2;

verus! {

/// Damping keeps four fifths of the velocity each frame, whatever the
/// frame took.
pub const DAMPING_NUM: i64 = 4;

pub const DAMPING_DEN: i64 = 5;

/// Distance covered per second at velocity one.
pub const SPEED: i64 = 100;

/// A velocity component closer to zero than a tenth is set to zero.
pub const DEADZONE: i64 = 100_000;

/// The push of the held keys on the velocity: one unit to the right for
/// `Right`, one to the left for `Left`, one up for `Up`, one down for
/// `Down`. Opposite keys cancel, and a push along both axes is not scaled
/// down.
pub open spec fn impulse(keys: Set<Key>) -> (int, int) {
    (
        (if keys.contains(Key::Right) { SCALE as int } else { 0int })
            - (if keys.contains(Key::Left) { SCALE as int } else { 0int }),
        (if keys.contains(Key::Up) { SCALE as int } else { 0int })
            - (if keys.contains(Key::Down) { SCALE as int } else { 0int }),
    )
}

/// A velocity component after a push.
pub open spec fn pushed(v: int, push: int) -> int {
    saturate(v + push)
}

/// A velocity component after damping.
pub open spec fn damped(v: int) -> int {
    trunc_div(v * DAMPING_NUM, DAMPING_DEN as int)
}

/// The distance covered in `dt` seconds at velocity `v`.
pub open spec fn travel(v: int, dt: int) -> int {
    trunc_div(v * dt * SPEED, SCALE as int)
}

/// A velocity component after the dead zone.
pub open spec fn settled(v: int) -> int {
    if -DEADZONE < v < DEADZONE {
        0
    } else {
        v
    }
}

/// The velocity component that a frame leaves of `v` under a push.
pub open spec fn next_velocity(v: int, push: int) -> int {
    settled(damped(pushed(v, push)))
}

/// The coordinate that a frame of `dt` seconds leaves of `p`, at velocity
/// component `v` and under a push: the step is taken at the damped
/// velocity, before the dead zone.
pub open spec fn next_position(p: int, v: int, push: int, dt: int) -> int {
    saturate(p + travel(damped(pushed(v, push)), dt))
}

/// The body after a frame of `dt` seconds with `keys` held down.
pub open spec fn integrated(body: ControlledBody, keys: Set<Key>, dt: Fixed) -> ControlledBody {
    let (px, py) = impulse(keys);
    ControlledBody {
        rect: Rect {
            center: Vector2 {
                x: Fixed {
                    raw: next_position(body.rect.center.x@, body.velocity.x@, px, dt@) as i64,
                },
                y: Fixed {
                    raw: next_position(body.rect.center.y@, body.velocity.y@, py, dt@) as i64,
                },
            },
            size: body.rect.size,
        },
        velocity: Vector2 {
            x: Fixed { raw: next_velocity(body.velocity.x@, px) as i64 },
            y: Fixed { raw: next_velocity(body.velocity.y@, py) as i64 },
        },
    }
}

/// Scaling by the speed and dividing by the scale is dividing by their
/// quotient.
proof fn lemma_travel_quotient(p: int)
    ensures
        trunc_div(p * SPEED, SCALE as int) == trunc_div(p, 10_000),
{
    if p >= 0 {
        vstd::arithmetic::div_mod::lemma_div_multiples_vanish_quotient(100, p, 10_000);
    } else {
        vstd::arithmetic::div_mod::lemma_div_multiples_vanish_quotient(100, -p, 10_000);
    }
}

/// The push of the held keys on the velocity.
pub fn key_impulse(keys: Keys) -> (r: Vector2)
    ensures
        r@ == impulse(keys@),
{
    let right: i64 = if keys.right { SCALE } else { 0 };
    let left: i64 = if keys.left { SCALE } else { 0 };
    let up: i64 = if keys.up { SCALE } else { 0 };
    let down: i64 = if keys.down { SCALE } else { 0 };
    assert(keys@.contains(Key::Right) == keys.holds(Key::Right));
    assert(keys@.contains(Key::Left) == keys.holds(Key::Left));
    assert(keys@.contains(Key::Up) == keys.holds(Key::Up));
    assert(keys@.contains(Key::Down) == keys.holds(Key::Down));
    Vector2 { x: Fixed { raw: right - left }, y: Fixed { raw: up - down } }
}

/// Damps a velocity component.
pub fn damp(v: Fixed) -> (r: Fixed)
    ensures
        r@ == damped(v@),
{
    let num: i128 = DAMPING_NUM as i128;
    let den: i128 = DAMPING_DEN as i128;
    Fixed { raw: trunc_div_i128(v.raw as i128 * num, den) as i64 }
}

/// The distance covered in `dt` seconds at velocity `v`, in raw units. It
/// may lie far outside the range of a coordinate.
pub fn distance(v: Fixed, dt: Fixed) -> (r: i128)
    ensures
        r == travel(v@, dt@),
        -0x4000_0000_0000_0000_0000_0000_0000_0000 <= r <= 0x4000_0000_0000_0000_0000_0000_0000_0000,
{
    assert(-0x4000_0000_0000_0000_0000_0000_0000_0000 <= v.raw * dt.raw
        <= 0x4000_0000_0000_0000_0000_0000_0000_0000) by (nonlinear_arith)
        requires
            -0x8000_0000_0000_0000 <= v.raw <= 0x8000_0000_0000_0000,
            -0x8000_0000_0000_0000 <= dt.raw <= 0x8000_0000_0000_0000,
    ;
    let product: i128 = (v.raw as i128) * (dt.raw as i128);
    proof {
        lemma_travel_quotient(product as int);
    }
    let unit: i128 = (SCALE / SPEED) as i128;
    trunc_div_i128(product, unit)
}

/// Applies the dead zone to a velocity component.
pub fn settle(v: Fixed) -> (r: Fixed)
    ensures
        r@ == settled(v@),
{
    if -DEADZONE < v.raw && v.raw < DEADZONE {
        Fixed { raw: 0 }
    } else {
        v
    }
}

/// One axis of a frame: the new coordinate and the new velocity component.
pub fn integrate_axis(p: Fixed, v: Fixed, push: Fixed, dt: Fixed) -> (r: (Fixed, Fixed))
    ensures
        r.0@ == next_position(p@, v@, push@, dt@),
        r.1@ == next_velocity(v@, push@),
{
    let damped_v: Fixed = damp(v.saturating_add(push));
    let position: i64 = saturate_to_i64(p.raw as i128 + distance(damped_v, dt));
    (Fixed { raw: position }, settle(damped_v))
}

/// Advances the body by one frame of `dt` seconds with `keys` held down.
pub fn integrate(body: &mut ControlledBody, keys: Keys, dt: Fixed)
    ensures
        *final(body) == integrated(*old(body), keys@, dt),
        final(body).rect.size == old(body).rect.size,
{
    let push: Vector2 = key_impulse(keys);
    let (x, vx) = integrate_axis(body.rect.center.x, body.velocity.x, push.x, dt);
    let (y, vy) = integrate_axis(body.rect.center.y, body.velocity.y, push.y, dt);
    body.rect.center = Vector2 { x, y };
    body.velocity = Vector2 { x: vx, y: vy };
}

} // verus!
