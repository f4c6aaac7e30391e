//! What resolving collisions achieves: when it parts the body from an
//! obstacle, and when resolving a second time changes nothing.

use vstd::prelude::*;
use crate::body::{ControlledBody, StaticBody};
use crate::collision::{
    direction, lemma_placed_edges, matching_clause, resolved, resolved_against,
};

verus! {

/// Whether the body is at rest.
pub open spec fn at_rest(body: ControlledBody) -> bool {
    body.velocity@ == (0int, 0int)
}

/// Whether the body moves along one axis only.
pub open spec fn moves_along_an_axis(body: ControlledBody) -> bool {
    (direction(body.velocity).0 == 0) != (direction(body.velocity).1 == 0)
}

/// Whether the body overlaps none of the obstacles.
pub open spec fn clear_of(body: ControlledBody, obstacles: Seq<StaticBody>) -> bool {
    forall|i: int| 0 <= i < obstacles.len() ==> !body.rect.overlaps(&(#[trigger] obstacles[i]).rect)
}

/// Resolving against a single obstacle is resolving against a sequence of
/// one.
pub proof fn lemma_resolved_single(body: ControlledBody, obstacle: StaticBody)
    ensures
        resolved(body, seq![obstacle]) == resolved_against(body, obstacle),
{
    let obstacles = seq![obstacle];
    assert(obstacles.drop_last().len() == 0);
    assert(obstacles.last() == obstacle);
    reveal_with_fuel(resolved, 2);
}

/// Without obstacles resolving changes nothing.
pub proof fn lemma_resolved_none(body: ControlledBody)
    ensures
        resolved(body, Seq::<StaticBody>::empty()) == body,
{
}

/// Whenever a rule applies, it parts the body from the obstacle: after
/// resolving against an obstacle the body overlaps it only where it did
/// before and no rule applied.
pub proof fn lemma_rule_separates(body: ControlledBody, obstacle: StaticBody)
    requires
        body.wf(),
        obstacle.wf(),
    ensures
        resolved_against(body, obstacle).rect.overlaps(&obstacle.rect) <==> body.rect.overlaps(
            &obstacle.rect,
        ) && matching_clause(body, obstacle) is None,
{
    match matching_clause(body, obstacle) {
        Some(clause) => {
            lemma_placed_edges(body, obstacle, clause.face());
        },
        None => {},
    }
}

/// After resolving against a single obstacle, a body that moves along one
/// axis does not overlap the obstacle. Where it did overlap, it was
/// stopped along its axis of motion, which leaves it at rest, and moved
/// along that axis only; where it did not, it is unchanged.
pub proof fn lemma_axis_motion_separates(body: ControlledBody, obstacle: StaticBody)
    requires
        body.wf(),
        obstacle.wf(),
        moves_along_an_axis(body),
    ensures
        ({
            let after = resolved(body, seq![obstacle]);
            &&& !after.rect.overlaps(&obstacle.rect)
            &&& after.rect.size == body.rect.size
            &&& !body.rect.overlaps(&obstacle.rect) ==> after == body
            &&& body.rect.overlaps(&obstacle.rect) ==> at_rest(after)
            &&& direction(body.velocity).0 == 0 ==> after.rect.center.x == body.rect.center.x
            &&& direction(body.velocity).1 == 0 ==> after.rect.center.y == body.rect.center.y
        }),
{
    lemma_resolved_single(body, obstacle);
    lemma_rule_separates(body, obstacle);
}

/// A body at rest is not moved by resolving: every rule asks for motion.
pub proof fn lemma_at_rest_unmoved(body: ControlledBody, obstacles: Seq<StaticBody>)
    requires
        at_rest(body),
    ensures
        resolved(body, obstacles) == body,
    decreases obstacles.len(),
{
    if obstacles.len() > 0 {
        lemma_at_rest_unmoved(body, obstacles.drop_last());
    }
}

/// A body that overlaps no obstacle is not changed by resolving.
pub proof fn lemma_clear_unmoved(body: ControlledBody, obstacles: Seq<StaticBody>)
    requires
        clear_of(body, obstacles),
    ensures
        resolved(body, obstacles) == body,
    decreases obstacles.len(),
{
    if obstacles.len() > 0 {
        let front = obstacles.drop_last();
        assert forall|i: int| 0 <= i < front.len() implies !body.rect.overlaps(
            &(#[trigger] front[i]).rect,
        ) by {
            assert(front[i] == obstacles[i]);
        }
        lemma_clear_unmoved(body, front);
        assert(!body.rect.overlaps(&obstacles[obstacles.len() - 1].rect));
    }
}

/// Resolving changes the body only by stopping it along an axis.
pub proof fn lemma_resolved_stops_an_axis(body: ControlledBody, obstacles: Seq<StaticBody>)
    ensures
        resolved(body, obstacles) == body || resolved(body, obstacles).velocity.x@ == 0
            || resolved(body, obstacles).velocity.y@ == 0,
    decreases obstacles.len(),
{
    if obstacles.len() > 0 {
        lemma_resolved_stops_an_axis(body, obstacles.drop_last());
    }
}

/// A body that moves along one axis and overlaps an obstacle is brought
/// to rest by resolving.
pub proof fn lemma_axis_motion_stops(body: ControlledBody, obstacles: Seq<StaticBody>)
    requires
        moves_along_an_axis(body),
        !clear_of(body, obstacles),
    ensures
        at_rest(resolved(body, obstacles)),
    decreases obstacles.len(),
{
    let front = obstacles.drop_last();
    if clear_of(body, front) {
        lemma_clear_unmoved(body, front);
        let i = choose|i: int| 0 <= i < obstacles.len() && body.rect.overlaps(&obstacles[i].rect);
        if i < front.len() {
            assert(front[i] == obstacles[i]);
        }
        assert(body.rect.overlaps(&obstacles.last().rect));
    } else {
        lemma_axis_motion_stops(body, front);
        lemma_at_rest_unmoved(resolved(body, front), seq![obstacles.last()]);
        lemma_resolved_single(resolved(body, front), obstacles.last());
    }
}

/// Resolving a second time, with nothing in between, changes nothing
/// exactly where the first time changed nothing, left the body at rest, or
/// left it clear of every obstacle.
pub proof fn lemma_resolve_twice(body: ControlledBody, obstacles: Seq<StaticBody>)
    ensures
        ({
            let once = resolved(body, obstacles);
            resolved(once, obstacles) == once <==> once == body || at_rest(once) || clear_of(
                once,
                obstacles,
            )
        }),
{
    let once = resolved(body, obstacles);
    if once == body {
    } else if at_rest(once) {
        lemma_at_rest_unmoved(once, obstacles);
    } else if clear_of(once, obstacles) {
        lemma_clear_unmoved(once, obstacles);
    } else {
        lemma_resolved_stops_an_axis(body, obstacles);
        lemma_axis_motion_stops(once, obstacles);
    }
}

/// With one obstacle, resolving against it a second time changes nothing.
pub proof fn lemma_resolve_twice_single(body: ControlledBody, obstacle: StaticBody)
    requires
        body.wf(),
        obstacle.wf(),
    ensures
        resolved(resolved(body, seq![obstacle]), seq![obstacle]) == resolved(body, seq![obstacle]),
{
    let obstacles = seq![obstacle];
    let once = resolved(body, obstacles);
    lemma_resolved_single(body, obstacle);
    lemma_rule_separates(body, obstacle);
    if once != body {
        assert(clear_of(once, obstacles));
    }
    lemma_resolve_twice(body, obstacles);
}

/// For a body that moves along one axis, and for a body at rest,
/// resolving a second time changes nothing, whatever the obstacles.
pub proof fn lemma_resolve_twice_axis(body: ControlledBody, obstacles: Seq<StaticBody>)
    requires
        body.velocity.x@ == 0 || body.velocity.y@ == 0,
    ensures
        resolved(resolved(body, obstacles), obstacles) == resolved(body, obstacles),
{
    if at_rest(body) {
        lemma_at_rest_unmoved(body, obstacles);
    } else if clear_of(body, obstacles) {
        lemma_clear_unmoved(body, obstacles);
    } else {
        lemma_axis_motion_stops(body, obstacles);
    }
    lemma_resolve_twice(body, obstacles);
}

} // verus!
