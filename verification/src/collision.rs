//! Axis-aligned bounding-box collision detection between the head and tagged
//! collidable entities, emitting one-shot events into caller-owned queues.

use crate::ingame::Transform;
use vstd::prelude::*;

verus! {

/// One-shot signal: the head overlapped a food entity this tick.
#[derive(Clone, Copy, Debug, PartialEq, Eq, Structural)]
pub struct FoodEaten;

/// One-shot signal: the head overlapped a hazard entity this tick.
#[derive(Clone, Copy, Debug, PartialEq, Eq, Structural)]
pub struct PlayerKilled;

// A box spans `translation - scale/2 ..= translation + scale/2` on each axis.
// To keep half-unit endpoints exact on the integer grid, interval endpoints
// are stated doubled: `2*translation - scale ..= 2*translation + scale`.

/// Doubled left endpoint of the box's x-interval.
pub open spec fn box_min_x2(t: Transform) -> int {
    2 * t.translation.x - t.scale.x
}

/// Doubled right endpoint of the box's x-interval.
pub open spec fn box_max_x2(t: Transform) -> int {
    2 * t.translation.x + t.scale.x
}

/// Doubled bottom endpoint of the box's y-interval.
pub open spec fn box_min_y2(t: Transform) -> int {
    2 * t.translation.y - t.scale.y
}

/// Doubled top endpoint of the box's y-interval.
pub open spec fn box_max_y2(t: Transform) -> int {
    2 * t.translation.y + t.scale.y
}

/// Closed-interval overlap on both axes: touching edges count as overlap.
pub open spec fn aabb_overlaps(a: Transform, b: Transform) -> bool {
    &&& box_min_x2(a) <= box_max_x2(b)
    &&& box_min_x2(b) <= box_max_x2(a)
    &&& box_min_y2(a) <= box_max_y2(b)
    &&& box_min_y2(b) <= box_max_y2(a)
}

/// Whether the boxes placed by the two transforms overlap.
pub fn overlaps(a: &Transform, b: &Transform) -> (r: bool)
    ensures
        r == aabb_overlaps(*a, *b),
{
    let a_min_x: i128 = 2 * (a.translation.x as i128) - (a.scale.x as i128);
    let a_max_x: i128 = 2 * (a.translation.x as i128) + (a.scale.x as i128);
    let a_min_y: i128 = 2 * (a.translation.y as i128) - (a.scale.y as i128);
    let a_max_y: i128 = 2 * (a.translation.y as i128) + (a.scale.y as i128);
    let b_min_x: i128 = 2 * (b.translation.x as i128) - (b.scale.x as i128);
    let b_max_x: i128 = 2 * (b.translation.x as i128) + (b.scale.x as i128);
    let b_min_y: i128 = 2 * (b.translation.y as i128) - (b.scale.y as i128);
    let b_max_y: i128 = 2 * (b.translation.y as i128) + (b.scale.y as i128);
    a_min_x <= b_max_x && b_min_x <= a_max_x && a_min_y <= b_max_y && b_min_y <= a_max_y
}

/// A collidable entity: its box placement plus the category markers the
/// detector filters on.
#[derive(Clone, Copy, Debug, PartialEq, Eq, Structural)]
pub struct Collider {
    pub trans: Transform,
    pub food: bool,
    pub player_killer: bool,
    pub head: bool,
}

/// How many of the boxes overlap the head box.
pub open spec fn overlap_count(head: Transform, boxes: Seq<Transform>) -> nat
    decreases boxes.len(),
{
    if boxes.len() == 0 {
        0
    } else {
        overlap_count(head, boxes.drop_last()) + (if aabb_overlaps(boxes.last(), head) {
            1nat
        } else {
            0nat
        })
    }
}

/// Whether the eat check fires for this entity: it is food and its box
/// overlaps the head box.
pub open spec fn eats(c: Collider, head: Transform) -> bool {
    c.food && aabb_overlaps(c.trans, head)
}

/// Whether the kill check fires for this entity: it is a hazard, it is not
/// the head itself, and its box overlaps the head box.
pub open spec fn kills(c: Collider, head: Transform) -> bool {
    c.player_killer && !c.head && aabb_overlaps(c.trans, head)
}

/// How many entities the eat check fires for.
pub open spec fn eat_count(head: Transform, colliders: Seq<Collider>) -> nat
    decreases colliders.len(),
{
    if colliders.len() == 0 {
        0
    } else {
        eat_count(head, colliders.drop_last()) + (if eats(colliders.last(), head) {
            1nat
        } else {
            0nat
        })
    }
}

/// How many entities the kill check fires for.
pub open spec fn kill_count(head: Transform, colliders: Seq<Collider>) -> nat
    decreases colliders.len(),
{
    if colliders.len() == 0 {
        0
    } else {
        kill_count(head, colliders.drop_last()) + (if kills(colliders.last(), head) {
            1nat
        } else {
            0nat
        })
    }
}

/// Write one copy of `event` into the queue for every box that overlaps the
/// head box; no de-duplication, and nothing is removed from the queue.
fn detect_collision<T: Copy>(
    head_transform: &Transform,
    colliders_transforms: &Vec<Transform>,
    event_writer: &mut Vec<T>,
    event: T,
)
    ensures
        final(event_writer)@ == old(event_writer)@ + Seq::new(
            overlap_count(*head_transform, colliders_transforms@),
            |i: int| event,
        ),
{
    let ghost orig = event_writer@;
    let n = colliders_transforms.len();
    let mut idx: usize = 0;
    while idx < n
        invariant
            n == colliders_transforms@.len(),
            idx <= n,
            event_writer@ == orig + Seq::new(
                overlap_count(*head_transform, colliders_transforms@.take(idx as int)),
                |i: int| event,
            ),
        decreases n - idx,
    {
        let ghost pre = colliders_transforms@.take(idx as int);
        let ghost post = colliders_transforms@.take(idx as int + 1);
        proof {
            assert(post.drop_last() =~= pre);
        }
        if overlaps(&colliders_transforms[idx], head_transform) {
            event_writer.push(event);
            proof {
                assert(event_writer@ =~= orig + Seq::new(
                    overlap_count(*head_transform, post),
                    |i: int| event,
                ));
            }
        } else {
            proof {
                assert(event_writer@ =~= orig + Seq::new(
                    overlap_count(*head_transform, post),
                    |i: int| event,
                ));
            }
        }
        idx = idx + 1;
    }
    proof {
        assert(colliders_transforms@.take(n as int) =~= colliders_transforms@);
    }
}

/// The eat pass of one tick: one `FoodEaten` event per food entity whose
/// box overlaps the head box. Overlapped entities are not removed; reacting
/// to the events is the caller's responsibility.
pub fn detect_collision_player_eat(
    head_transform: &Transform,
    colliders: &Vec<Collider>,
    event_writer: &mut Vec<FoodEaten>,
)
    ensures
        final(event_writer)@ == old(event_writer)@ + Seq::new(
            eat_count(*head_transform, colliders@),
            |i: int| FoodEaten,
        ),
{
    let mut food_transforms: Vec<Transform> = Vec::new();
    let n = colliders.len();
    let mut idx: usize = 0;
    while idx < n
        invariant
            n == colliders@.len(),
            idx <= n,
            overlap_count(*head_transform, food_transforms@) == eat_count(
                *head_transform,
                colliders@.take(idx as int),
            ),
        decreases n - idx,
    {
        let ghost pre = colliders@.take(idx as int);
        let ghost post = colliders@.take(idx as int + 1);
        let ghost foods = food_transforms@;
        proof {
            assert(post.drop_last() =~= pre);
        }
        if colliders[idx].food {
            food_transforms.push(colliders[idx].trans);
            proof {
                assert(food_transforms@.drop_last() =~= foods);
            }
        }
        idx = idx + 1;
    }
    proof {
        assert(colliders@.take(n as int) =~= colliders@);
    }
    detect_collision(head_transform, &food_transforms, event_writer, FoodEaten);
}

/// The kill pass of one tick: one `PlayerKilled` event per hazard entity,
/// other than the head itself, whose box overlaps the head box.
pub fn detect_collision_player_kill(
    head_transform: &Transform,
    colliders: &Vec<Collider>,
    event_writer: &mut Vec<PlayerKilled>,
)
    ensures
        final(event_writer)@ == old(event_writer)@ + Seq::new(
            kill_count(*head_transform, colliders@),
            |i: int| PlayerKilled,
        ),
{
    let mut hazard_transforms: Vec<Transform> = Vec::new();
    let n = colliders.len();
    let mut idx: usize = 0;
    while idx < n
        invariant
            n == colliders@.len(),
            idx <= n,
            overlap_count(*head_transform, hazard_transforms@) == kill_count(
                *head_transform,
                colliders@.take(idx as int),
            ),
        decreases n - idx,
    {
        let ghost pre = colliders@.take(idx as int);
        let ghost post = colliders@.take(idx as int + 1);
        let ghost hazards = hazard_transforms@;
        proof {
            assert(post.drop_last() =~= pre);
        }
        if colliders[idx].player_killer && !colliders[idx].head {
            hazard_transforms.push(colliders[idx].trans);
            proof {
                assert(hazard_transforms@.drop_last() =~= hazards);
            }
        }
        idx = idx + 1;
    }
    proof {
        assert(colliders@.take(n as int) =~= colliders@);
    }
    detect_collision(head_transform, &hazard_transforms, event_writer, PlayerKilled);
}

/// Two boxes whose x-intervals are disjoint, or whose y-intervals are
/// disjoint, never overlap; two boxes of nonnegative extent whose edges
/// touch without crossing on both axes do overlap (closed intervals).
pub proof fn lemma_overlap_edges(a: Transform, b: Transform)
    ensures
        box_max_x2(a) < box_min_x2(b) || box_max_x2(b) < box_min_x2(a) ==> !aabb_overlaps(a, b),
        box_max_y2(a) < box_min_y2(b) || box_max_y2(b) < box_min_y2(a) ==> !aabb_overlaps(a, b),
        a.scale.x >= 0 && a.scale.y >= 0 && b.scale.x >= 0 && b.scale.y >= 0
            && box_max_x2(a) == box_min_x2(b) && box_max_y2(a) == box_min_y2(b)
            ==> aabb_overlaps(a, b),
{
}

/// Boxes that do not overlap the head box produce no events: when no
/// collider's box overlaps it, both checks fire for nothing.
pub proof fn lemma_no_overlap_no_event(head: Transform, colliders: Seq<Collider>)
    requires
        forall|i: int| 0 <= i < colliders.len() ==> !aabb_overlaps(
            (#[trigger] colliders[i]).trans,
            head,
        ),
    ensures
        eat_count(head, colliders) == 0,
        kill_count(head, colliders) == 0,
    decreases colliders.len(),
{
    if colliders.len() > 0 {
        lemma_no_overlap_no_event(head, colliders.drop_last());
    }
}

/// The head never kills itself: an entity tagged as the head fails the
/// kill check whatever hazard tag it also carries and wherever it sits, so
/// appending it to the collidable set adds no `PlayerKilled` event.
pub proof fn lemma_head_never_self_kills(head: Transform, colliders: Seq<Collider>, c: Collider)
    requires
        c.head,
    ensures
        !kills(c, head),
        kill_count(head, colliders.push(c)) == kill_count(head, colliders),
{
    assert(colliders.push(c).drop_last() =~= colliders);
}

} // verus!
