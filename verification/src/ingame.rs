//! Segment state and the two per-tick passes over it: the turn scheduler
//! (queued heading changes with index-proportional delays) and the motion
//! integrator (uniform displacement along the current heading).

use crate::collision::Collider;
use std::collections::VecDeque;
use vstd::prelude::*;

verus! {

/// One of the four axis-aligned unit headings.
#[derive(Clone, Copy, Debug, PartialEq, Eq, Structural)]
pub enum Direction {
    North,
    East,
    South,
    West,
}

impl Direction {
    /// Horizontal component of the unit heading vector.
    pub open spec fn dx(self) -> int {
        match self {
            Direction::East => 1,
            Direction::West => -1,
            _ => 0,
        }
    }

    /// Vertical component of the unit heading vector.
    pub open spec fn dy(self) -> int {
        match self {
            Direction::North => 1,
            Direction::South => -1,
            _ => 0,
        }
    }
}

/// A 2D point or extent on the integer grid.
#[derive(Clone, Copy, Debug, PartialEq, Eq, Structural)]
pub struct Vec2 {
    pub x: i64,
    pub y: i64,
}

/// World placement of an entity: where it sits and how large it is.
#[derive(Clone, Copy, Debug, PartialEq, Eq, Structural)]
pub struct Transform {
    pub translation: Vec2,
    pub scale: Vec2,
}

/// A countdown: `finished` once `elapsed` has reached `duration`.
#[derive(Clone, Copy, Debug, PartialEq, Eq, Structural)]
pub struct Timer {
    pub duration: u64,
    pub elapsed: u64,
}

impl Timer {
    pub open spec fn spec_finished(self) -> bool {
        self.elapsed >= self.duration
    }

    /// The timer after `delta` more time units have passed, clamped at the
    /// largest representable elapsed time.
    pub open spec fn spec_ticked(self, delta: u64) -> Timer {
        Timer {
            duration: self.duration,
            elapsed: if self.elapsed + delta > u64::MAX {
                u64::MAX
            } else {
                (self.elapsed + delta) as u64
            },
        }
    }

    pub fn finished(&self) -> (r: bool)
        ensures
            r == self.spec_finished(),
    {
        self.elapsed >= self.duration
    }

    pub fn tick(&mut self, delta: u64)
        ensures
            *final(self) == old(self).spec_ticked(delta),
    {
        self.elapsed = self.elapsed.saturating_add(delta);
    }
}

/// A requested heading change awaiting its delay to elapse.
#[derive(Clone, Copy, Debug, PartialEq, Eq, Structural)]
pub struct Turn {
    pub direction: Direction,
    pub timer: Timer,
}

impl Turn {
    /// The same request after `delta` more time units on its timer.
    pub open spec fn spec_ticked(self, delta: u64) -> Turn {
        Turn { direction: self.direction, timer: self.timer.spec_ticked(delta) }
    }
}

/// FIFO queue of pending turns owned by one segment.
pub struct Turns(pub VecDeque<Turn>);

/// Position of a segment within the chain: 0 is the head, increasing
/// toward the tail.
#[derive(Clone, Copy, Debug, PartialEq, Eq, Structural)]
pub struct SegmentNumber(pub u32);

/// One link of the snake chain, including the head.
pub struct SnakeSegment {
    pub direction: Direction,
    pub turns: Turns,
    pub trans: Transform,
    pub segment_number: SegmentNumber,
}

/// The turn that enqueuing a command builds for a segment: its delay is
/// `speed * index` time units, and its timer is pre-advanced by the delta
/// of the tick in which the command arrived.
pub open spec fn new_turn(direction: Direction, index: u32, speed: u32, delta: u64) -> Turn {
    Turn { direction, timer: Timer { duration: (speed * index) as u64, elapsed: delta } }
}

/// The queue after one scheduler pass: an empty queue is untouched, an
/// elapsed front turn is removed, an unelapsed front turn is ticked by
/// `delta` and left at the front. Turns behind the front are never touched.
pub open spec fn advance_turns(turns: Seq<Turn>, delta: u64) -> Seq<Turn> {
    if turns.len() == 0 {
        turns
    } else if turns[0].timer.spec_finished() {
        turns.subrange(1, turns.len() as int)
    } else {
        turns.update(0, turns[0].spec_ticked(delta))
    }
}

/// The heading after one scheduler pass: the front turn's direction if its
/// timer has elapsed, the old heading otherwise.
pub open spec fn advance_direction(turns: Seq<Turn>, direction: Direction) -> Direction {
    if turns.len() > 0 && turns[0].timer.spec_finished() {
        turns[0].direction
    } else {
        direction
    }
}

impl SnakeSegment {
    /// Append a pending turn for a directional command that arrived this
    /// tick, delayed in proportion to this segment's index.
    pub fn enqueue_turn(&mut self, direction: Direction, speed: u32, delta: u64)
        ensures
            final(self).turns.0@ == old(self).turns.0@.push(
                new_turn(direction, old(self).segment_number.0, speed, delta),
            ),
            final(self).direction == old(self).direction,
            final(self).trans == old(self).trans,
            final(self).segment_number == old(self).segment_number,
    {
        proof {
            vstd::arithmetic::mul::lemma_mul_upper_bound(
                speed as int,
                u32::MAX as int,
                self.segment_number.0 as int,
                u32::MAX as int,
            );
        }
        let duration: u64 = (speed as u64) * (self.segment_number.0 as u64);
        self.turns.0.push_back(Turn { direction, timer: Timer { duration, elapsed: delta } });
    }

    /// Whether one motion step along the current heading stays within the
    /// coordinate range.
    pub open spec fn can_step(self, speed: u32) -> bool {
        &&& i64::MIN <= self.trans.translation.x + self.direction.dx() * speed <= i64::MAX
        &&& i64::MIN <= self.trans.translation.y + self.direction.dy() * speed <= i64::MAX
    }

    /// One motion step: displace the position by the heading vector scaled
    /// by the speed constant. The tick's duration is accepted but ignored:
    /// motion is tick-based, not wall-clock-based, so the displacement is
    /// independent of `tick_delta`.
    pub fn step(&mut self, speed: u32, _tick_delta: u64)
        requires
            old(self).can_step(speed),
        ensures
            final(self).trans.translation.x == old(self).trans.translation.x
                + old(self).direction.dx() * speed,
            final(self).trans.translation.y == old(self).trans.translation.y
                + old(self).direction.dy() * speed,
            final(self).trans.scale == old(self).trans.scale,
            final(self).direction == old(self).direction,
            final(self).turns.0@ == old(self).turns.0@,
            final(self).segment_number == old(self).segment_number,
    {
        let d = speed as i64;
        match self.direction {
            Direction::North => {
                self.trans.translation.y = self.trans.translation.y + d;
            },
            Direction::East => {
                self.trans.translation.x = self.trans.translation.x + d;
            },
            Direction::South => {
                self.trans.translation.y = self.trans.translation.y - d;
            },
            Direction::West => {
                self.trans.translation.x = self.trans.translation.x - d;
            },
        }
    }

    /// One scheduler pass over this segment: promote the front turn if its
    /// delay has elapsed, otherwise tick it forward; at most one turn is
    /// promoted, and a freshly promoted turn never uncovers the next one
    /// within the same pass.
    pub fn advance_turn(&mut self, delta: u64)
        ensures
            final(self).turns.0@ == advance_turns(old(self).turns.0@, delta),
            final(self).direction == advance_direction(
                old(self).turns.0@,
                old(self).direction,
            ),
            final(self).trans == old(self).trans,
            final(self).segment_number == old(self).segment_number,
    {
        if let Some(mut turn) = self.turns.0.pop_front() {
            if turn.timer.finished() {
                self.direction = turn.direction;
            } else {
                turn.timer.tick(delta);
                self.turns.0.push_front(turn);
                proof {
                    assert(self.turns.0@ =~= advance_turns(old(self).turns.0@, delta));
                }
            }
        }
    }
}

/// Relation between a segment before and after one enqueue of `direction`.
pub open spec fn segment_enqueued(
    before: SnakeSegment,
    after: SnakeSegment,
    direction: Direction,
    speed: u32,
    delta: u64,
) -> bool {
    &&& after.turns.0@ == before.turns.0@.push(
        new_turn(direction, before.segment_number.0, speed, delta),
    )
    &&& after.direction == before.direction
    &&& after.trans == before.trans
    &&& after.segment_number == before.segment_number
}

/// Relation between a segment before and after one scheduler pass.
pub open spec fn segment_turned(before: SnakeSegment, after: SnakeSegment, delta: u64) -> bool {
    &&& after.turns.0@ == advance_turns(before.turns.0@, delta)
    &&& after.direction == advance_direction(before.turns.0@, before.direction)
    &&& after.trans == before.trans
    &&& after.segment_number == before.segment_number
}

/// Relation between a segment before and after one motion pass.
pub open spec fn segment_moved(before: SnakeSegment, after: SnakeSegment, speed: u32) -> bool {
    &&& after.trans.translation.x == before.trans.translation.x + before.direction.dx() * speed
    &&& after.trans.translation.y == before.trans.translation.y + before.direction.dy() * speed
    &&& after.trans.scale == before.trans.scale
    &&& after.direction == before.direction
    &&& after.turns.0@ == before.turns.0@
    &&& after.segment_number == before.segment_number
}

/// Mutable access to one segment of the chain.
fn segment_mut(segments: &mut Vec<SnakeSegment>, i: usize) -> (segment: &mut SnakeSegment)
    requires
        i < old(segments).len(),
    ensures
        *segment == old(segments)@[i as int],
        final(segments)@ == old(segments)@.update(i as int, *final(segment)),
{
    &mut segments[i]
}

/// Deliver one directional command to every segment of the chain: each
/// segment buffers a pending turn delayed in proportion to its own index.
pub fn enqueue_command(segments: &mut Vec<SnakeSegment>, direction: Direction, speed: u32, delta: u64)
    ensures
        final(segments)@.len() == old(segments)@.len(),
        forall|i: int| 0 <= i < old(segments)@.len() ==> segment_enqueued(
            old(segments)@[i],
            #[trigger] final(segments)@[i],
            direction,
            speed,
            delta,
        ),
{
    let ghost orig = segments@;
    let n = segments.len();
    let mut i: usize = 0;
    while i < n
        invariant
            n == segments@.len(),
            segments@.len() == orig.len(),
            i <= n,
            forall|j: int| 0 <= j < i ==> segment_enqueued(
                orig[j],
                #[trigger] segments@[j],
                direction,
                speed,
                delta,
            ),
            forall|j: int| i <= j < n ==> segments@[j] == orig[j],
        decreases n - i,
    {
        let segment = segment_mut(segments, i);
        segment.enqueue_turn(direction, speed, delta);
        i = i + 1;
    }
}

/// One scheduler pass over the whole chain: each segment independently
/// promotes or ticks the front turn of its own queue.
pub fn turn_snake_segment(segments: &mut Vec<SnakeSegment>, delta: u64)
    ensures
        final(segments)@.len() == old(segments)@.len(),
        forall|i: int| 0 <= i < old(segments)@.len() ==> segment_turned(
            old(segments)@[i],
            #[trigger] final(segments)@[i],
            delta,
        ),
{
    let ghost orig = segments@;
    let n = segments.len();
    let mut i: usize = 0;
    while i < n
        invariant
            n == segments@.len(),
            segments@.len() == orig.len(),
            i <= n,
            forall|j: int| 0 <= j < i ==> segment_turned(orig[j], #[trigger] segments@[j], delta),
            forall|j: int| i <= j < n ==> segments@[j] == orig[j],
        decreases n - i,
    {
        let segment = segment_mut(segments, i);
        segment.advance_turn(delta);
        i = i + 1;
    }
}

/// One motion pass over the whole chain: each segment is displaced by its
/// own heading vector scaled by the speed constant. The tick's duration is
/// accepted but ignored: the displacement is independent of `tick_delta`.
pub fn move_snake_segment(segments: &mut Vec<SnakeSegment>, speed: u32, _tick_delta: u64)
    requires
        forall|i: int| 0 <= i < old(segments)@.len() ==> (#[trigger] old(segments)@[i]).can_step(
            speed,
        ),
    ensures
        final(segments)@.len() == old(segments)@.len(),
        forall|i: int| 0 <= i < old(segments)@.len() ==> segment_moved(
            old(segments)@[i],
            #[trigger] final(segments)@[i],
            speed,
        ),
{
    let ghost orig = segments@;
    let n = segments.len();
    let mut i: usize = 0;
    while i < n
        invariant
            n == segments@.len(),
            segments@.len() == orig.len(),
            i <= n,
            forall|j: int| 0 <= j < orig.len() ==> (#[trigger] orig[j]).can_step(speed),
            forall|j: int| 0 <= j < i ==> segment_moved(orig[j], #[trigger] segments@[j], speed),
            forall|j: int| i <= j < n ==> segments@[j] == orig[j],
        decreases n - i,
    {
        proof {
            assert(orig[i as int].can_step(speed));
        }
        let segment = segment_mut(segments, i);
        segment.step(speed, _tick_delta);
        i = i + 1;
    }
}

/// A pending turn's delay equals the speed constant times the segment's
/// index, and its timer starts pre-advanced by the delta of the tick in
/// which the command arrived. In particular a head command (index 0)
/// carries zero delay.
pub proof fn lemma_turn_delay(direction: Direction, index: u32, speed: u32, delta: u64)
    ensures
        new_turn(direction, index, speed, delta).timer.duration == speed * index,
        new_turn(direction, index, speed, delta).timer.elapsed == delta,
        index == 0 ==> new_turn(direction, index, speed, delta).timer.spec_finished(),
{
    vstd::arithmetic::mul::lemma_mul_upper_bound(
        speed as int,
        u32::MAX as int,
        index as int,
        u32::MAX as int,
    );
    vstd::arithmetic::mul::lemma_mul_basics(speed as int);
}

/// A command enqueued for the head segment (index 0) has a zero-delay,
/// already-elapsed timer, so the very next scheduler pass over a queue it
/// heads adopts its direction and removes it.
pub proof fn lemma_head_turns_immediately(
    turns: Seq<Turn>,
    heading: Direction,
    direction: Direction,
    speed: u32,
    delta: u64,
    tick_delta: u64,
)
    requires
        turns.len() > 0,
        turns[0] == new_turn(direction, 0, speed, delta),
    ensures
        advance_direction(turns, heading) == direction,
        advance_turns(turns, tick_delta) == turns.subrange(1, turns.len() as int),
{
    lemma_turn_delay(direction, 0, speed, delta);
}

/// Promotion happens exactly at the delay threshold: a scheduler pass
/// leaves the heading alone and keeps the front turn queued while its
/// elapsed time is below its delay, and adopts the front turn's direction
/// on the first pass at which its elapsed time has reached its delay.
pub proof fn lemma_promotion_threshold(turns: Seq<Turn>, heading: Direction, delta: u64)
    requires
        turns.len() > 0,
    ensures
        turns[0].timer.elapsed < turns[0].timer.duration ==> {
            &&& advance_direction(turns, heading) == heading
            &&& advance_turns(turns, delta).len() == turns.len()
            &&& advance_turns(turns, delta)[0].direction == turns[0].direction
            &&& advance_turns(turns, delta)[0].timer.duration == turns[0].timer.duration
        },
        turns[0].timer.elapsed >= turns[0].timer.duration ==> {
            &&& advance_direction(turns, heading) == turns[0].direction
            &&& advance_turns(turns, delta) == turns.subrange(1, turns.len() as int)
        },
{
}

/// At most one pending turn is promoted per segment per scheduler pass:
/// even when the two front turns have both elapsed, one pass adopts only
/// the first one's direction, and the second stays queued, untouched, for
/// the next pass.
pub proof fn lemma_one_promotion_per_pass(turns: Seq<Turn>, heading: Direction, delta: u64)
    requires
        turns.len() >= 2,
        turns[0].timer.spec_finished(),
        turns[1].timer.spec_finished(),
    ensures
        advance_direction(turns, heading) == turns[0].direction,
        advance_turns(turns, delta).len() == turns.len() - 1,
        advance_turns(turns, delta)[0] == turns[1],
{
}

/// Whether a segment is freshly spawned with the given chain index: heading
/// south at the origin with unit scale and an empty turn queue.
pub open spec fn fresh_segment(s: SnakeSegment, index: u32) -> bool {
    &&& s.direction == Direction::South
    &&& s.turns.0@ == Seq::<Turn>::empty()
    &&& s.trans == (Transform { translation: (Vec2 { x: 0, y: 0 }), scale: (Vec2 { x: 1, y: 1 }) })
    &&& s.segment_number == (SegmentNumber(index))
}

/// Spawn one food entity at the given position with unit scale. Positions
/// come from the caller; the reference environment draws them at random,
/// and the core accepts whatever it is given.
pub fn spawn_food(colliders: &mut Vec<Collider>, x: i64, y: i64)
    ensures
        final(colliders)@ == old(colliders)@.push(
            (Collider {
                trans: Transform { translation: Vec2 { x, y }, scale: Vec2 { x: 1, y: 1 } },
                food: true,
                player_killer: false,
                head: false,
            }),
        ),
{
    colliders.push(
        Collider {
            trans: Transform { translation: Vec2 { x, y }, scale: Vec2 { x: 1, y: 1 } },
            food: true,
            player_killer: false,
            head: false,
        },
    );
}

/// Spawn one more segment at the tail of the chain, with the given index.
pub fn grow_snake(segments: &mut Vec<SnakeSegment>, index: u32)
    ensures
        final(segments)@.len() == old(segments)@.len() + 1,
        forall|i: int| 0 <= i < old(segments)@.len() ==> final(segments)@[i] == old(
            segments,
        )@[i],
        fresh_segment(final(segments)@[old(segments)@.len() as int], index),
{
    segments.push(
        SnakeSegment {
            direction: Direction::South,
            turns: Turns(VecDeque::new()),
            trans: Transform { translation: Vec2 { x: 0, y: 0 }, scale: Vec2 { x: 1, y: 1 } },
            segment_number: SegmentNumber(index),
        },
    );
}

} // verus!
