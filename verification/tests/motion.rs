use snake_core::ingame::{grow_snake, move_snake_segment, Direction, SnakeSegment};
use snake_core::SPEED;

fn chain(n: u32) -> Vec<SnakeSegment> {
    let mut segments = Vec::new();
    for i in 0..n {
        grow_snake(&mut segments, i);
    }
    segments
}

#[test]
fn step_is_heading_times_speed() {
    let mut segments = chain(1);
    move_snake_segment(&mut segments, SPEED, 1);
    assert_eq!(segments[0].trans.translation.x, 0);
    assert_eq!(segments[0].trans.translation.y, -1);
    segments[0].direction = Direction::East;
    move_snake_segment(&mut segments, 5, 99);
    assert_eq!(segments[0].trans.translation.x, 5);
    assert_eq!(segments[0].trans.translation.y, -1);
    segments[0].direction = Direction::North;
    move_snake_segment(&mut segments, 2, 0);
    assert_eq!(segments[0].trans.translation.x, 5);
    assert_eq!(segments[0].trans.translation.y, 1);
    segments[0].direction = Direction::West;
    move_snake_segment(&mut segments, 3, 1);
    assert_eq!(segments[0].trans.translation.x, 2);
    assert_eq!(segments[0].trans.translation.y, 1);
}

#[test]
fn segments_move_along_their_own_headings() {
    let mut segments = chain(2);
    segments[0].direction = Direction::East;
    segments[1].direction = Direction::North;
    move_snake_segment(&mut segments, SPEED, 1);
    assert_eq!(segments[0].trans.translation.x, 1);
    assert_eq!(segments[0].trans.translation.y, 0);
    assert_eq!(segments[1].trans.translation.x, 0);
    assert_eq!(segments[1].trans.translation.y, 1);
}

#[test]
fn motion_leaves_scale_and_queue_alone() {
    let mut segments = chain(1);
    move_snake_segment(&mut segments, SPEED, 7);
    assert_eq!(segments[0].trans.scale.x, 1);
    assert_eq!(segments[0].trans.scale.y, 1);
    assert_eq!(segments[0].turns.0.len(), 0);
    assert_eq!(segments[0].segment_number.0, 0);
}
