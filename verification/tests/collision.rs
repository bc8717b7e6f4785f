use snake_core::collision::{
    detect_collision_player_eat, detect_collision_player_kill, overlaps, Collider, FoodEaten,
    PlayerKilled,
};
use snake_core::ingame::{spawn_food, Transform, Vec2};

fn at(x: i64, y: i64, sx: i64, sy: i64) -> Transform {
    Transform { translation: Vec2 { x, y }, scale: Vec2 { x: sx, y: sy } }
}

fn food_at(x: i64, y: i64, sx: i64, sy: i64) -> Collider {
    Collider { trans: at(x, y, sx, sy), food: true, player_killer: false, head: false }
}

fn hazard_at(x: i64, y: i64, sx: i64, sy: i64) -> Collider {
    Collider { trans: at(x, y, sx, sy), food: false, player_killer: true, head: false }
}

#[test]
fn overlapping_food_is_eaten() {
    // head box x in [-5, 5], food box x in [0, 10]; same on y: overlap
    let head = at(0, 0, 10, 10);
    let colliders = vec![food_at(5, 5, 10, 10)];
    let mut events: Vec<FoodEaten> = Vec::new();
    detect_collision_player_eat(&head, &colliders, &mut events);
    assert_eq!(events.len(), 1);
}

#[test]
fn distant_food_is_not_eaten() {
    let head = at(0, 0, 10, 10);
    let colliders = vec![food_at(20, 20, 10, 10)];
    let mut events: Vec<FoodEaten> = Vec::new();
    detect_collision_player_eat(&head, &colliders, &mut events);
    assert_eq!(events.len(), 0);
}

#[test]
fn touching_edges_count_as_overlap() {
    // head box spans to x = 5 and y = 5; food box starts at x = 5, y = 5
    let head = at(0, 0, 10, 10);
    let colliders = vec![food_at(10, 10, 10, 10)];
    let mut events: Vec<FoodEaten> = Vec::new();
    detect_collision_player_eat(&head, &colliders, &mut events);
    assert_eq!(events.len(), 1);
}

#[test]
fn disjoint_on_one_axis_means_no_event() {
    let head = at(0, 0, 10, 10);
    // overlaps on x but not on y
    let high = food_at(0, 20, 10, 10);
    // overlaps on y but not on x
    let right = food_at(20, 0, 10, 10);
    let colliders = vec![high, right];
    let mut events: Vec<FoodEaten> = Vec::new();
    detect_collision_player_eat(&head, &colliders, &mut events);
    assert_eq!(events.len(), 0);
    assert!(!overlaps(&high.trans, &head));
    assert!(!overlaps(&right.trans, &head));
}

#[test]
fn simultaneous_overlaps_emit_one_event_each() {
    let head = at(0, 0, 10, 10);
    let colliders = vec![food_at(2, 2, 10, 10), food_at(-2, -2, 10, 10)];
    let mut events: Vec<FoodEaten> = Vec::new();
    detect_collision_player_eat(&head, &colliders, &mut events);
    assert_eq!(events.len(), 2);
}

#[test]
fn events_are_appended_not_replaced() {
    let head = at(0, 0, 10, 10);
    let colliders = vec![food_at(0, 0, 10, 10)];
    let mut events: Vec<FoodEaten> = vec![FoodEaten];
    detect_collision_player_eat(&head, &colliders, &mut events);
    assert_eq!(events.len(), 2);
}

#[test]
fn non_food_is_never_eaten() {
    let head = at(0, 0, 10, 10);
    let colliders = vec![hazard_at(0, 0, 10, 10)];
    let mut events: Vec<FoodEaten> = Vec::new();
    detect_collision_player_eat(&head, &colliders, &mut events);
    assert_eq!(events.len(), 0);
}

#[test]
fn overlapping_hazard_kills() {
    let head = at(0, 0, 10, 10);
    let colliders = vec![hazard_at(3, 3, 10, 10), food_at(0, 0, 10, 10)];
    let mut events: Vec<PlayerKilled> = Vec::new();
    detect_collision_player_kill(&head, &colliders, &mut events);
    assert_eq!(events.len(), 1);
}

#[test]
fn head_never_kills_itself() {
    // the head carries both the Head and the PlayerKiller markers and sits
    // exactly on its own box, yet the kill check skips it
    let head = at(0, 0, 10, 10);
    let own = Collider { trans: head, food: false, player_killer: true, head: true };
    let colliders = vec![own];
    let mut events: Vec<PlayerKilled> = Vec::new();
    detect_collision_player_kill(&head, &colliders, &mut events);
    assert_eq!(events.len(), 0);
}

#[test]
fn zero_size_boxes_are_well_defined() {
    // a point box on the head's edge still touches; a distant point does not
    let head = at(0, 0, 10, 10);
    let touching = food_at(5, 0, 0, 0);
    let distant = food_at(6, 0, 0, 0);
    let colliders = vec![touching, distant];
    let mut events: Vec<FoodEaten> = Vec::new();
    detect_collision_player_eat(&head, &colliders, &mut events);
    assert_eq!(events.len(), 1);
}

#[test]
fn zero_colliders_mean_zero_events() {
    let head = at(0, 0, 10, 10);
    let colliders: Vec<Collider> = Vec::new();
    let mut eaten: Vec<FoodEaten> = Vec::new();
    let mut killed: Vec<PlayerKilled> = Vec::new();
    detect_collision_player_eat(&head, &colliders, &mut eaten);
    detect_collision_player_kill(&head, &colliders, &mut killed);
    assert_eq!(eaten.len(), 0);
    assert_eq!(killed.len(), 0);
}

#[test]
fn spawned_food_is_a_plain_food_collider() {
    let mut colliders: Vec<Collider> = Vec::new();
    spawn_food(&mut colliders, -700, 42);
    assert_eq!(colliders.len(), 1);
    assert_eq!(colliders[0].trans.translation.x, -700);
    assert_eq!(colliders[0].trans.translation.y, 42);
    assert_eq!(colliders[0].trans.scale.x, 1);
    assert_eq!(colliders[0].trans.scale.y, 1);
    assert!(colliders[0].food);
    assert!(!colliders[0].player_killer);
    assert!(!colliders[0].head);
}
