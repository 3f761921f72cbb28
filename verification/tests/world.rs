//! The world: construction, collision queries, scrolling, eviction, and
//! visibility culling.

use rand::SeedableRng;
use skifree::map::objects::LineObject;
use skifree::map::objects::MotionRule;
use skifree::map::objects::Object;
use skifree::map::objects::ObjectKind;
use skifree::map::World;
use skifree::player::CollisionAction;
use skifree::player::Player;
use skifree::player::PlayerState;
use skifree::util::Vec2;

fn empty_world() -> World {
    World {
        objects: Vec::new(),
        lines: Vec::new(),
        rng: rand::rngs::StdRng::seed_from_u64(0),
        y_distance: 0,
    }
}

fn player_in(state: PlayerState) -> Player {
    let mut p = Player::new();
    p.state = state;
    p
}

/// A rock whose ground-contact band overlaps the player's: the player's
/// hitbox sits at y 232_000..237_000, x 240_000..256_000.
fn rock_under_player() -> Object {
    Object::immovable(Vec2 { x: 240_000, y: 216_000 }, ObjectKind::Rock, CollisionAction::Fall)
}

#[test]
fn collision_returns_first_match_and_consumes_it() {
    let mut w = empty_world();
    let far = Object::immovable(Vec2 { x: 0, y: 0 }, ObjectKind::Tree1, CollisionAction::Fall);
    w.objects.push(far);
    w.objects.push(rock_under_player());
    let p = Player::new();

    assert_eq!(w.check_collision(&p), Some(CollisionAction::Fall));
    // The hit was consumed on the object itself, directly inspectable.
    assert_eq!(w.objects[1].collision_action, CollisionAction::Nothing);
    // The untouched object keeps its behavior.
    assert_eq!(w.objects[0].collision_action, CollisionAction::Fall);
}

#[test]
fn collision_consumption_never_returns_the_behavior_twice() {
    let mut w = empty_world();
    w.objects.push(rock_under_player());
    let p = Player::new();

    assert_eq!(w.check_collision(&p), Some(CollisionAction::Fall));
    // Still overlapping, but the behavior is consumed: a second immediate
    // query never hands out Fall again.
    assert_eq!(w.check_collision(&p), Some(CollisionAction::Nothing));
}

#[test]
fn no_overlap_means_no_collision() {
    let mut w = empty_world();
    w.objects.push(Object::immovable(
        Vec2 { x: 0, y: 0 },
        ObjectKind::Rock,
        CollisionAction::Fall,
    ));
    let p = Player::new();
    assert_eq!(w.check_collision(&p), None);
    assert_eq!(w.objects[0].collision_action, CollisionAction::Fall);
}

#[test]
fn eviction_removes_objects_past_the_threshold() {
    let mut w = empty_world();
    w.objects.push(Object::immovable(
        Vec2 { x: 0, y: -60_000 },
        ObjectKind::Tree1,
        CollisionAction::Fall,
    ));
    w.objects.push(Object::immovable(
        Vec2 { x: 0, y: 0 },
        ObjectKind::Rock,
        CollisionAction::Fall,
    ));
    let p = player_in(PlayerState::RightStop);
    w.update(&p);
    assert_eq!(w.objects.len(), 1);
    assert_eq!(w.objects[0].kind, ObjectKind::Rock);
}

#[test]
fn world_scrolls_up_under_a_downhill_player() {
    let mut w = empty_world();
    w.objects.push(Object::immovable(
        Vec2 { x: 0, y: 100_000 },
        ObjectKind::Rock,
        CollisionAction::Fall,
    ));
    w.lines.push(LineObject {
        start: Vec2 { x: 100_000, y: 0 },
        end: Vec2 { x: 100_000, y: 500_000 },
        width: 1000,
        color: skifree::map::objects::Color { r: 900, g: 900, b: 900 },
    });
    let p = player_in(PlayerState::Downward);
    w.update(&p);
    // Opposite heading is straight up; speed 3 units moves everything up by
    // 3000 milliunits, lines included.
    assert_eq!(w.objects[0].position, Vec2 { x: 0, y: 97_000 });
    assert_eq!(w.lines[0].start, Vec2 { x: 100_000, y: -3_000 });
    assert_eq!(w.lines[0].end, Vec2 { x: 100_000, y: 497_000 });
    // The vertical component of the heading accumulates into the distance.
    assert_eq!(w.y_distance(), 1_000);
}

#[test]
fn stationary_player_scrolls_nothing() {
    let mut w = empty_world();
    w.objects.push(Object::immovable(
        Vec2 { x: 7_000, y: 9_000 },
        ObjectKind::Stump,
        CollisionAction::Fall,
    ));
    let p = player_in(PlayerState::LeftStop);
    w.update(&p);
    assert_eq!(w.objects[0].position, Vec2 { x: 7_000, y: 9_000 });
    assert_eq!(w.y_distance(), 0);
}

#[test]
fn angled_heading_gains_partial_distance() {
    let mut w = empty_world();
    let p = player_in(PlayerState::Right45);
    w.update(&p);
    // cos(45 degrees) scaled by 1000 is 707.
    assert_eq!(w.y_distance(), 707);
    let p = player_in(PlayerState::RightMove);
    w.update(&p);
    // Gliding straight sideways gains nothing.
    assert_eq!(w.y_distance(), 707);
}

#[test]
fn horizontal_position_wraps_across_the_course() {
    let mut w = empty_world();
    w.objects.push(Object::immovable(
        Vec2 { x: 2_999_000, y: 500_000 },
        ObjectKind::Tree1,
        CollisionAction::Fall,
    ));
    // Gliding left scrolls the world rightwards past the boundary.
    let p = player_in(PlayerState::LeftMove);
    w.update(&p);
    assert_eq!(w.objects[0].position.x, -1_500_000);
    assert_eq!(w.objects[0].position.y, 500_000);
}

#[test]
fn chairlift_cars_move_on_their_own() {
    let mut w = empty_world();
    w.objects.push(Object::movable(
        Vec2 { x: 82_000, y: 200_000 },
        ObjectKind::Chairlift,
        CollisionAction::Nothing,
        MotionRule::Descend(200),
    ));
    w.objects.push(Object::movable(
        Vec2 { x: 118_000, y: 400_000 },
        ObjectKind::Lifters,
        CollisionAction::Nothing,
        MotionRule::Ascend(200),
    ));
    let p = player_in(PlayerState::RightStop);
    w.update(&p);
    assert_eq!(w.objects[0].position.y, 200_200);
    assert_eq!(w.objects[1].position.y, 399_800);
}

#[test]
fn course_generation_is_deterministic_per_seed() {
    let w1 = World::new(42);
    let w2 = World::new(42);
    assert_eq!(w1.objects, w2.objects);
    assert_eq!(w1.lines, w2.lines);
    assert_eq!(w1.y_distance(), 0);
}

#[test]
fn generated_world_has_the_documented_layout() {
    let w = World::new(7);
    let n = w.objects.len();
    // The fixed start area, at least, plus 50 lift towers with two chairs
    // each.
    assert!(n >= 14 + 150);
    assert_eq!(w.objects[0].kind, ObjectKind::BigTree);
    assert_eq!(w.objects[0].position, Vec2 { x: 250_000, y: 110_000 });
    assert_eq!(w.objects[11].kind, ObjectKind::SlalomSign);
    assert_eq!(w.objects[12].kind, ObjectKind::FreestyleSign);
    assert_eq!(w.objects[13].kind, ObjectKind::TreeSlalomSign);
    // The lift comes last: chair, riders, tower, fifty times.
    let lift = &w.objects[n - 150..];
    for k in 0..50 {
        let y = 100_000 + (k as i64) * 400_000;
        assert_eq!(lift[3 * k].kind, ObjectKind::Chairlift);
        assert_eq!(lift[3 * k].position, Vec2 { x: 82_000, y: y + 100_000 });
        assert_eq!(lift[3 * k].movement, MotionRule::Descend(200));
        assert_eq!(lift[3 * k + 1].kind, ObjectKind::Lifters);
        assert_eq!(lift[3 * k + 1].position, Vec2 { x: 118_000, y: y + 400_000 });
        assert_eq!(lift[3 * k + 1].movement, MotionRule::Ascend(200));
        assert_eq!(lift[3 * k + 2].kind, ObjectKind::Lift);
        assert_eq!(lift[3 * k + 2].position, Vec2 { x: 100_000, y });
        assert_eq!(lift[3 * k + 2].collision_action, CollisionAction::Fall);
    }
    // Two lift cables.
    assert_eq!(w.lines.len(), 2);
    assert_eq!(w.lines[0].start, Vec2 { x: 100_000, y: 0 });
    assert_eq!(w.lines[1].start, Vec2 { x: 125_000, y: 0 });
}

#[test]
fn generated_bands_respect_their_grids_and_tables() {
    let w = World::new(123);
    let n = w.objects.len();
    let mut seen_slalom = 0usize;
    let mut seen_freestyle = 0usize;
    let mut seen_tree_slalom = 0usize;
    for o in &w.objects[14..n - 150] {
        let x = o.position.x;
        let y = o.position.y;
        assert!((-1_500_000..3_000_000).contains(&x));
        assert!((300_000..20_000_000).contains(&y));
        assert_eq!((x - -1_500_000) % 40_000, 0);
        assert_eq!((y - 300_000) % 100_000, 0);
        assert_eq!(o.movement, MotionRule::Still);
        let pair = (o.kind, o.collision_action);
        if x < -500_000 {
            seen_slalom += 1;
            assert!([
                (ObjectKind::BumpL, CollisionAction::JumpSmall),
                (ObjectKind::BumpS, CollisionAction::JumpSmall),
                (ObjectKind::Mogul, CollisionAction::JumpSmall),
                (ObjectKind::Rock, CollisionAction::Fall),
                (ObjectKind::Tree1, CollisionAction::Fall),
            ]
            .contains(&pair));
        } else if x < 500_000 {
            seen_freestyle += 1;
            assert!([
                (ObjectKind::BumpL, CollisionAction::JumpSmall),
                (ObjectKind::BumpS, CollisionAction::JumpSmall),
                (ObjectKind::Ramp, CollisionAction::JumpLarge),
                (ObjectKind::Rock, CollisionAction::Fall),
                (ObjectKind::Tree1, CollisionAction::Fall),
                (ObjectKind::Stump, CollisionAction::Fall),
                (ObjectKind::XTree1, CollisionAction::Fall),
                (ObjectKind::XTree2, CollisionAction::Fall),
            ]
            .contains(&pair));
        } else {
            seen_tree_slalom += 1;
            assert!([
                (ObjectKind::BigTree, CollisionAction::Fall),
                (ObjectKind::Tree1, CollisionAction::Fall),
                (ObjectKind::Tree2, CollisionAction::Fall),
                (ObjectKind::Tree3, CollisionAction::Fall),
                (ObjectKind::Tree4, CollisionAction::Fall),
                (ObjectKind::XTree1, CollisionAction::Fall),
                (ObjectKind::XTree2, CollisionAction::Fall),
                (ObjectKind::XTree3, CollisionAction::Fall),
                (ObjectKind::Stump, CollisionAction::Fall),
                (ObjectKind::Mushroom, CollisionAction::Nothing),
                (ObjectKind::Rock, CollisionAction::Fall),
            ]
            .contains(&pair));
        }
    }
    // Each band is densely populated: thousands of cells at around a third
    // density. If the generator ignored its draws, these would be empty.
    assert!(seen_slalom > 100);
    assert!(seen_freestyle > 100);
    assert!(seen_tree_slalom > 100);
}

#[test]
fn wf_check_accepts_fresh_state_and_rejects_broken_state() {
    let w = World::new(3);
    assert!(w.wf_check());
    assert!(Player::new().wf_check());

    let mut broken = empty_world();
    broken.objects.push(Object::immovable(
        // Far outside the course band: not a well-formed resting position.
        Vec2 { x: 5_000_000, y: 0 },
        ObjectKind::Rock,
        CollisionAction::Fall,
    ));
    assert!(!broken.wf_check());

    let mut tired = Player::new();
    tired.state = PlayerState::Fallen(-1);
    assert!(!tired.wf_check());
}

#[test]
fn draw_candidates_cull_by_the_inflated_window() {
    let mut w = empty_world();
    let inside = Object::immovable(Vec2 { x: 0, y: 0 }, ObjectKind::Rock, CollisionAction::Fall);
    let margin = Object::immovable(
        Vec2 { x: 580_000, y: 740_000 },
        ObjectKind::Tree1,
        CollisionAction::Fall,
    );
    let left_out = Object::immovable(
        Vec2 { x: -101_000, y: 0 },
        ObjectKind::Stump,
        CollisionAction::Fall,
    );
    let below_out = Object::immovable(
        Vec2 { x: 0, y: 741_000 },
        ObjectKind::Mogul,
        CollisionAction::Fall,
    );
    w.objects.push(left_out);
    w.objects.push(inside);
    w.objects.push(below_out);
    w.objects.push(margin);
    let visible = w.draw_candidates();
    assert_eq!(visible, vec![inside, margin]);
}
