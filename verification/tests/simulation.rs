//! The simulation loop: one tick advances world and player together.

use rand::SeedableRng;
use skifree::map::objects::Object;
use skifree::map::objects::ObjectKind;
use skifree::map::World;
use skifree::player::CollisionAction;
use skifree::player::Player;
use skifree::player::PlayerState;
use skifree::sim::handle_collisions;
use skifree::sim::tick;
use skifree::util::Vec2;

fn empty_world() -> World {
    World {
        objects: Vec::new(),
        lines: Vec::new(),
        rng: rand::rngs::StdRng::seed_from_u64(0),
        y_distance: 0,
    }
}

fn player_in(state: PlayerState) -> Player {
    let mut p = Player::new();
    p.state = state;
    p
}

/// A bump whose ground-contact band overlaps the player's hitbox.
fn bump_under_player() -> Object {
    Object::immovable(Vec2 { x: 240_000, y: 224_000 }, ObjectKind::BumpS, CollisionAction::JumpSmall)
}

#[test]
fn collisions_feed_the_player() {
    let mut w = empty_world();
    w.objects.push(bump_under_player());
    let mut p = player_in(PlayerState::Downward);
    handle_collisions(&mut w, &mut p);
    assert_eq!(p.state, PlayerState::Jump(20));
    assert_eq!(w.objects[0].collision_action, CollisionAction::Nothing);
}

#[test]
fn one_tick_collides_scrolls_and_advances() {
    let mut w = empty_world();
    w.objects.push(bump_under_player());
    let mut p = player_in(PlayerState::Downward);
    tick(&mut w, &mut p);
    // The bump sent the player airborne, and the jump timer already ran one
    // frame.
    assert_eq!(p.state, PlayerState::Jump(19));
    // The airborne player still heads straight down, so the world scrolled
    // up by the player's speed and the distance grew by one unit.
    assert_eq!(w.objects[0].position, Vec2 { x: 240_000, y: 221_000 });
    assert_eq!(w.y_distance(), 1_000);
}

#[test]
fn ticks_while_fallen_leave_the_world_still() {
    let mut w = empty_world();
    w.objects.push(Object::immovable(
        Vec2 { x: 0, y: 300_000 },
        ObjectKind::Tree1,
        CollisionAction::Fall,
    ));
    let mut p = player_in(PlayerState::Fallen(2));
    tick(&mut w, &mut p);
    assert_eq!(p.state, PlayerState::Fallen(1));
    assert_eq!(w.objects[0].position, Vec2 { x: 0, y: 300_000 });
    assert_eq!(w.y_distance(), 0);
    tick(&mut w, &mut p);
    assert_eq!(p.state, PlayerState::Sitting(60));
}

#[test]
fn a_session_of_ticks_accumulates_distance() {
    let mut w = World::new(11);
    let mut p = Player::new();
    p.right();
    assert_eq!(p.state, PlayerState::RightMove);
    p.left();
    assert_eq!(p.state, PlayerState::Right45);
    p.left();
    assert_eq!(p.state, PlayerState::Right30);
    p.left();
    assert_eq!(p.state, PlayerState::Downward);
    let before = w.objects.len();
    for _ in 0..100 {
        tick(&mut w, &mut p);
    }
    // Heading straight down, the distance grows by one unit per tick until
    // the first fall hazard arrives, which cannot happen before the course
    // band has scrolled down to the player; no objects are conjured up.
    assert!(w.y_distance() >= 20_000);
    assert!(w.y_distance() <= 100_000);
    assert!(w.objects.len() <= before);
}
