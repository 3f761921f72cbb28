//! The player state machine: steering, collision reactions, tricks, and
//! per-tick advancement.

use skifree::player::CollisionAction;
use skifree::player::FlipSequence;
use skifree::player::Player;
use skifree::player::PlayerState;
use skifree::player::TrickType;
use skifree::util::Angle;

fn player_in(state: PlayerState) -> Player {
    let mut p = Player::new();
    p.state = state;
    p
}

fn after_left(state: PlayerState) -> PlayerState {
    let mut p = player_in(state);
    p.left();
    p.state
}

fn after_right(state: PlayerState) -> PlayerState {
    let mut p = player_in(state);
    p.right();
    p.state
}

fn after_slide_left(state: PlayerState) -> PlayerState {
    let mut p = player_in(state);
    p.slide_left();
    p.state
}

fn after_slide_right(state: PlayerState) -> PlayerState {
    let mut p = player_in(state);
    p.slide_right();
    p.state
}

#[test]
fn steering_left_table() {
    assert_eq!(after_left(PlayerState::Downward), PlayerState::Left30);
    assert_eq!(after_left(PlayerState::LeftStop), PlayerState::LeftMove);
    assert_eq!(after_left(PlayerState::RightStop), PlayerState::Right45);
    assert_eq!(after_left(PlayerState::RightMove), PlayerState::Right45);
    assert_eq!(after_left(PlayerState::Left30), PlayerState::Left45);
    assert_eq!(after_left(PlayerState::Left45), PlayerState::LeftStop);
    assert_eq!(after_left(PlayerState::LeftMove), PlayerState::LeftStop);
    assert_eq!(after_left(PlayerState::Right30), PlayerState::Downward);
    assert_eq!(after_left(PlayerState::Right45), PlayerState::Right30);
}

#[test]
fn steering_right_table() {
    assert_eq!(after_right(PlayerState::Downward), PlayerState::Right30);
    assert_eq!(after_right(PlayerState::LeftStop), PlayerState::Left45);
    assert_eq!(after_right(PlayerState::LeftMove), PlayerState::Left45);
    assert_eq!(after_right(PlayerState::RightStop), PlayerState::RightMove);
    assert_eq!(after_right(PlayerState::Left30), PlayerState::Downward);
    assert_eq!(after_right(PlayerState::Left45), PlayerState::Left30);
    assert_eq!(after_right(PlayerState::Right30), PlayerState::Right45);
    assert_eq!(after_right(PlayerState::Right45), PlayerState::RightStop);
    assert_eq!(after_right(PlayerState::RightMove), PlayerState::RightStop);
}

#[test]
fn steering_is_no_op_when_not_upright() {
    let stuck = [
        PlayerState::Fallen(10),
        PlayerState::Sitting(10),
        PlayerState::Jump(10),
        PlayerState::Trick1(10, true),
        PlayerState::Trick2(10, false),
        PlayerState::Flip(FlipSequence::Flip2(30), true),
    ];
    for s in stuck {
        assert_eq!(after_left(s), s);
        assert_eq!(after_right(s), s);
        assert_eq!(after_slide_left(s), s);
        assert_eq!(after_slide_right(s), s);
    }
}

#[test]
fn release_only_affects_its_own_glide() {
    assert_eq!(after_slide_left(PlayerState::LeftMove), PlayerState::LeftStop);
    assert_eq!(after_slide_left(PlayerState::RightMove), PlayerState::RightMove);
    assert_eq!(after_slide_left(PlayerState::Downward), PlayerState::Downward);
    assert_eq!(after_slide_right(PlayerState::RightMove), PlayerState::RightStop);
    assert_eq!(after_slide_right(PlayerState::LeftMove), PlayerState::LeftMove);
    assert_eq!(after_slide_right(PlayerState::Left45), PlayerState::Left45);
}

#[test]
fn collision_effects_while_upright() {
    let mut p = player_in(PlayerState::Downward);
    p.collision(CollisionAction::Fall);
    assert_eq!(p.state, PlayerState::Fallen(60));

    let mut p = player_in(PlayerState::Left30);
    p.collision(CollisionAction::JumpSmall);
    assert_eq!(p.state, PlayerState::Jump(20));

    let mut p = player_in(PlayerState::RightMove);
    p.collision(CollisionAction::JumpLarge);
    assert_eq!(p.state, PlayerState::Jump(60));

    let mut p = player_in(PlayerState::RightStop);
    p.collision(CollisionAction::Nothing);
    assert_eq!(p.state, PlayerState::RightStop);
}

#[test]
fn upright_gating_ignores_collisions() {
    let busy = [
        PlayerState::Fallen(5),
        PlayerState::Sitting(59),
        PlayerState::Jump(20),
        PlayerState::Trick1(7, true),
        PlayerState::Trick2(7, false),
        PlayerState::Flip(FlipSequence::Flip1(40), true),
    ];
    let actions = [
        CollisionAction::Nothing,
        CollisionAction::Fall,
        CollisionAction::JumpSmall,
        CollisionAction::JumpLarge,
    ];
    for s in busy {
        for a in actions {
            let mut p = player_in(s);
            p.collision(a);
            assert_eq!(p.state, s);
        }
    }
}

#[test]
fn counters_count_down_and_resolve() {
    let mut p = player_in(PlayerState::Fallen(3));
    p.maybe_next_state();
    assert_eq!(p.state, PlayerState::Fallen(2));
    p.maybe_next_state();
    assert_eq!(p.state, PlayerState::Fallen(1));
    p.maybe_next_state();
    assert_eq!(p.state, PlayerState::Sitting(60));

    let mut p = player_in(PlayerState::Sitting(2));
    p.maybe_next_state();
    assert_eq!(p.state, PlayerState::Sitting(1));
    p.maybe_next_state();
    assert_eq!(p.state, PlayerState::Downward);

    let mut p = player_in(PlayerState::Jump(2));
    p.maybe_next_state();
    assert_eq!(p.state, PlayerState::Jump(1));
    p.maybe_next_state();
    assert_eq!(p.state, PlayerState::Downward);
}

#[test]
fn fall_then_sit_then_recover() {
    let mut p = player_in(PlayerState::Downward);
    p.collision(CollisionAction::Fall);
    for _ in 0..60 {
        assert!(!p.is_upright());
        p.maybe_next_state();
    }
    assert_eq!(p.state, PlayerState::Sitting(60));
    for _ in 0..60 {
        p.maybe_next_state();
    }
    assert_eq!(p.state, PlayerState::Downward);
}

#[test]
fn non_counting_states_are_stable() {
    let stable = [
        PlayerState::Downward,
        PlayerState::LeftStop,
        PlayerState::LeftMove,
        PlayerState::RightStop,
        PlayerState::RightMove,
        PlayerState::Left30,
        PlayerState::Left45,
        PlayerState::Right30,
        PlayerState::Right45,
    ];
    for s in stable {
        let mut p = player_in(s);
        p.maybe_next_state();
        assert_eq!(p.state, s);
    }
}

#[test]
fn required_frames_per_trick() {
    assert_eq!(TrickType::Trick1.required_frames(), 20);
    assert_eq!(TrickType::Trick2.required_frames(), 40);
    assert_eq!(TrickType::Flip.required_frames(), 50);
}

#[test]
fn small_jump_trick_success() {
    let mut p = player_in(PlayerState::Downward);
    p.collision(CollisionAction::JumpSmall);
    assert_eq!(p.state, PlayerState::Jump(20));
    p.do_trick(TrickType::Trick1);
    assert_eq!(p.state, PlayerState::Trick1(20, true));
    for _ in 0..20 {
        p.maybe_next_state();
    }
    assert_eq!(p.state, PlayerState::Downward);
}

#[test]
fn failed_large_trick_falls() {
    let mut p = player_in(PlayerState::Downward);
    p.collision(CollisionAction::JumpSmall);
    assert_eq!(p.state, PlayerState::Jump(20));
    p.do_trick(TrickType::Trick2);
    assert_eq!(p.state, PlayerState::Trick2(20, false));
    for _ in 0..20 {
        p.maybe_next_state();
    }
    assert_eq!(p.state, PlayerState::Fallen(60));
}

#[test]
fn trick_needs_a_jump() {
    let mut p = player_in(PlayerState::Downward);
    p.do_trick(TrickType::Trick1);
    assert_eq!(p.state, PlayerState::Downward);

    let mut p = player_in(PlayerState::Fallen(10));
    p.do_trick(TrickType::Flip);
    assert_eq!(p.state, PlayerState::Fallen(10));
}

#[test]
fn flip_runs_through_four_phases() {
    let mut p = player_in(PlayerState::Downward);
    p.collision(CollisionAction::JumpLarge);
    assert_eq!(p.state, PlayerState::Jump(60));
    p.do_trick(TrickType::Flip);
    assert_eq!(p.state, PlayerState::Flip(FlipSequence::Flip1(60), true));
    // 60 counts down to the phase boundary at 36, then the pose advances.
    for _ in 0..24 {
        p.maybe_next_state();
    }
    assert_eq!(p.state, PlayerState::Flip(FlipSequence::Flip1(36), true));
    p.maybe_next_state();
    assert_eq!(p.state, PlayerState::Flip(FlipSequence::Flip2(36), true));
    for _ in 0..12 {
        p.maybe_next_state();
    }
    assert_eq!(p.state, PlayerState::Flip(FlipSequence::Flip2(24), true));
    p.maybe_next_state();
    assert_eq!(p.state, PlayerState::Flip(FlipSequence::Flip3(24), true));
    for _ in 0..12 {
        p.maybe_next_state();
    }
    assert_eq!(p.state, PlayerState::Flip(FlipSequence::Flip3(12), true));
    p.maybe_next_state();
    assert_eq!(p.state, PlayerState::Flip(FlipSequence::Flip4(12), true));
    for _ in 0..12 {
        p.maybe_next_state();
    }
    assert_eq!(p.state, PlayerState::Downward);
}

#[test]
fn failed_flip_falls() {
    let mut p = player_in(PlayerState::Jump(20));
    p.do_trick(TrickType::Flip);
    assert_eq!(p.state, PlayerState::Flip(FlipSequence::Flip1(20), false));
    for _ in 0..20 {
        p.maybe_next_state();
    }
    assert_eq!(p.state, PlayerState::Fallen(60));
}

#[test]
fn directions_match_the_state_table() {
    let cases = [
        (PlayerState::Downward, Some(0)),
        (PlayerState::Jump(10), Some(0)),
        (PlayerState::Trick1(10, true), Some(0)),
        (PlayerState::LeftMove, Some(18)),
        (PlayerState::RightMove, Some(6)),
        (PlayerState::Left30, Some(22)),
        (PlayerState::Left45, Some(21)),
        (PlayerState::Right30, Some(2)),
        (PlayerState::Right45, Some(3)),
        (PlayerState::LeftStop, None),
        (PlayerState::RightStop, None),
        (PlayerState::Fallen(10), None),
        (PlayerState::Sitting(10), None),
    ];
    for (s, steps) in cases {
        let p = player_in(s);
        assert_eq!(p.direction(), steps.map(|n| Angle { steps: n }));
        assert_eq!(p.opposite_direction(), steps.map(|n| Angle { steps: n + 12 }));
    }
}

#[test]
fn trick_eligibility_is_exactly_airborne_in_a_jump() {
    assert!(player_in(PlayerState::Jump(1)).is_trick_eligible());
    assert!(!player_in(PlayerState::Downward).is_trick_eligible());
    assert!(!player_in(PlayerState::Fallen(10)).is_trick_eligible());
    assert!(!player_in(PlayerState::Trick1(10, true)).is_trick_eligible());
}

#[test]
fn new_player_stands_facing_right() {
    let p = Player::new();
    assert_eq!(p.state, PlayerState::RightStop);
    assert_eq!(p.speed(), 3);
    assert!(p.is_upright());
    assert!(!p.is_tricking());
    assert_eq!(p.jump_frame(), None);
}
