//! The player state machine: a frame-counted finite automaton governing
//! heading, falls, jumps, sitting recovery, and multi-phase trick and flip
//! sequences.
//!
//! Every transition is deterministic. A frame counter is always at least 0;
//! it decreases by one per tick, and the tick that would exhaust it resolves
//! the state into its defined successor instead. Collision reactions and
//! steering are accepted only while the player is upright; in every other
//! state they leave the player unchanged.

use crate::util::Angle;
use crate::util::Rect;
use vstd::prelude::*;

verus! {

/// Frames the player stays down after a fall.
pub const FALLEN_FRAMES: i8 = 60;

/// Frames the player sits up after being down.
pub const SITTING_FRAMES: i8 = 60;

/// Airborne frames granted by a small jump.
pub const JUMP_FRAMES_SHORT: i8 = 20;

/// Airborne frames granted by a large jump.
pub const JUMP_FRAMES_LONG: i8 = 60;

/// Frames the first trick needs: it can be landed out of a small jump.
pub const TRICK1_FRAMES: i8 = 20;

/// Frames the second trick needs: it can only be landed out of a large jump.
pub const TRICK2_FRAMES: i8 = 40;

/// Frames a full flip needs.
pub const FLIP_FRAMES: i8 = 50;

/// The flip runs through four roughly equal timed segments: its counter
/// counts airborne frames down, and the pose advances to the next segment
/// when the counter reaches three quarters, one half, and one quarter of the
/// full flip budget (rounded down to a whole quarter of 50).
pub const FLIP_PHASE2_AT: i8 = 36;

pub const FLIP_PHASE3_AT: i8 = 24;

pub const FLIP_PHASE4_AT: i8 = 12;

/// The player's normal gliding speed, in world units per tick.
pub const PLAYER_SPEED_NORMAL: i64 = 3;

/// Bound on a well-formed player speed, in world units per tick.
pub const SPEED_LIMIT: i64 = 1000;

/// The player sprite's fixed screen position, in milliunits: the world
/// scrolls under a stationary player.
pub const PLAYER_X: i64 = 240_000;

pub const PLAYER_Y: i64 = 200_000;

/// The player's nominal visual footprint, in milliunits.
pub const PLAYER_WIDTH: i64 = 16_000;

pub const PLAYER_HEIGHT: i64 = 32_000;

/// Thickness of the ground-contact band of a hitbox, in milliunits.
pub const HITBOX_THICKNESS: i64 = 5_000;

/// The effect an obstacle imposes on first contact.
#[derive(Clone, Copy, PartialEq, Eq, Structural, Debug)]
pub enum CollisionAction {
    Nothing,
    Fall,
    JumpSmall,
    JumpLarge,
}

/// The tricks the player can attempt while airborne.
#[derive(Clone, Copy, PartialEq, Eq, Structural, Debug)]
pub enum TrickType {
    Trick1,
    Trick2,
    Flip,
}

/// The four poses of a flip, each carrying the remaining airborne frames.
#[derive(Clone, Copy, PartialEq, Eq, Structural, Debug)]
pub enum FlipSequence {
    Flip1(i8),
    Flip2(i8),
    Flip3(i8),
    Flip4(i8),
}

/// The skier's current condition: exactly one variant is active at a time.
/// Counting variants carry the remaining frames; trick variants also carry
/// the success flag that was decided when the trick was initiated.
#[derive(Clone, Copy, PartialEq, Eq, Structural, Debug)]
pub enum PlayerState {
    Downward,
    Fallen(i8),
    Sitting(i8),
    Flip(FlipSequence, bool),
    Jump(i8),
    LeftStop,
    LeftMove,
    RightStop,
    RightMove,
    Left30,
    Left45,
    Right30,
    Right45,
    Trick1(i8, bool),
    Trick2(i8, bool),
}

pub open spec fn spec_required_frames(trick: TrickType) -> i8 {
    match trick {
        TrickType::Trick1 => TRICK1_FRAMES,
        TrickType::Trick2 => TRICK2_FRAMES,
        TrickType::Flip => FLIP_FRAMES,
    }
}

impl TrickType {
    /// The airborne frames a trick needs for a successful landing.
    pub fn required_frames(&self) -> (r: i8)
        ensures
            r == spec_required_frames(*self),
    {
        match self {
            TrickType::Trick1 => TRICK1_FRAMES,
            TrickType::Trick2 => TRICK2_FRAMES,
            TrickType::Flip => FLIP_FRAMES,
        }
    }
}

/// A flip pose is well formed when its frame counter is not negative.
pub open spec fn wf_flip(fs: FlipSequence) -> bool {
    match fs {
        FlipSequence::Flip1(f) => f >= 0,
        FlipSequence::Flip2(f) => f >= 0,
        FlipSequence::Flip3(f) => f >= 0,
        FlipSequence::Flip4(f) => f >= 0,
    }
}

/// A state is well formed when its frame counter, if it has one, is not
/// negative.
pub open spec fn wf_state(s: PlayerState) -> bool {
    match s {
        PlayerState::Fallen(f) => f >= 0,
        PlayerState::Sitting(f) => f >= 0,
        PlayerState::Jump(f) => f >= 0,
        PlayerState::Trick1(f, _) => f >= 0,
        PlayerState::Trick2(f, _) => f >= 0,
        PlayerState::Flip(fs, _) => wf_flip(fs),
        _ => true,
    }
}

/// Upright: moving or standing, but not fallen, sitting, jumping or
/// mid-trick. Only an upright player accepts steering and new collisions.
pub open spec fn spec_is_upright(s: PlayerState) -> bool {
    match s {
        PlayerState::Downward
        | PlayerState::LeftStop
        | PlayerState::LeftMove
        | PlayerState::RightStop
        | PlayerState::RightMove
        | PlayerState::Left30
        | PlayerState::Left45
        | PlayerState::Right30
        | PlayerState::Right45 => true,
        _ => false,
    }
}

/// Mid-trick: in a trick or flip animation.
pub open spec fn spec_is_tricking(s: PlayerState) -> bool {
    match s {
        PlayerState::Flip(..) | PlayerState::Trick1(..) | PlayerState::Trick2(..) => true,
        _ => false,
    }
}

/// How a finished trick resolves: success lands downward, failure falls.
pub open spec fn spec_trick_resolution(success: bool) -> PlayerState {
    if success {
        PlayerState::Downward
    } else {
        PlayerState::Fallen(FALLEN_FRAMES)
    }
}

/// One tick of a flip: advance the pose at the segment boundaries, otherwise
/// count down; the tick that would exhaust the counter resolves the flip.
pub open spec fn spec_flip_next(fs: FlipSequence, success: bool) -> PlayerState {
    match fs {
        FlipSequence::Flip1(f) => if f == FLIP_PHASE2_AT {
            PlayerState::Flip(FlipSequence::Flip2(f), success)
        } else if f <= 1 {
            spec_trick_resolution(success)
        } else {
            PlayerState::Flip(FlipSequence::Flip1((f - 1) as i8), success)
        },
        FlipSequence::Flip2(f) => if f == FLIP_PHASE3_AT {
            PlayerState::Flip(FlipSequence::Flip3(f), success)
        } else if f <= 1 {
            spec_trick_resolution(success)
        } else {
            PlayerState::Flip(FlipSequence::Flip2((f - 1) as i8), success)
        },
        FlipSequence::Flip3(f) => if f == FLIP_PHASE4_AT {
            PlayerState::Flip(FlipSequence::Flip4(f), success)
        } else if f <= 1 {
            spec_trick_resolution(success)
        } else {
            PlayerState::Flip(FlipSequence::Flip3((f - 1) as i8), success)
        },
        FlipSequence::Flip4(f) => if f <= 1 {
            spec_trick_resolution(success)
        } else {
            PlayerState::Flip(FlipSequence::Flip4((f - 1) as i8), success)
        },
    }
}

/// The per-tick successor. Counting states count down; the tick that would
/// exhaust a counter resolves the state: a fall leads to sitting, sitting
/// recovers downward, a jump lands downward, and a trick or flip lands
/// downward on success and falls on failure. Non-counting states are stable.
pub open spec fn spec_next_state(s: PlayerState) -> PlayerState {
    match s {
        PlayerState::Fallen(f) => if f > 1 {
            PlayerState::Fallen((f - 1) as i8)
        } else {
            PlayerState::Sitting(SITTING_FRAMES)
        },
        PlayerState::Sitting(f) => if f > 1 {
            PlayerState::Sitting((f - 1) as i8)
        } else {
            PlayerState::Downward
        },
        PlayerState::Jump(f) => if f > 1 {
            PlayerState::Jump((f - 1) as i8)
        } else {
            PlayerState::Downward
        },
        PlayerState::Trick1(f, success) => if f > 1 {
            PlayerState::Trick1((f - 1) as i8, success)
        } else {
            spec_trick_resolution(success)
        },
        PlayerState::Trick2(f, success) => if f > 1 {
            PlayerState::Trick2((f - 1) as i8, success)
        } else {
            spec_trick_resolution(success)
        },
        PlayerState::Flip(fs, success) => spec_flip_next(fs, success),
        _ => s,
    }
}

/// Steering left: one discrete heading step per press. The table is not
/// symmetric in magnitude: pressing left while gliding right counter-steers
/// hard to the steepest right heading before reversing.
pub open spec fn spec_steer_left(s: PlayerState) -> PlayerState {
    match s {
        PlayerState::Downward => PlayerState::Left30,
        PlayerState::LeftStop => PlayerState::LeftMove,
        PlayerState::RightStop => PlayerState::Right45,
        PlayerState::RightMove => PlayerState::Right45,
        PlayerState::Left30 => PlayerState::Left45,
        PlayerState::Left45 => PlayerState::LeftStop,
        PlayerState::LeftMove => PlayerState::LeftStop,
        PlayerState::Right30 => PlayerState::Downward,
        PlayerState::Right45 => PlayerState::Right30,
        _ => s,
    }
}

/// Steering right: the mirror of `spec_steer_left`.
pub open spec fn spec_steer_right(s: PlayerState) -> PlayerState {
    match s {
        PlayerState::Downward => PlayerState::Right30,
        PlayerState::LeftStop => PlayerState::Left45,
        PlayerState::LeftMove => PlayerState::Left45,
        PlayerState::RightStop => PlayerState::RightMove,
        PlayerState::Left30 => PlayerState::Downward,
        PlayerState::Left45 => PlayerState::Left30,
        PlayerState::Right30 => PlayerState::Right45,
        PlayerState::Right45 => PlayerState::RightStop,
        PlayerState::RightMove => PlayerState::RightStop,
        _ => s,
    }
}

/// Releasing the left key stops a leftwards glide; a no-op in every other
/// state.
pub open spec fn spec_release_left(s: PlayerState) -> PlayerState {
    match s {
        PlayerState::LeftMove => PlayerState::LeftStop,
        _ => s,
    }
}

/// Releasing the right key stops a rightwards glide; a no-op in every other
/// state.
pub open spec fn spec_release_right(s: PlayerState) -> PlayerState {
    match s {
        PlayerState::RightMove => PlayerState::RightStop,
        _ => s,
    }
}

/// A collision takes effect only while upright: a fall knocks the player
/// down, a jump sends the player airborne with the behavior's frame budget,
/// and a harmless contact changes nothing.
pub open spec fn spec_collide(s: PlayerState, action: CollisionAction) -> PlayerState {
    if spec_is_upright(s) {
        match action {
            CollisionAction::Fall => PlayerState::Fallen(FALLEN_FRAMES),
            CollisionAction::JumpSmall => PlayerState::Jump(JUMP_FRAMES_SHORT),
            CollisionAction::JumpLarge => PlayerState::Jump(JUMP_FRAMES_LONG),
            CollisionAction::Nothing => s,
        }
    } else {
        s
    }
}

/// A trick can only be attempted while airborne in a jump. It captures the
/// remaining airborne frames, and succeeds exactly when the trick's required
/// frames fit in them; that single comparison, made at initiation, decides
/// the eventual landing.
pub open spec fn spec_do_trick(s: PlayerState, trick: TrickType) -> PlayerState {
    match s {
        PlayerState::Jump(f) => {
            let success = spec_required_frames(trick) <= f;
            match trick {
                TrickType::Trick1 => PlayerState::Trick1(f, success),
                TrickType::Trick2 => PlayerState::Trick2(f, success),
                TrickType::Flip => PlayerState::Flip(FlipSequence::Flip1(f), success),
            }
        },
        _ => s,
    }
}

/// The current heading. Airborne and downhill states head straight down
/// (step 0); angled states head at their named angle; stopped, fallen and
/// sitting states have no heading.
pub open spec fn spec_direction(s: PlayerState) -> Option<Angle> {
    match s {
        PlayerState::Downward
        | PlayerState::Flip(..)
        | PlayerState::Jump(_)
        | PlayerState::Trick1(..)
        | PlayerState::Trick2(..) => Some(Angle { steps: 0i64 }),
        PlayerState::LeftMove => Some(Angle { steps: 18i64 }),
        PlayerState::RightMove => Some(Angle { steps: 6i64 }),
        PlayerState::Left30 => Some(Angle { steps: 22i64 }),
        PlayerState::Left45 => Some(Angle { steps: 21i64 }),
        PlayerState::Right30 => Some(Angle { steps: 2i64 }),
        PlayerState::Right45 => Some(Angle { steps: 3i64 }),
        PlayerState::LeftStop
        | PlayerState::RightStop
        | PlayerState::Fallen(_)
        | PlayerState::Sitting(_) => None,
    }
}

/// The heading opposite to `spec_direction`: half a turn further, used to
/// scroll the world under the stationary player sprite.
pub open spec fn spec_opposite_direction(s: PlayerState) -> Option<Angle> {
    match spec_direction(s) {
        Some(a) => Some(Angle { steps: (a.steps + 12) as i64 }),
        None => None,
    }
}

impl FlipSequence {
    /// One tick of a flip, given the success flag captured at initiation.
    pub fn next_state(self, success: bool) -> (r: PlayerState)
        ensures
            r == spec_flip_next(self, success),
    {
        match self {
            FlipSequence::Flip1(f) => {
                if f == FLIP_PHASE2_AT {
                    PlayerState::Flip(FlipSequence::Flip2(f), success)
                } else if f <= 1 {
                    trick_resolution(success)
                } else {
                    PlayerState::Flip(FlipSequence::Flip1(f - 1), success)
                }
            },
            FlipSequence::Flip2(f) => {
                if f == FLIP_PHASE3_AT {
                    PlayerState::Flip(FlipSequence::Flip3(f), success)
                } else if f <= 1 {
                    trick_resolution(success)
                } else {
                    PlayerState::Flip(FlipSequence::Flip2(f - 1), success)
                }
            },
            FlipSequence::Flip3(f) => {
                if f == FLIP_PHASE4_AT {
                    PlayerState::Flip(FlipSequence::Flip4(f), success)
                } else if f <= 1 {
                    trick_resolution(success)
                } else {
                    PlayerState::Flip(FlipSequence::Flip3(f - 1), success)
                }
            },
            FlipSequence::Flip4(f) => {
                if f <= 1 {
                    trick_resolution(success)
                } else {
                    PlayerState::Flip(FlipSequence::Flip4(f - 1), success)
                }
            },
        }
    }
}

/// How a finished trick resolves.
fn trick_resolution(success: bool) -> (r: PlayerState)
    ensures
        r == spec_trick_resolution(success),
{
    if success {
        PlayerState::Downward
    } else {
        PlayerState::Fallen(FALLEN_FRAMES)
    }
}

impl PlayerState {
    /// The per-tick successor state.
    pub fn next_state(self) -> (r: PlayerState)
        ensures
            r == spec_next_state(self),
            wf_state(r),
    {
        match self {
            PlayerState::Fallen(f) => {
                if f > 1 {
                    PlayerState::Fallen(f - 1)
                } else {
                    PlayerState::Sitting(SITTING_FRAMES)
                }
            },
            PlayerState::Sitting(f) => {
                if f > 1 {
                    PlayerState::Sitting(f - 1)
                } else {
                    PlayerState::Downward
                }
            },
            PlayerState::Jump(f) => {
                if f > 1 {
                    PlayerState::Jump(f - 1)
                } else {
                    PlayerState::Downward
                }
            },
            PlayerState::Trick1(f, success) => {
                if f > 1 {
                    PlayerState::Trick1(f - 1, success)
                } else {
                    trick_resolution(success)
                }
            },
            PlayerState::Trick2(f, success) => {
                if f > 1 {
                    PlayerState::Trick2(f - 1, success)
                } else {
                    trick_resolution(success)
                }
            },
            PlayerState::Flip(fs, success) => fs.next_state(success),
            _ => self,
        }
    }
}

/// The skier: current state and gliding speed.
#[derive(Clone, Copy, PartialEq, Eq, Structural, Debug)]
pub struct Player {
    pub state: PlayerState,
    pub speed: i64,
}

impl Player {
    /// Well formed: the state's counter is not negative and the speed is a
    /// sane number of units per tick.
    pub open spec fn wf(&self) -> bool {
        &&& wf_state(self.state)
        &&& 0 <= self.speed <= SPEED_LIMIT
    }

    /// A new player stands still, facing right, at normal speed.
    pub fn new() -> (p: Player)
        ensures
            p.state == PlayerState::RightStop,
            p.speed == PLAYER_SPEED_NORMAL,
            p.wf(),
    {
        Player { state: PlayerState::RightStop, speed: PLAYER_SPEED_NORMAL }
    }

    /// Runtime well-formedness test, for callers outside the verified core.
    pub fn wf_check(&self) -> (r: bool)
        ensures
            r == self.wf(),
    {
        let state_ok = match self.state {
            PlayerState::Fallen(f) => f >= 0,
            PlayerState::Sitting(f) => f >= 0,
            PlayerState::Jump(f) => f >= 0,
            PlayerState::Trick1(f, _) => f >= 0,
            PlayerState::Trick2(f, _) => f >= 0,
            PlayerState::Flip(fs, _) => match fs {
                FlipSequence::Flip1(f) => f >= 0,
                FlipSequence::Flip2(f) => f >= 0,
                FlipSequence::Flip3(f) => f >= 0,
                FlipSequence::Flip4(f) => f >= 0,
            },
            _ => true,
        };
        state_ok && 0 <= self.speed && self.speed <= SPEED_LIMIT
    }

    /// The gliding speed, in world units per tick.
    pub fn speed(&self) -> (s: i64)
        ensures
            s == self.speed,
    {
        self.speed
    }

    /// React to a collision behavior: effective only while upright.
    pub fn collision(&mut self, action: CollisionAction)
        ensures
            final(self).state == spec_collide(old(self).state, action),
            final(self).speed == old(self).speed,
    {
        if self.is_upright() {
            match action {
                CollisionAction::Fall => {
                    self.state = PlayerState::Fallen(FALLEN_FRAMES);
                },
                CollisionAction::JumpSmall => {
                    self.state = PlayerState::Jump(JUMP_FRAMES_SHORT);
                },
                CollisionAction::JumpLarge => {
                    self.state = PlayerState::Jump(JUMP_FRAMES_LONG);
                },
                CollisionAction::Nothing => {},
            }
        }
    }

    /// Attempt a trick: effective only while airborne in a jump. Success is
    /// decided here, once, by comparing the trick's required frames with the
    /// remaining airborne frames.
    pub fn do_trick(&mut self, trick: TrickType)
        ensures
            final(self).state == spec_do_trick(old(self).state, trick),
            final(self).speed == old(self).speed,
    {
        let trick_frames = trick.required_frames();
        if let Some(jump_frame) = self.jump_frame() {
            let success = trick_frames <= jump_frame;
            self.state = match trick {
                TrickType::Trick1 => PlayerState::Trick1(jump_frame, success),
                TrickType::Trick2 => PlayerState::Trick2(jump_frame, success),
                TrickType::Flip => PlayerState::Flip(FlipSequence::Flip1(jump_frame), success),
            };
        }
    }

    /// Advance the state machine by one tick.
    pub fn maybe_next_state(&mut self)
        ensures
            final(self).state == spec_next_state(old(self).state),
            final(self).speed == old(self).speed,
            wf_state(final(self).state),
    {
        self.state = self.state.next_state();
    }

    /// Stop a leftwards glide when the left key is released.
    pub fn slide_left(&mut self)
        ensures
            final(self).state == spec_release_left(old(self).state),
            final(self).speed == old(self).speed,
    {
        self.state = match self.state {
            PlayerState::LeftMove => PlayerState::LeftStop,
            _ => self.state,
        };
    }

    /// Steer one step to the left.
    pub fn left(&mut self)
        ensures
            final(self).state == spec_steer_left(old(self).state),
            final(self).speed == old(self).speed,
    {
        self.state = match self.state {
            PlayerState::Downward => PlayerState::Left30,
            PlayerState::LeftStop => PlayerState::LeftMove,
            PlayerState::RightStop | PlayerState::RightMove => PlayerState::Right45,
            PlayerState::Left30 => PlayerState::Left45,
            PlayerState::Left45 | PlayerState::LeftMove => PlayerState::LeftStop,
            PlayerState::Right30 => PlayerState::Downward,
            PlayerState::Right45 => PlayerState::Right30,
            _ => self.state,
        };
    }

    /// Stop a rightwards glide when the right key is released.
    pub fn slide_right(&mut self)
        ensures
            final(self).state == spec_release_right(old(self).state),
            final(self).speed == old(self).speed,
    {
        self.state = match self.state {
            PlayerState::RightMove => PlayerState::RightStop,
            _ => self.state,
        };
    }

    /// Steer one step to the right.
    pub fn right(&mut self)
        ensures
            final(self).state == spec_steer_right(old(self).state),
            final(self).speed == old(self).speed,
    {
        self.state = match self.state {
            PlayerState::Downward => PlayerState::Right30,
            PlayerState::LeftStop | PlayerState::LeftMove => PlayerState::Left45,
            PlayerState::RightStop => PlayerState::RightMove,
            PlayerState::Left30 => PlayerState::Downward,
            PlayerState::Left45 => PlayerState::Left30,
            PlayerState::Right30 => PlayerState::Right45,
            PlayerState::Right45 | PlayerState::RightMove => PlayerState::RightStop,
            _ => self.state,
        };
    }

    /// What `hitbox` returns: the ground-contact band under the sprite.
    pub open spec fn spec_hitbox(&self) -> Rect {
        Rect {
            x: PLAYER_X,
            y: (PLAYER_Y + PLAYER_HEIGHT) as i64,
            w: PLAYER_WIDTH,
            h: HITBOX_THICKNESS,
        }
    }

    /// The player's hitbox: a thin band at the skis' ground contact, not the
    /// whole sprite.
    pub fn hitbox(&self) -> (r: Rect)
        ensures
            r == self.spec_hitbox(),
            r.bounded(),
    {
        Rect {
            x: PLAYER_X,
            y: PLAYER_Y + PLAYER_HEIGHT,
            w: PLAYER_WIDTH,
            h: HITBOX_THICKNESS,
        }
    }

    /// The current heading, if the player is moving.
    pub fn direction(&self) -> (d: Option<Angle>)
        ensures
            d == spec_direction(self.state),
    {
        match self.state {
            PlayerState::Downward
            | PlayerState::Flip(..)
            | PlayerState::Jump(_)
            | PlayerState::Trick1(..)
            | PlayerState::Trick2(..) => Some(Angle { steps: 0 }),
            PlayerState::LeftMove => Some(Angle { steps: 18 }),
            PlayerState::RightMove => Some(Angle { steps: 6 }),
            PlayerState::Left30 => Some(Angle { steps: 22 }),
            PlayerState::Left45 => Some(Angle { steps: 21 }),
            PlayerState::Right30 => Some(Angle { steps: 2 }),
            PlayerState::Right45 => Some(Angle { steps: 3 }),
            PlayerState::LeftStop
            | PlayerState::RightStop
            | PlayerState::Fallen(_)
            | PlayerState::Sitting(_) => None,
        }
    }

    /// The heading opposite to the player's movement, half a turn further:
    /// the direction the world scrolls in. `None` when the player is still.
    pub fn opposite_direction(&self) -> (d: Option<Angle>)
        ensures
            d == spec_opposite_direction(self.state),
            d is Some <==> spec_direction(self.state) is Some,
    {
        match self.direction() {
            Some(a) => Some(Angle { steps: a.steps + 12 }),
            None => None,
        }
    }

    /// Moving or standing, but not fallen, sitting, jumping or mid-trick.
    pub fn is_upright(&self) -> (r: bool)
        ensures
            r == spec_is_upright(self.state),
    {
        matches!(
            self.state,
            PlayerState::Downward
                | PlayerState::LeftStop
                | PlayerState::LeftMove
                | PlayerState::RightStop
                | PlayerState::RightMove
                | PlayerState::Left30
                | PlayerState::Left45
                | PlayerState::Right30
                | PlayerState::Right45,
        )
    }

    /// In a trick or flip animation.
    pub fn is_tricking(&self) -> (r: bool)
        ensures
            r == spec_is_tricking(self.state),
    {
        matches!(
            self.state,
            PlayerState::Flip(..) | PlayerState::Trick1(..) | PlayerState::Trick2(..),
        )
    }

    /// Trick-eligible: currently airborne in a jump.
    pub fn is_trick_eligible(&self) -> (r: bool)
        ensures
            r == (self.state is Jump),
    {
        matches!(self.state, PlayerState::Jump(_))
    }

    /// The remaining airborne frames, if the player is in a jump: trick
    /// attempts are eligible exactly then.
    pub fn jump_frame(&self) -> (r: Option<i8>)
        ensures
            r == (match self.state {
                PlayerState::Jump(f) => Some(f),
                _ => None::<i8>,
            }),
    {
        if let PlayerState::Jump(frame) = self.state {
            Some(frame)
        } else {
            None
        }
    }
}

/// Upright gating: a collision reaction never changes a player who is not
/// upright — fallen, sitting, airborne or mid-trick — whatever the behavior.
pub proof fn lemma_upright_gating(s: PlayerState, action: CollisionAction)
    requires
        !spec_is_upright(s),
    ensures
        spec_collide(s, action) == s,
{
}

/// Frame counters count down monotonically: in every counting state with
/// more than one frame left, a tick decreases the counter by exactly one and
/// keeps the variant; with at most one frame left, a tick resolves the state
/// into its defined successor. Counters never go negative.
pub proof fn lemma_counter_countdown(s: PlayerState)
    requires
        wf_state(s),
    ensures
        s matches PlayerState::Fallen(f) ==> spec_next_state(s) == (if f > 1 {
            PlayerState::Fallen((f - 1) as i8)
        } else {
            PlayerState::Sitting(SITTING_FRAMES)
        }),
        s matches PlayerState::Sitting(f) ==> spec_next_state(s) == (if f > 1 {
            PlayerState::Sitting((f - 1) as i8)
        } else {
            PlayerState::Downward
        }),
        s matches PlayerState::Jump(f) ==> spec_next_state(s) == (if f > 1 {
            PlayerState::Jump((f - 1) as i8)
        } else {
            PlayerState::Downward
        }),
        s matches PlayerState::Trick1(f, success) ==> spec_next_state(s) == (if f > 1 {
            PlayerState::Trick1((f - 1) as i8, success)
        } else {
            spec_trick_resolution(success)
        }),
        s matches PlayerState::Trick2(f, success) ==> spec_next_state(s) == (if f > 1 {
            PlayerState::Trick2((f - 1) as i8, success)
        } else {
            spec_trick_resolution(success)
        }),
        spec_is_upright(s) ==> spec_next_state(s) == s,
        wf_state(spec_next_state(s)),
{
}

/// Steering gating: steering and release commands never change a player who
/// is not upright, and a release changes nothing but its own glide.
pub proof fn lemma_steering_gating(s: PlayerState)
    requires
        !spec_is_upright(s),
    ensures
        spec_steer_left(s) == s,
        spec_steer_right(s) == s,
        spec_release_left(s) == s,
        spec_release_right(s) == s,
{
}

/// The state with left and right exchanged.
pub open spec fn spec_mirror(s: PlayerState) -> PlayerState {
    match s {
        PlayerState::LeftStop => PlayerState::RightStop,
        PlayerState::RightStop => PlayerState::LeftStop,
        PlayerState::LeftMove => PlayerState::RightMove,
        PlayerState::RightMove => PlayerState::LeftMove,
        PlayerState::Left30 => PlayerState::Right30,
        PlayerState::Right30 => PlayerState::Left30,
        PlayerState::Left45 => PlayerState::Right45,
        PlayerState::Right45 => PlayerState::Left45,
        _ => s,
    }
}

/// Steering symmetry: for every state, steering right is the mirror image of
/// steering left, and likewise for the release commands.
pub proof fn lemma_steering_symmetry(s: PlayerState)
    ensures
        spec_steer_right(s) == spec_mirror(spec_steer_left(spec_mirror(s))),
        spec_release_right(s) == spec_mirror(spec_release_left(spec_mirror(s))),
{
}

/// Progress measure of a counting state: twice the remaining frames, plus
/// the number of flip segments still to run. Each tick of a flip strictly
/// decreases it, so a flip always resolves.
pub open spec fn flip_measure(fs: FlipSequence) -> int {
    match fs {
        FlipSequence::Flip1(f) => 2 * f + 3,
        FlipSequence::Flip2(f) => 2 * f + 2,
        FlipSequence::Flip3(f) => 2 * f + 1,
        FlipSequence::Flip4(f) => 2 * f,
    }
}

/// A flip makes progress every tick: either it resolves (downward on
/// success, fallen on failure), or it stays a well-formed flip whose measure
/// strictly decreased.
pub proof fn lemma_flip_progress(fs: FlipSequence, success: bool)
    requires
        wf_flip(fs),
    ensures
        spec_flip_next(fs, success) == spec_trick_resolution(success) || (spec_flip_next(
            fs,
            success,
        ) matches PlayerState::Flip(fs2, s2) && s2 == success && wf_flip(fs2) && flip_measure(fs2)
            < flip_measure(fs)),
{
}

/// Progress measure towards standing upright again: zero exactly on upright
/// states, and strictly decreasing under every tick of a non-upright state.
/// A failed trick must still pay for the fall and the sit that follow it.
pub open spec fn recovery_measure(s: PlayerState) -> int {
    match s {
        PlayerState::Fallen(f) => f + 62,
        PlayerState::Sitting(f) => f + 1,
        PlayerState::Jump(f) => f + 1,
        PlayerState::Trick1(f, success) => f + (if success {
            1int
        } else {
            123int
        }),
        PlayerState::Trick2(f, success) => f + (if success {
            1int
        } else {
            123int
        }),
        PlayerState::Flip(fs, success) => flip_measure(fs) + (if success {
            1int
        } else {
            123int
        }),
        _ => 0,
    }
}

/// The machine has no terminal state: every upright state is stable under a
/// tick, and every other well-formed state strictly descends the recovery
/// measure, so the player always comes back upright after finitely many
/// ticks.
pub proof fn lemma_always_recovers(s: PlayerState)
    requires
        wf_state(s),
    ensures
        recovery_measure(s) >= 0,
        spec_is_upright(s) ==> spec_next_state(s) == s,
        !spec_is_upright(s) ==> recovery_measure(spec_next_state(s)) < recovery_measure(s),
{
}

} // verus!
