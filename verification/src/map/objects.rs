//! Terrain objects and decorative line markers.
//!
//! A terrain object is one placed world entity (tree, rock, ramp, mogul,
//! lift tower, course sign, ...): a position, a collision behavior consumed
//! on first contact, a visual-footprint kind, and an optional autonomous
//! motion rule (used by the chairlift cars). A line marker is a two-point
//! decorative segment (the lift cables) that scrolls like an object but has
//! no hitbox and never collides.

use crate::map::MAP_WIDTH;
use crate::map::MAP_X_START;
use crate::player::CollisionAction;
use crate::player::HITBOX_THICKNESS;
use crate::player::SPEED_LIMIT;
use crate::util::spec_vec2_from_angle;
use crate::util::vec2_from_angle;
use crate::util::Angle;
use crate::util::Rect;
use crate::util::Vec2;
use vstd::prelude::*;

verus! {

/// Bound on a well-formed resting coordinate, in milliunits.
pub const POS_LIMIT: i64 = 1_000_000_000_000;

/// Bound on a coordinate while a tick is in flight: a tick moves nothing by
/// more than a few thousand units.
pub const POS_TICK_LIMIT: i64 = 1_000_010_000_000;

/// Bound on an autonomous motion speed, in milliunits per tick.
pub const MOTION_LIMIT: i64 = 1_000_000;

/// Bound on an object's visual footprint, in milliunits.
pub const EXTENT_LIMIT: i64 = 100_000;

/// What a terrain object looks like: the renderer maps each kind to its
/// sprite; the core only reads the kind's nominal footprint.
#[derive(Clone, Copy, PartialEq, Eq, Structural, Debug)]
pub enum ObjectKind {
    BigTree,
    Tree1,
    Tree2,
    Tree3,
    Tree4,
    XTree1,
    XTree2,
    XTree3,
    Stump,
    Mushroom,
    Rock,
    BumpL,
    BumpS,
    Mogul,
    Ramp,
    Lift,
    Chairlift,
    Lifters,
    SlalomSign,
    FreestyleSign,
    TreeSlalomSign,
}

/// The nominal visual footprint (width, height) of a kind, in milliunits.
pub open spec fn spec_extent(kind: ObjectKind) -> (i64, i64) {
    match kind {
        ObjectKind::BigTree => (32_000i64, 64_000i64),
        ObjectKind::Tree1 => (16_000i64, 32_000i64),
        ObjectKind::Tree2 => (16_000i64, 32_000i64),
        ObjectKind::Tree3 => (16_000i64, 32_000i64),
        ObjectKind::Tree4 => (16_000i64, 32_000i64),
        ObjectKind::XTree1 => (16_000i64, 32_000i64),
        ObjectKind::XTree2 => (16_000i64, 32_000i64),
        ObjectKind::XTree3 => (16_000i64, 32_000i64),
        ObjectKind::Stump => (16_000i64, 16_000i64),
        ObjectKind::Mushroom => (16_000i64, 16_000i64),
        ObjectKind::Rock => (24_000i64, 16_000i64),
        ObjectKind::BumpL => (32_000i64, 8_000i64),
        ObjectKind::BumpS => (16_000i64, 8_000i64),
        ObjectKind::Mogul => (24_000i64, 8_000i64),
        ObjectKind::Ramp => (32_000i64, 16_000i64),
        ObjectKind::Lift => (24_000i64, 64_000i64),
        ObjectKind::Chairlift => (24_000i64, 24_000i64),
        ObjectKind::Lifters => (24_000i64, 24_000i64),
        ObjectKind::SlalomSign => (64_000i64, 32_000i64),
        ObjectKind::FreestyleSign => (64_000i64, 32_000i64),
        ObjectKind::TreeSlalomSign => (64_000i64, 32_000i64),
    }
}

impl ObjectKind {
    /// The nominal visual footprint (width, height), in milliunits.
    pub fn extent(self) -> (e: (i64, i64))
        ensures
            e == spec_extent(self),
            0 < e.0 <= EXTENT_LIMIT,
            0 < e.1 <= EXTENT_LIMIT,
    {
        match self {
            ObjectKind::BigTree => (32_000, 64_000),
            ObjectKind::Tree1 => (16_000, 32_000),
            ObjectKind::Tree2 => (16_000, 32_000),
            ObjectKind::Tree3 => (16_000, 32_000),
            ObjectKind::Tree4 => (16_000, 32_000),
            ObjectKind::XTree1 => (16_000, 32_000),
            ObjectKind::XTree2 => (16_000, 32_000),
            ObjectKind::XTree3 => (16_000, 32_000),
            ObjectKind::Stump => (16_000, 16_000),
            ObjectKind::Mushroom => (16_000, 16_000),
            ObjectKind::Rock => (24_000, 16_000),
            ObjectKind::BumpL => (32_000, 8_000),
            ObjectKind::BumpS => (16_000, 8_000),
            ObjectKind::Mogul => (24_000, 8_000),
            ObjectKind::Ramp => (32_000, 16_000),
            ObjectKind::Lift => (24_000, 64_000),
            ObjectKind::Chairlift => (24_000, 24_000),
            ObjectKind::Lifters => (24_000, 24_000),
            ObjectKind::SlalomSign => (64_000, 32_000),
            ObjectKind::FreestyleSign => (64_000, 32_000),
            ObjectKind::TreeSlalomSign => (64_000, 32_000),
        }
    }
}

/// An autonomous per-tick motion rule, independent of player scrolling:
/// still for static terrain; the chairlift cars ascend (towards smaller y)
/// or descend (towards greater y) at a fixed speed in milliunits per tick.
#[derive(Clone, Copy, PartialEq, Eq, Structural, Debug)]
pub enum MotionRule {
    Still,
    Ascend(i64),
    Descend(i64),
}

pub open spec fn wf_motion(m: MotionRule) -> bool {
    match m {
        MotionRule::Still => true,
        MotionRule::Ascend(s) => 0 <= s <= MOTION_LIMIT,
        MotionRule::Descend(s) => 0 <= s <= MOTION_LIMIT,
    }
}

/// Anything that scrolls with the world.
pub trait Shift: Sized {
    /// The value after one shift.
    spec fn shifted(self, direction: Angle, magnitude: i64) -> Self;

    /// When a shift's arithmetic is safe: coordinates within the tick bound
    /// and a sane magnitude.
    spec fn shift_ok(&self, magnitude: i64) -> bool;

    /// Translate by `magnitude` world units along `direction`.
    fn shift(&mut self, direction: Angle, magnitude: i64)
        requires
            old(self).shift_ok(magnitude),
        ensures
            *final(self) == old(self).shifted(direction, magnitude),
    ;
}

/// One placed world entity.
#[derive(Clone, Copy, PartialEq, Eq, Structural, Debug)]
pub struct Object {
    pub position: Vec2,
    pub kind: ObjectKind,
    pub collision_action: CollisionAction,
    pub movement: MotionRule,
}

/// A decorative two-point line segment: a start and an end point, a stroke
/// width in milliunits, and a color with channels scaled by 1000.
#[derive(Clone, Copy, PartialEq, Eq, Structural, Debug)]
pub struct LineObject {
    pub start: Vec2,
    pub end: Vec2,
    pub width: i64,
    pub color: Color,
}

/// A color: red, green and blue channels, each scaled by 1000.
#[derive(Clone, Copy, PartialEq, Eq, Structural, Debug)]
pub struct Color {
    pub r: i64,
    pub g: i64,
    pub b: i64,
}

impl LineObject {
    pub fn new(start: Vec2, end: Vec2, width: i64, color: Color) -> (l: LineObject)
        ensures
            l == (LineObject { start, end, width, color }),
    {
        LineObject { start, end, width, color }
    }

    pub open spec fn wf(&self) -> bool {
        &&& -POS_LIMIT <= self.start.x <= POS_LIMIT
        &&& -POS_LIMIT <= self.start.y <= POS_LIMIT
        &&& -POS_LIMIT <= self.end.x <= POS_LIMIT
        &&& -POS_LIMIT <= self.end.y <= POS_LIMIT
    }

    /// Runtime well-formedness test, for callers outside the verified world.
    pub fn wf_check(&self) -> (r: bool)
        ensures
            r == self.wf(),
    {
        -POS_LIMIT <= self.start.x && self.start.x <= POS_LIMIT && -POS_LIMIT <= self.start.y
            && self.start.y <= POS_LIMIT && -POS_LIMIT <= self.end.x && self.end.x <= POS_LIMIT
            && -POS_LIMIT <= self.end.y && self.end.y <= POS_LIMIT
    }
}

impl Object {
    /// Well formed: resting inside the course band horizontally, within the
    /// resting bound vertically, with a sane motion rule.
    pub open spec fn wf(&self) -> bool {
        &&& MAP_X_START <= self.position.x <= MAP_WIDTH
        &&& -POS_LIMIT <= self.position.y <= POS_LIMIT
        &&& wf_motion(self.movement)
    }

    /// An immovable object: static terrain.
    pub fn immovable(position: Vec2, kind: ObjectKind, collision_action: CollisionAction) -> (o:
        Object)
        ensures
            o == (Object { position, kind, collision_action, movement: MotionRule::Still }),
    {
        Self::new(position, kind, collision_action, MotionRule::Still)
    }

    /// An object with an autonomous per-tick displacement, independent of
    /// player scrolling.
    pub fn movable(
        position: Vec2,
        kind: ObjectKind,
        collision_action: CollisionAction,
        movement: MotionRule,
    ) -> (o: Object)
        ensures
            o == (Object { position, kind, collision_action, movement }),
    {
        Self::new(position, kind, collision_action, movement)
    }

    fn new(
        position: Vec2,
        kind: ObjectKind,
        collision_action: CollisionAction,
        movement: MotionRule,
    ) -> (o: Object)
        ensures
            o == (Object { position, kind, collision_action, movement }),
    {
        Object { position, kind, collision_action, movement }
    }

    /// Runtime well-formedness test, for callers outside the verified world.
    pub fn wf_check(&self) -> (r: bool)
        ensures
            r == self.wf(),
    {
        let motion_ok = match self.movement {
            MotionRule::Still => true,
            MotionRule::Ascend(s) => 0 <= s && s <= MOTION_LIMIT,
            MotionRule::Descend(s) => 0 <= s && s <= MOTION_LIMIT,
        };
        MAP_X_START <= self.position.x && self.position.x <= MAP_WIDTH
            && -POS_LIMIT <= self.position.y && self.position.y <= POS_LIMIT && motion_ok
    }

    /// What `apply_movement` does: the autonomous displacement of one tick.
    pub open spec fn spec_apply_movement(self) -> Object {
        match self.movement {
            MotionRule::Still => self,
            MotionRule::Ascend(s) => Object {
                position: Vec2 { x: self.position.x, y: (self.position.y - s) as i64 },
                ..self
            },
            MotionRule::Descend(s) => Object {
                position: Vec2 { x: self.position.x, y: (self.position.y + s) as i64 },
                ..self
            },
        }
    }

    /// Apply the autonomous motion rule, if any.
    pub fn apply_movement(&mut self)
        requires
            -POS_TICK_LIMIT <= old(self).position.y <= POS_TICK_LIMIT,
            wf_motion(old(self).movement),
        ensures
            *final(self) == old(self).spec_apply_movement(),
    {
        match self.movement {
            MotionRule::Still => {},
            MotionRule::Ascend(s) => {
                self.position.y = self.position.y - s;
            },
            MotionRule::Descend(s) => {
                self.position.y = self.position.y + s;
            },
        }
    }

    /// What `hitbox` returns: the ground-contact band at the object's visual
    /// base — position plus the footprint's height, the footprint's full
    /// width, and a fixed thin vertical thickness.
    pub open spec fn spec_hitbox(&self) -> Rect {
        Rect {
            x: self.position.x,
            y: (self.position.y + spec_extent(self.kind).1) as i64,
            w: spec_extent(self.kind).0,
            h: HITBOX_THICKNESS,
        }
    }

    /// The object's hitbox: a thin band at its visual base, modelling ground
    /// contact rather than the whole sprite.
    pub fn hitbox(&self) -> (r: Rect)
        requires
            -POS_TICK_LIMIT <= self.position.x <= POS_TICK_LIMIT,
            -POS_TICK_LIMIT <= self.position.y <= POS_TICK_LIMIT,
        ensures
            r == self.spec_hitbox(),
            r.bounded(),
    {
        let (width, height) = self.kind.extent();
        Rect { x: self.position.x, y: self.position.y + height, w: width, h: HITBOX_THICKNESS }
    }
}

/// What `Object::shift` does: translate by `magnitude` world units along
/// `direction`, then wrap the horizontal coordinate across the course
/// boundaries to keep the infinite-width illusion of the scrolling band.
pub open spec fn spec_shift_object(o: Object, direction: Angle, magnitude: i64) -> Object {
    let v = spec_vec2_from_angle(direction);
    let nx = o.position.x + v.x * magnitude;
    let ny = o.position.y + v.y * magnitude;
    let wx = if nx > MAP_WIDTH {
        MAP_X_START as int
    } else if nx < MAP_X_START {
        MAP_WIDTH as int
    } else {
        nx
    };
    Object { position: Vec2 { x: wx as i64, y: ny as i64 }, ..o }
}

impl Shift for Object {
    open spec fn shifted(self, direction: Angle, magnitude: i64) -> Object {
        spec_shift_object(self, direction, magnitude)
    }

    open spec fn shift_ok(&self, magnitude: i64) -> bool {
        &&& -POS_TICK_LIMIT <= self.position.x <= POS_TICK_LIMIT
        &&& -POS_TICK_LIMIT <= self.position.y <= POS_TICK_LIMIT
        &&& 0 <= magnitude <= SPEED_LIMIT
    }

    fn shift(&mut self, direction: Angle, magnitude: i64) {
        let v = vec2_from_angle(direction);
        proof {
            assert(-1000 * SPEED_LIMIT <= v.x * magnitude <= 1000 * SPEED_LIMIT)
                by (nonlinear_arith)
                requires
                    -1000 <= v.x <= 1000,
                    0 <= magnitude <= SPEED_LIMIT,
            ;
            assert(-1000 * SPEED_LIMIT <= v.y * magnitude <= 1000 * SPEED_LIMIT)
                by (nonlinear_arith)
                requires
                    -1000 <= v.y <= 1000,
                    0 <= magnitude <= SPEED_LIMIT,
            ;
        }
        let mut x: i64 = self.position.x + v.x * magnitude;
        let y: i64 = self.position.y + v.y * magnitude;
        if x > MAP_WIDTH {
            x = MAP_X_START;
        } else if x < MAP_X_START {
            x = MAP_WIDTH;
        }
        self.position = Vec2 { x, y };
    }
}

/// What `LineObject::shift` does: translate both points, without wrapping.
pub open spec fn spec_shift_line(l: LineObject, direction: Angle, magnitude: i64) -> LineObject {
    let v = spec_vec2_from_angle(direction);
    LineObject {
        start: Vec2 {
            x: (l.start.x + v.x * magnitude) as i64,
            y: (l.start.y + v.y * magnitude) as i64,
        },
        end: Vec2 {
            x: (l.end.x + v.x * magnitude) as i64,
            y: (l.end.y + v.y * magnitude) as i64,
        },
        ..l
    }
}

impl Shift for LineObject {
    open spec fn shifted(self, direction: Angle, magnitude: i64) -> LineObject {
        spec_shift_line(self, direction, magnitude)
    }

    open spec fn shift_ok(&self, magnitude: i64) -> bool {
        &&& -POS_TICK_LIMIT <= self.start.x <= POS_TICK_LIMIT
        &&& -POS_TICK_LIMIT <= self.start.y <= POS_TICK_LIMIT
        &&& -POS_TICK_LIMIT <= self.end.x <= POS_TICK_LIMIT
        &&& -POS_TICK_LIMIT <= self.end.y <= POS_TICK_LIMIT
        &&& 0 <= magnitude <= SPEED_LIMIT
    }

    fn shift(&mut self, direction: Angle, magnitude: i64) {
        let v = vec2_from_angle(direction);
        proof {
            assert(-1000 * SPEED_LIMIT <= v.x * magnitude <= 1000 * SPEED_LIMIT)
                by (nonlinear_arith)
                requires
                    -1000 <= v.x <= 1000,
                    0 <= magnitude <= SPEED_LIMIT,
            ;
            assert(-1000 * SPEED_LIMIT <= v.y * magnitude <= 1000 * SPEED_LIMIT)
                by (nonlinear_arith)
                requires
                    -1000 <= v.y <= 1000,
                    0 <= magnitude <= SPEED_LIMIT,
            ;
        }
        self.start = Vec2 { x: self.start.x + v.x * magnitude, y: self.start.y + v.y * magnitude };
        self.end = Vec2 { x: self.end.x + v.x * magnitude, y: self.end.y + v.y * magnitude };
    }
}

} // verus!
