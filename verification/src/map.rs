//! The world: the collection of terrain objects and line markers, procedural
//! course generation, per-tick scrolling and eviction, and collision queries
//! against the player.
//!
//! The world is built once from a seed: a fixed start-area cluster and course
//! signs, three procedurally generated course bands side by side (slalom,
//! freestyle, tree slalom), a ski lift (towers every fixed vertical interval,
//! with chair cars moving autonomously up and down between them), and two
//! decorative lift cables. Each tick, every object is shifted opposite to the
//! player's heading, scaled by the player's speed; objects that scroll past a
//! threshold above the visible area are evicted for good.

use self::objects::spec_shift_line;
use self::objects::spec_shift_object;
use self::objects::Color;
use self::objects::LineObject;
use self::objects::MotionRule;
use self::objects::Object;
use self::objects::ObjectKind;
use self::objects::Shift;
use self::objects::POS_LIMIT;
use crate::player::CollisionAction;
use crate::player::Player;
use crate::rng::gen_range;
use crate::rng::gen_ratio;
use crate::rng::rng_from_seed;
use crate::util::spec_overlaps;
use crate::util::spec_vec2_from_angle;
use crate::util::Angle;
use crate::util::Rect;
use crate::util::Vec2;
use rand::rngs::StdRng;
use vstd::prelude::*;

pub mod objects;

verus! {

/// Right boundary of the course band, in milliunits.
pub const MAP_WIDTH: i64 = 3_000_000;

/// Bottom of the generated course, in milliunits.
pub const MAP_HEIGHT: i64 = 20_000_000;

/// Left boundary of the course band, in milliunits.
pub const MAP_X_START: i64 = -1_500_000;

/// Width of each of the three generated course bands, in milliunits.
pub const COURSE_WIDTH: i64 = 1_000_000;

/// Top of the generated course bands, in milliunits.
pub const COURSE_Y_START: i64 = 300_000;

pub const SLALOM_X_START: i64 = -1_500_000;

pub const FREESTYLE_X_START: i64 = -500_000;

pub const TREE_SLALOM_X_START: i64 = 500_000;

/// Horizontal position of the ski lift, in milliunits.
pub const LIFT_X_POS: i64 = 100_000;

/// Vertical position of the first lift tower, in milliunits.
pub const LIFT_Y_START: i64 = 100_000;

/// Vertical interval between lift towers, in milliunits.
pub const LIFT_Y_SPACING: i64 = 400_000;

/// An object whose vertical position has scrolled above this threshold is
/// behind the player and is evicted on the next update.
pub const EVICT_Y: i64 = -50_000;

/// Horizontal grid spacing of course generation, in milliunits.
pub const GRID_X_SPACING: i64 = 40_000;

/// Vertical grid spacing of course generation, in milliunits.
pub const GRID_Y_SPACING: i64 = 100_000;

/// The visible window, in milliunits.
pub const WINDOW_WIDTH: i64 = 480_000;

pub const WINDOW_HEIGHT: i64 = 640_000;

/// Margin by which the visible rectangle is inflated when culling objects
/// for drawing, in milliunits.
pub const DRAW_MARGIN: i64 = 100_000;

/// A static object resting at `(x, y)`.
pub open spec fn spec_static_object(x: i64, y: i64, kind: ObjectKind, action: CollisionAction) -> Object {
    Object { position: Vec2 { x, y }, kind, collision_action: action, movement: MotionRule::Still }
}

/// The fixed start area: a cluster of fall hazards around the entry and the
/// three course signs.
pub open spec fn spec_starting_objects() -> Seq<Object> {
    seq![
        spec_static_object(250_000, 110_000, ObjectKind::BigTree, CollisionAction::Fall),
        spec_static_object(410_000, 110_000, ObjectKind::BigTree, CollisionAction::Fall),
        spec_static_object(290_000, 110_000, ObjectKind::BigTree, CollisionAction::Fall),
        spec_static_object(330_000, 110_000, ObjectKind::BigTree, CollisionAction::Fall),
        spec_static_object(370_000, 110_000, ObjectKind::BigTree, CollisionAction::Fall),
        spec_static_object(270_000, 120_000, ObjectKind::BigTree, CollisionAction::Fall),
        spec_static_object(310_000, 120_000, ObjectKind::BigTree, CollisionAction::Fall),
        spec_static_object(350_000, 120_000, ObjectKind::BigTree, CollisionAction::Fall),
        spec_static_object(390_000, 120_000, ObjectKind::BigTree, CollisionAction::Fall),
        spec_static_object(230_000, 150_000, ObjectKind::XTree1, CollisionAction::Fall),
        spec_static_object(410_000, 150_000, ObjectKind::XTree1, CollisionAction::Fall),
        spec_static_object(250_000, 150_000, ObjectKind::SlalomSign, CollisionAction::Fall),
        spec_static_object(324_000, 150_000, ObjectKind::FreestyleSign, CollisionAction::Fall),
        spec_static_object(398_000, 150_000, ObjectKind::TreeSlalomSign, CollisionAction::Fall),
    ]
}

/// The chair car of the `k`-th lift tower, riding down the slope.
pub open spec fn spec_lift_chair(k: int) -> Object {
    Object {
        position: Vec2 {
            x: (LIFT_X_POS - 18_000) as i64,
            y: (LIFT_Y_START + k * LIFT_Y_SPACING + 100_000) as i64,
        },
        kind: ObjectKind::Chairlift,
        collision_action: CollisionAction::Nothing,
        movement: MotionRule::Descend(200),
    }
}

/// The occupied chair of the `k`-th lift tower, riding up the slope.
pub open spec fn spec_lift_riders(k: int) -> Object {
    Object {
        position: Vec2 {
            x: (LIFT_X_POS + 18_000) as i64,
            y: (LIFT_Y_START + k * LIFT_Y_SPACING + 400_000) as i64,
        },
        kind: ObjectKind::Lifters,
        collision_action: CollisionAction::Nothing,
        movement: MotionRule::Ascend(200),
    }
}

/// The `k`-th immovable lift tower.
pub open spec fn spec_lift_tower(k: int) -> Object {
    Object {
        position: Vec2 { x: LIFT_X_POS, y: (LIFT_Y_START + k * LIFT_Y_SPACING) as i64 },
        kind: ObjectKind::Lift,
        collision_action: CollisionAction::Fall,
        movement: MotionRule::Still,
    }
}

/// The ski lift structures of the first `n` towers: for each tower, one
/// descending chair, one ascending occupied chair, and the tower itself.
pub open spec fn spec_ski_lift(n: int) -> Seq<Object>
    decreases n,
{
    if n <= 0 {
        Seq::empty()
    } else {
        spec_ski_lift(n - 1) + seq![
            spec_lift_chair(n - 1),
            spec_lift_riders(n - 1),
            spec_lift_tower(n - 1),
        ]
    }
}

/// Number of lift towers: one every `LIFT_Y_SPACING` from `LIFT_Y_START` to
/// the bottom of the course.
pub const LIFT_TOWER_COUNT: i64 = 50;

pub proof fn lemma_ski_lift_len(n: int)
    requires
        n >= 0,
    ensures
        spec_ski_lift(n).len() == 3 * n,
    decreases n,
{
    if n > 0 {
        lemma_ski_lift_len(n - 1);
    }
}

/// Every lift structure is well formed and rests near the lift line.
pub proof fn lemma_ski_lift_wf(n: int)
    requires
        0 <= n <= LIFT_TOWER_COUNT,
    ensures
        forall|i: int| 0 <= i < spec_ski_lift(n).len() ==> (#[trigger] spec_ski_lift(n)[i]).wf(),
    decreases n,
{
    lemma_ski_lift_len(n);
    if n > 0 {
        lemma_ski_lift_wf(n - 1);
        lemma_ski_lift_len(n - 1);
        assert forall|i: int| 0 <= i < spec_ski_lift(n).len() implies (#[trigger] spec_ski_lift(
            n,
        )[i]).wf() by {
            if i < 3 * (n - 1) {
                assert(spec_ski_lift(n)[i] == spec_ski_lift(n - 1)[i]);
            }
        }
    }
}

/// The two decorative lift cables, spanning the whole course height.
pub open spec fn spec_lift_lines() -> Seq<LineObject> {
    seq![
        LineObject {
            start: Vec2 { x: LIFT_X_POS, y: 0 },
            end: Vec2 { x: LIFT_X_POS, y: MAP_HEIGHT },
            width: 1000,
            color: Color { r: 900, g: 900, b: 900 },
        },
        LineObject {
            start: Vec2 { x: (LIFT_X_POS + 25_000) as i64, y: 0 },
            end: Vec2 { x: (LIFT_X_POS + 25_000) as i64, y: MAP_HEIGHT },
            width: 1000,
            color: Color { r: 900, g: 900, b: 900 },
        },
    ]
}

/// Whether a position sits on the generation grid of the band between
/// `x_start` and `x_end`.
pub open spec fn on_course_grid(pos: Vec2, x_start: i64, x_end: i64) -> bool {
    &&& x_start <= pos.x < x_end
    &&& (pos.x - x_start) % (GRID_X_SPACING as int) == 0
    &&& COURSE_Y_START <= pos.y < MAP_HEIGHT
    &&& (pos.y - COURSE_Y_START) % (GRID_Y_SPACING as int) == 0
}

/// The weighted object table of the slalom band: sparse, low risk, mostly
/// small jumps with occasional fall hazards.
pub open spec fn spec_slalom_pick(choice: u32) -> (ObjectKind, CollisionAction) {
    if choice == 0 {
        (ObjectKind::BumpL, CollisionAction::JumpSmall)
    } else if choice == 1 {
        (ObjectKind::BumpS, CollisionAction::JumpSmall)
    } else if choice == 2 {
        (ObjectKind::Mogul, CollisionAction::JumpSmall)
    } else if choice == 3 {
        (ObjectKind::Rock, CollisionAction::Fall)
    } else {
        (ObjectKind::Tree1, CollisionAction::Fall)
    }
}

/// The weighted object table of the freestyle band: denser, with large-jump
/// ramps.
pub open spec fn spec_freestyle_pick(choice: u32) -> (ObjectKind, CollisionAction) {
    if choice <= 2 {
        (ObjectKind::BumpL, CollisionAction::JumpSmall)
    } else if choice <= 5 {
        (ObjectKind::BumpS, CollisionAction::JumpSmall)
    } else if choice <= 8 {
        (ObjectKind::Ramp, CollisionAction::JumpLarge)
    } else if choice == 9 {
        (ObjectKind::Rock, CollisionAction::Fall)
    } else if choice == 10 {
        (ObjectKind::Tree1, CollisionAction::Fall)
    } else if choice == 11 {
        (ObjectKind::Stump, CollisionAction::Fall)
    } else if choice == 12 {
        (ObjectKind::XTree1, CollisionAction::Fall)
    } else {
        (ObjectKind::XTree2, CollisionAction::Fall)
    }
}

/// The weighted object table of the tree-slalom band: dense, almost entirely
/// fall hazards, with one harmless decorative mushroom.
pub open spec fn spec_tree_slalom_pick(choice: u32) -> (ObjectKind, CollisionAction) {
    if choice <= 4 {
        (ObjectKind::BigTree, CollisionAction::Fall)
    } else if choice == 5 {
        (ObjectKind::Tree1, CollisionAction::Fall)
    } else if choice == 6 {
        (ObjectKind::Tree2, CollisionAction::Fall)
    } else if choice == 7 {
        (ObjectKind::Tree3, CollisionAction::Fall)
    } else if choice == 8 {
        (ObjectKind::Tree4, CollisionAction::Fall)
    } else if choice == 9 {
        (ObjectKind::XTree1, CollisionAction::Fall)
    } else if choice == 10 {
        (ObjectKind::XTree2, CollisionAction::Fall)
    } else if choice == 11 {
        (ObjectKind::XTree3, CollisionAction::Fall)
    } else if choice == 12 {
        (ObjectKind::Stump, CollisionAction::Fall)
    } else if choice == 13 {
        (ObjectKind::Mushroom, CollisionAction::Nothing)
    } else {
        (ObjectKind::Rock, CollisionAction::Fall)
    }
}

/// A static object on the slalom band's grid, drawn from its table.
pub open spec fn slalom_ok(o: Object) -> bool {
    &&& on_course_grid(o.position, SLALOM_X_START, FREESTYLE_X_START)
    &&& o.movement == MotionRule::Still
    &&& exists|c: u32| c < 5 && (o.kind, o.collision_action) == spec_slalom_pick(c)
}

/// A static object on the freestyle band's grid, drawn from its table.
pub open spec fn freestyle_ok(o: Object) -> bool {
    &&& on_course_grid(o.position, FREESTYLE_X_START, TREE_SLALOM_X_START)
    &&& o.movement == MotionRule::Still
    &&& exists|c: u32| c < 14 && (o.kind, o.collision_action) == spec_freestyle_pick(c)
}

/// A static object on the tree-slalom band's grid, drawn from its table.
pub open spec fn tree_slalom_ok(o: Object) -> bool {
    &&& on_course_grid(o.position, TREE_SLALOM_X_START, MAP_WIDTH)
    &&& o.movement == MotionRule::Still
    &&& exists|c: u32| c < 15 && (o.kind, o.collision_action) == spec_tree_slalom_pick(c)
}

/// How `Map::new` lays its objects out: the fixed start area, then the three
/// generated bands (each sound for its own table and grid), then the ski
/// lift.
pub open spec fn spec_generated_split(objs: Seq<Object>, a: int, b: int, c: int) -> bool {
    &&& 14 <= a <= b <= c
    &&& c + 3 * LIFT_TOWER_COUNT == objs.len()
    &&& objs.subrange(0, 14) == spec_starting_objects()
    &&& forall|i: int| 14 <= i < a ==> slalom_ok(#[trigger] objs[i])
    &&& forall|i: int| a <= i < b ==> freestyle_ok(#[trigger] objs[i])
    &&& forall|i: int| b <= i < c ==> tree_slalom_ok(#[trigger] objs[i])
    &&& objs.subrange(c, objs.len() as int) == spec_ski_lift(LIFT_TOWER_COUNT as int)
}

/// The world: terrain objects, decorative line markers, the generator that
/// placed the course, and the accumulated vertical distance travelled, in
/// milliunits.
pub struct World {
    pub objects: Vec<Object>,
    pub lines: Vec<LineObject>,
    pub rng: StdRng,
    pub y_distance: i64,
}

/// The fixed start area.
fn starting_objects() -> (v: Vec<Object>)
    ensures
        v@ == spec_starting_objects(),
{
    let mut v: Vec<Object> = Vec::new();
    v.push(Object::immovable(Vec2 { x: 250_000, y: 110_000 }, ObjectKind::BigTree, CollisionAction::Fall));
    v.push(Object::immovable(Vec2 { x: 410_000, y: 110_000 }, ObjectKind::BigTree, CollisionAction::Fall));
    v.push(Object::immovable(Vec2 { x: 290_000, y: 110_000 }, ObjectKind::BigTree, CollisionAction::Fall));
    v.push(Object::immovable(Vec2 { x: 330_000, y: 110_000 }, ObjectKind::BigTree, CollisionAction::Fall));
    v.push(Object::immovable(Vec2 { x: 370_000, y: 110_000 }, ObjectKind::BigTree, CollisionAction::Fall));
    v.push(Object::immovable(Vec2 { x: 270_000, y: 120_000 }, ObjectKind::BigTree, CollisionAction::Fall));
    v.push(Object::immovable(Vec2 { x: 310_000, y: 120_000 }, ObjectKind::BigTree, CollisionAction::Fall));
    v.push(Object::immovable(Vec2 { x: 350_000, y: 120_000 }, ObjectKind::BigTree, CollisionAction::Fall));
    v.push(Object::immovable(Vec2 { x: 390_000, y: 120_000 }, ObjectKind::BigTree, CollisionAction::Fall));
    v.push(Object::immovable(Vec2 { x: 230_000, y: 150_000 }, ObjectKind::XTree1, CollisionAction::Fall));
    v.push(Object::immovable(Vec2 { x: 410_000, y: 150_000 }, ObjectKind::XTree1, CollisionAction::Fall));
    v.push(Object::immovable(Vec2 { x: 250_000, y: 150_000 }, ObjectKind::SlalomSign, CollisionAction::Fall));
    v.push(Object::immovable(Vec2 { x: 324_000, y: 150_000 }, ObjectKind::FreestyleSign, CollisionAction::Fall));
    v.push(Object::immovable(Vec2 { x: 398_000, y: 150_000 }, ObjectKind::TreeSlalomSign, CollisionAction::Fall));
    proof {
        assert(v@ =~= spec_starting_objects());
    }
    v
}

/// The ski lift: towers every fixed vertical interval down the whole course,
/// each paired with a descending chair and an ascending occupied chair.
fn ski_lift() -> (v: Vec<Object>)
    ensures
        v@ == spec_ski_lift(LIFT_TOWER_COUNT as int),
{
    let mut v: Vec<Object> = Vec::new();
    let mut k: i64 = 0;
    while k < LIFT_TOWER_COUNT
        invariant
            0 <= k <= LIFT_TOWER_COUNT,
            v@ == spec_ski_lift(k as int),
        decreases LIFT_TOWER_COUNT - k,
    {
        let y: i64 = LIFT_Y_START + k * LIFT_Y_SPACING;
        v.push(Object::movable(
            Vec2 { x: LIFT_X_POS - 18_000, y: y + 100_000 },
            ObjectKind::Chairlift,
            CollisionAction::Nothing,
            MotionRule::Descend(200),
        ));
        v.push(Object::movable(
            Vec2 { x: LIFT_X_POS + 18_000, y: y + 400_000 },
            ObjectKind::Lifters,
            CollisionAction::Nothing,
            MotionRule::Ascend(200),
        ));
        v.push(Object::immovable(Vec2 { x: LIFT_X_POS, y }, ObjectKind::Lift, CollisionAction::Fall));
        proof {
            assert(v@ =~= spec_ski_lift(k + 1));
        }
        k = k + 1;
    }
    v
}

/// Generate the slalom band: one Bernoulli trial per grid cell at the band's
/// density, then a weighted draw from the band's table.
fn slalom_course(rng: &mut StdRng) -> (v: Vec<Object>)
    ensures
        forall|i: int| 0 <= i < v@.len() ==> slalom_ok(#[trigger] v@[i]),
{
    let mut v: Vec<Object> = Vec::new();
    let mut y: i64 = COURSE_Y_START;
    while y < MAP_HEIGHT
        invariant
            COURSE_Y_START <= y <= MAP_HEIGHT,
            (y - COURSE_Y_START) % (GRID_Y_SPACING as int) == 0,
            forall|i: int| 0 <= i < v@.len() ==> slalom_ok(#[trigger] v@[i]),
        decreases MAP_HEIGHT - y,
    {
        let mut x: i64 = SLALOM_X_START;
        while x < FREESTYLE_X_START
            invariant
                SLALOM_X_START <= x <= FREESTYLE_X_START,
                (x - SLALOM_X_START) % (GRID_X_SPACING as int) == 0,
                COURSE_Y_START <= y < MAP_HEIGHT,
                (y - COURSE_Y_START) % (GRID_Y_SPACING as int) == 0,
                forall|i: int| 0 <= i < v@.len() ==> slalom_ok(#[trigger] v@[i]),
            decreases FREESTYLE_X_START - x,
        {
            if gen_ratio(rng, 33, 100) {
                let choice: u32 = gen_range(rng, 0, 5);
                let (kind, action) = if choice == 0 {
                    (ObjectKind::BumpL, CollisionAction::JumpSmall)
                } else if choice == 1 {
                    (ObjectKind::BumpS, CollisionAction::JumpSmall)
                } else if choice == 2 {
                    (ObjectKind::Mogul, CollisionAction::JumpSmall)
                } else if choice == 3 {
                    (ObjectKind::Rock, CollisionAction::Fall)
                } else {
                    (ObjectKind::Tree1, CollisionAction::Fall)
                };
                let o = Object::immovable(Vec2 { x, y }, kind, action);
                proof {
                    assert((o.kind, o.collision_action) == spec_slalom_pick(choice));
                    assert(slalom_ok(o));
                }
                v.push(o);
            }
            x = x + GRID_X_SPACING;
        }
        y = y + GRID_Y_SPACING;
    }
    v
}

/// Generate the freestyle band, as `slalom_course` does, from its own table
/// and density.
fn freestyle_course(rng: &mut StdRng) -> (v: Vec<Object>)
    ensures
        forall|i: int| 0 <= i < v@.len() ==> freestyle_ok(#[trigger] v@[i]),
{
    let mut v: Vec<Object> = Vec::new();
    let mut y: i64 = COURSE_Y_START;
    while y < MAP_HEIGHT
        invariant
            COURSE_Y_START <= y <= MAP_HEIGHT,
            (y - COURSE_Y_START) % (GRID_Y_SPACING as int) == 0,
            forall|i: int| 0 <= i < v@.len() ==> freestyle_ok(#[trigger] v@[i]),
        decreases MAP_HEIGHT - y,
    {
        let mut x: i64 = FREESTYLE_X_START;
        while x < TREE_SLALOM_X_START
            invariant
                FREESTYLE_X_START <= x <= TREE_SLALOM_X_START,
                (x - FREESTYLE_X_START) % (GRID_X_SPACING as int) == 0,
                COURSE_Y_START <= y < MAP_HEIGHT,
                (y - COURSE_Y_START) % (GRID_Y_SPACING as int) == 0,
                forall|i: int| 0 <= i < v@.len() ==> freestyle_ok(#[trigger] v@[i]),
            decreases TREE_SLALOM_X_START - x,
        {
            if gen_ratio(rng, 30, 100) {
                let choice: u32 = gen_range(rng, 0, 14);
                let (kind, action) = if choice <= 2 {
                    (ObjectKind::BumpL, CollisionAction::JumpSmall)
                } else if choice <= 5 {
                    (ObjectKind::BumpS, CollisionAction::JumpSmall)
                } else if choice <= 8 {
                    (ObjectKind::Ramp, CollisionAction::JumpLarge)
                } else if choice == 9 {
                    (ObjectKind::Rock, CollisionAction::Fall)
                } else if choice == 10 {
                    (ObjectKind::Tree1, CollisionAction::Fall)
                } else if choice == 11 {
                    (ObjectKind::Stump, CollisionAction::Fall)
                } else if choice == 12 {
                    (ObjectKind::XTree1, CollisionAction::Fall)
                } else {
                    (ObjectKind::XTree2, CollisionAction::Fall)
                };
                let o = Object::immovable(Vec2 { x, y }, kind, action);
                proof {
                    assert((o.kind, o.collision_action) == spec_freestyle_pick(choice));
                    assert(freestyle_ok(o));
                }
                v.push(o);
            }
            x = x + GRID_X_SPACING;
        }
        y = y + GRID_Y_SPACING;
    }
    v
}

/// Generate the tree-slalom band, as `slalom_course` does, from its own
/// table and density.
fn tree_slalom_course(rng: &mut StdRng) -> (v: Vec<Object>)
    ensures
        forall|i: int| 0 <= i < v@.len() ==> tree_slalom_ok(#[trigger] v@[i]),
{
    let mut v: Vec<Object> = Vec::new();
    let mut y: i64 = COURSE_Y_START;
    while y < MAP_HEIGHT
        invariant
            COURSE_Y_START <= y <= MAP_HEIGHT,
            (y - COURSE_Y_START) % (GRID_Y_SPACING as int) == 0,
            forall|i: int| 0 <= i < v@.len() ==> tree_slalom_ok(#[trigger] v@[i]),
        decreases MAP_HEIGHT - y,
    {
        let mut x: i64 = TREE_SLALOM_X_START;
        while x < MAP_WIDTH
            invariant
                TREE_SLALOM_X_START <= x <= MAP_WIDTH + GRID_X_SPACING,
                (x - TREE_SLALOM_X_START) % (GRID_X_SPACING as int) == 0,
                COURSE_Y_START <= y < MAP_HEIGHT,
                (y - COURSE_Y_START) % (GRID_Y_SPACING as int) == 0,
                forall|i: int| 0 <= i < v@.len() ==> tree_slalom_ok(#[trigger] v@[i]),
            decreases MAP_WIDTH + GRID_X_SPACING - x,
        {
            if gen_ratio(rng, 30, 100) {
                let choice: u32 = gen_range(rng, 0, 15);
                let (kind, action) = if choice <= 4 {
                    (ObjectKind::BigTree, CollisionAction::Fall)
                } else if choice == 5 {
                    (ObjectKind::Tree1, CollisionAction::Fall)
                } else if choice == 6 {
                    (ObjectKind::Tree2, CollisionAction::Fall)
                } else if choice == 7 {
                    (ObjectKind::Tree3, CollisionAction::Fall)
                } else if choice == 8 {
                    (ObjectKind::Tree4, CollisionAction::Fall)
                } else if choice == 9 {
                    (ObjectKind::XTree1, CollisionAction::Fall)
                } else if choice == 10 {
                    (ObjectKind::XTree2, CollisionAction::Fall)
                } else if choice == 11 {
                    (ObjectKind::XTree3, CollisionAction::Fall)
                } else if choice == 12 {
                    (ObjectKind::Stump, CollisionAction::Fall)
                } else if choice == 13 {
                    (ObjectKind::Mushroom, CollisionAction::Nothing)
                } else {
                    (ObjectKind::Rock, CollisionAction::Fall)
                };
                let o = Object::immovable(Vec2 { x, y }, kind, action);
                proof {
                    assert((o.kind, o.collision_action) == spec_tree_slalom_pick(choice));
                    assert(tree_slalom_ok(o));
                }
                v.push(o);
            }
            x = x + GRID_X_SPACING;
        }
        y = y + GRID_Y_SPACING;
    }
    v
}

impl World {
    /// Well formed: every object and line rests within bounds and the
    /// distance accumulator is sane.
    pub open spec fn wf(&self) -> bool {
        &&& forall|i: int| 0 <= i < self.objects@.len() ==> (#[trigger] self.objects@[i]).wf()
        &&& forall|i: int| 0 <= i < self.lines@.len() ==> (#[trigger] self.lines@[i]).wf()
        &&& -POS_LIMIT <= self.y_distance <= POS_LIMIT
    }

    /// Build a world from a seed: the fixed start area, the three generated
    /// course bands, the ski lift, and the two lift cables.
    pub fn new(seed: u64) -> (m: World)
        ensures
            m.y_distance == 0,
            m.lines@ == spec_lift_lines(),
            m.wf(),
            exists|a: int, b: int, c: int| spec_generated_split(m.objects@, a, b, c),
    {
        let mut rng = rng_from_seed(seed);
        let mut objects = starting_objects();
        let mut slalom = slalom_course(&mut rng);
        let ghost slalom_seq = slalom@;
        objects.append(&mut slalom);
        let mut freestyle = freestyle_course(&mut rng);
        let ghost freestyle_seq = freestyle@;
        objects.append(&mut freestyle);
        let mut tree_slalom = tree_slalom_course(&mut rng);
        let ghost tree_slalom_seq = tree_slalom@;
        objects.append(&mut tree_slalom);
        let mut lift = ski_lift();
        objects.append(&mut lift);

        let mut lines: Vec<LineObject> = Vec::new();
        lines.push(LineObject::new(
            Vec2 { x: LIFT_X_POS, y: 0 },
            Vec2 { x: LIFT_X_POS, y: MAP_HEIGHT },
            1000,
            Color { r: 900, g: 900, b: 900 },
        ));
        lines.push(LineObject::new(
            Vec2 { x: LIFT_X_POS + 25_000, y: 0 },
            Vec2 { x: LIFT_X_POS + 25_000, y: MAP_HEIGHT },
            1000,
            Color { r: 900, g: 900, b: 900 },
        ));

        let m = World { objects, lines, rng, y_distance: 0 };
        proof {
            assert(m.lines@ =~= spec_lift_lines());
            let sl = slalom_seq.len() as int;
            let fl = freestyle_seq.len() as int;
            let tl = tree_slalom_seq.len() as int;
            let a = 14 + sl;
            let b = a + fl;
            let c = b + tl;
            lemma_ski_lift_len(LIFT_TOWER_COUNT as int);
            assert(m.objects@.subrange(0, 14) =~= spec_starting_objects());
            assert(m.objects@.subrange(c, m.objects@.len() as int) =~= spec_ski_lift(
                LIFT_TOWER_COUNT as int,
            ));
            assert forall|i: int| 14 <= i < a implies slalom_ok(#[trigger] m.objects@[i]) by {
                assert(m.objects@[i] == slalom_seq[i - 14]);
            }
            assert forall|i: int| a <= i < b implies freestyle_ok(#[trigger] m.objects@[i]) by {
                assert(m.objects@[i] == freestyle_seq[i - a]);
            }
            assert forall|i: int| b <= i < c implies tree_slalom_ok(#[trigger] m.objects@[i]) by {
                assert(m.objects@[i] == tree_slalom_seq[i - b]);
            }
            assert(spec_generated_split(m.objects@, a, b, c));
            lemma_ski_lift_wf(LIFT_TOWER_COUNT as int);
            assert forall|i: int| 0 <= i < m.objects@.len() implies (
            #[trigger] m.objects@[i]).wf() by {
                if i < 14 {
                    assert(m.objects@[i] == spec_starting_objects()[i]);
                } else if i < a {
                    assert(slalom_ok(m.objects@[i]));
                } else if i < b {
                    assert(freestyle_ok(m.objects@[i]));
                } else if i < c {
                    assert(tree_slalom_ok(m.objects@[i]));
                } else {
                    assert(m.objects@[i] == spec_ski_lift(LIFT_TOWER_COUNT as int)[i - c]);
                }
            }
        }
        m
    }

    /// Runtime well-formedness test, for callers outside the verified core:
    /// a driver re-establishes the tick preconditions with it.
    pub fn wf_check(&self) -> (r: bool)
        ensures
            r == self.wf(),
    {
        let n = self.objects.len();
        let mut i: usize = 0;
        while i < n
            invariant
                0 <= i <= n,
                n == self.objects@.len(),
                forall|j: int| 0 <= j < i ==> (#[trigger] self.objects@[j]).wf(),
            decreases n - i,
        {
            if !self.objects[i].wf_check() {
                return false;
            }
            i = i + 1;
        }
        let ln = self.lines.len();
        let mut j: usize = 0;
        while j < ln
            invariant
                0 <= j <= ln,
                ln == self.lines@.len(),
                forall|k: int| 0 <= k < self.objects@.len() ==> (#[trigger] self.objects@[k]).wf(),
                forall|k: int| 0 <= k < j ==> (#[trigger] self.lines@[k]).wf(),
            decreases ln - j,
        {
            if !self.lines[j].wf_check() {
                return false;
            }
            j = j + 1;
        }
        -POS_LIMIT <= self.y_distance && self.y_distance <= POS_LIMIT
    }

    /// The accumulated vertical distance travelled, in milliunits.
    pub fn y_distance(&self) -> (d: i64)
        ensures
            d == self.y_distance,
    {
        self.y_distance
    }
}

/// An object with its collision behavior consumed: contact cannot retrigger.
pub open spec fn spec_consumed(o: Object) -> Object {
    Object { collision_action: CollisionAction::Nothing, ..o }
}

/// The first object at or after `from` whose hitbox overlaps `pbox`, in
/// iteration order: the documented, reproducible tie-break of collision
/// queries.
pub open spec fn spec_first_hit(objs: Seq<Object>, pbox: Rect, from: int) -> Option<int>
    decreases objs.len() - from,
{
    if from < 0 || from >= objs.len() {
        None
    } else if spec_overlaps(objs[from].spec_hitbox(), pbox) {
        Some(from)
    } else {
        spec_first_hit(objs, pbox, from + 1)
    }
}

/// A first hit lies between `from` and the end, its hitbox overlaps, and no
/// earlier object at or after `from` overlaps.
pub proof fn lemma_first_hit_props(objs: Seq<Object>, pbox: Rect, from: int)
    ensures
        spec_first_hit(objs, pbox, from) matches Some(i) ==> from <= i < objs.len()
            && spec_overlaps(objs[i].spec_hitbox(), pbox) && (forall|j: int|
            from <= j < i ==> !spec_overlaps((#[trigger] objs[j]).spec_hitbox(), pbox)),
    decreases objs.len() - from,
{
    if 0 <= from < objs.len() {
        lemma_first_hit_props(objs, pbox, from + 1);
    }
}

/// Two object sequences with the same hitboxes are first-hit at the same
/// index.
pub proof fn lemma_first_hit_same_boxes(a: Seq<Object>, b: Seq<Object>, pbox: Rect, from: int)
    requires
        a.len() == b.len(),
        forall|i: int| 0 <= i < a.len() ==> (#[trigger] a[i]).spec_hitbox() == b[i].spec_hitbox(),
    ensures
        spec_first_hit(a, pbox, from) == spec_first_hit(b, pbox, from),
    decreases a.len() - from,
{
    if 0 <= from < a.len() {
        lemma_first_hit_same_boxes(a, b, pbox, from + 1);
    }
}

/// Collision consumption: once a query has returned the behavior of the
/// object at index `i`, an immediate second query (with no update in
/// between) picks the same object again and finds its behavior already
/// consumed — the behavior it carried is never handed out twice.
pub proof fn lemma_collision_consumed(objs: Seq<Object>, pbox: Rect, i: int)
    requires
        spec_first_hit(objs, pbox, 0) == Some(i),
    ensures
        0 <= i < objs.len(),
        objs.update(i, spec_consumed(objs[i]))[i].collision_action == CollisionAction::Nothing,
        spec_first_hit(objs.update(i, spec_consumed(objs[i])), pbox, 0) == Some(i),
{
    lemma_first_hit_props(objs, pbox, 0);
    let objs2 = objs.update(i, spec_consumed(objs[i]));
    assert forall|j: int| 0 <= j < objs.len() implies (#[trigger] objs[j]).spec_hitbox()
        == objs2[j].spec_hitbox() by {}
    lemma_first_hit_same_boxes(objs, objs2, pbox, 0);
}

/// The player movement a tick applies to the world: the heading opposite to
/// the player's, scaled by the player's speed; nothing while standing still.
pub open spec fn spec_player_movement(p: Player) -> Option<(Angle, i64)> {
    match crate::player::spec_opposite_direction(p.state) {
        Some(a) => Some((a, p.speed)),
        None => None,
    }
}

/// One tick's effect on one retained object: the scroll shift, if the player
/// moves, then the object's own autonomous motion.
pub open spec fn spec_tick_object(o: Object, pm: Option<(Angle, i64)>) -> Object {
    let moved = match pm {
        Some(d) => spec_shift_object(o, d.0, d.1),
        None => o,
    };
    moved.spec_apply_movement()
}

/// One tick's effect on the whole collection: objects already past the
/// eviction threshold are dropped; every other object is shifted and moved,
/// keeping the order.
pub open spec fn spec_update_objects(objs: Seq<Object>, pm: Option<(Angle, i64)>) -> Seq<Object>
    decreases objs.len(),
{
    if objs.len() == 0 {
        Seq::empty()
    } else {
        let rest = spec_update_objects(objs.drop_last(), pm);
        if objs.last().position.y < EVICT_Y {
            rest
        } else {
            rest + seq![spec_tick_object(objs.last(), pm)]
        }
    }
}

/// One tick's effect on a line marker: the scroll shift, never eviction.
pub open spec fn spec_update_line(l: LineObject, pm: Option<(Angle, i64)>) -> LineObject {
    match pm {
        Some(d) => spec_shift_line(l, d.0, d.1),
        None => l,
    }
}

/// The vertical distance one tick adds: the vertical component of the
/// player's heading vector, while the player is moving.
pub open spec fn spec_y_gain(s: crate::player::PlayerState) -> int {
    match crate::player::spec_direction(s) {
        Some(a) => spec_vec2_from_angle(a).y as int,
        None => 0,
    }
}

/// Bounds that every object satisfies right after a tick: still inside the
/// course band horizontally, and vertically within one tick's travel of the
/// resting bound.
pub open spec fn tick_bounded(o: Object) -> bool {
    &&& MAP_X_START <= o.position.x <= MAP_WIDTH
    &&& -POS_LIMIT - 2_000_000 <= o.position.y <= POS_LIMIT + 2_000_000
    &&& objects::wf_motion(o.movement)
}

/// A tick keeps a well-formed object within the tick bounds.
pub proof fn lemma_tick_object_bounds(o: Object, pm: Option<(Angle, i64)>)
    requires
        o.wf(),
        pm matches Some(d) ==> 0 <= d.1 <= crate::player::SPEED_LIMIT,
    ensures
        tick_bounded(spec_tick_object(o, pm)),
{
    if let Some(d) = pm {
        let v = spec_vec2_from_angle(d.0);
        assert(-1000 <= v.x <= 1000 && -1000 <= v.y <= 1000);
        assert(-1_000_000 <= v.x * d.1 <= 1_000_000) by (nonlinear_arith)
            requires
                -1000 <= v.x <= 1000,
                0 <= d.1 <= 1000,
        ;
        assert(-1_000_000 <= v.y * d.1 <= 1_000_000) by (nonlinear_arith)
            requires
                -1000 <= v.y <= 1000,
                0 <= d.1 <= 1000,
        ;
    }
}

/// Eviction: everything in the updated collection stems from an object that
/// had not crossed the eviction threshold; an object past the threshold is
/// absent after the update.
pub proof fn lemma_update_evicts(objs: Seq<Object>, pm: Option<(Angle, i64)>)
    ensures
        forall|j: int| 0 <= j < spec_update_objects(objs, pm).len() ==> exists|i: int|
            0 <= i < objs.len() && objs[i].position.y >= EVICT_Y && #[trigger] spec_update_objects(
                objs,
                pm,
            )[j] == spec_tick_object(objs[i], pm),
    decreases objs.len(),
{
    if objs.len() > 0 {
        let prefix = objs.drop_last();
        lemma_update_evicts(prefix, pm);
        let rest = spec_update_objects(prefix, pm);
        let whole = spec_update_objects(objs, pm);
        assert forall|j: int| 0 <= j < whole.len() implies exists|i: int|
            0 <= i < objs.len() && objs[i].position.y >= EVICT_Y && #[trigger] whole[j]
                == spec_tick_object(objs[i], pm) by {
            if j < rest.len() {
                let i = choose|i: int|
                    0 <= i < prefix.len() && prefix[i].position.y >= EVICT_Y && #[trigger] rest[j]
                        == spec_tick_object(prefix[i], pm);
                assert(objs[i] == prefix[i]);
                assert(whole[j] == rest[j]);
                assert(whole[j] == spec_tick_object(objs[i], pm));
            } else {
                let i = objs.len() - 1;
                assert(whole[j] == spec_tick_object(objs[i], pm));
                assert(objs[i].position.y >= EVICT_Y);
            }
        }
    }
}

/// Whether an object lies within the inflated visible rectangle.
pub open spec fn spec_visible(o: Object) -> bool {
    &&& -DRAW_MARGIN <= o.position.x <= WINDOW_WIDTH + DRAW_MARGIN
    &&& -DRAW_MARGIN <= o.position.y <= WINDOW_HEIGHT + DRAW_MARGIN
}

/// The objects within the inflated visible rectangle, in order.
pub open spec fn spec_draw_candidates(objs: Seq<Object>) -> Seq<Object>
    decreases objs.len(),
{
    if objs.len() == 0 {
        Seq::empty()
    } else {
        let rest = spec_draw_candidates(objs.drop_last());
        if spec_visible(objs.last()) {
            rest + seq![objs.last()]
        } else {
            rest
        }
    }
}

impl World {
    /// Scan the objects for a hitbox overlap with the player, in iteration
    /// order. The first match is returned and consumed: its behavior is
    /// reset to `Nothing` on the object, so it cannot retrigger.
    pub fn check_collision(&mut self, player: &Player) -> (r: Option<CollisionAction>)
        requires
            old(self).wf(),
        ensures
            final(self).lines == old(self).lines,
            final(self).y_distance == old(self).y_distance,
            final(self).rng == old(self).rng,
            final(self).wf(),
            match spec_first_hit(old(self).objects@, player.spec_hitbox(), 0) {
                Some(i) => r == Some(old(self).objects@[i].collision_action)
                    && final(self).objects@ == old(self).objects@.update(
                    i,
                    spec_consumed(old(self).objects@[i]),
                ),
                None => r == None::<CollisionAction> && final(self).objects@ == old(self).objects@,
            },
    {
        let pbox = player.hitbox();
        let n = self.objects.len();
        let mut idx: usize = 0;
        while idx < n
            invariant
                0 <= idx <= n,
                n == self.objects@.len(),
                *self == *old(self),
                old(self).wf(),
                pbox == player.spec_hitbox(),
                spec_first_hit(self.objects@, pbox, 0) == spec_first_hit(
                    self.objects@,
                    pbox,
                    idx as int,
                ),
            decreases n - idx,
        {
            let hb = self.objects[idx].hitbox();
            if hb.overlaps(&pbox) {
                let action = self.objects[idx].collision_action;
                let mut o = self.objects[idx];
                o.collision_action = CollisionAction::Nothing;
                self.objects.set(idx, o);
                proof {
                    assert(spec_first_hit(old(self).objects@, pbox, idx as int) == Some(
                        idx as int,
                    ));
                    assert forall|i: int| 0 <= i < self.objects@.len() implies (
                    #[trigger] self.objects@[i]).wf() by {
                        assert(old(self).objects@[i].wf());
                    }
                }
                return Some(action);
            }
            idx = idx + 1;
        }
        None
    }

    /// Advance the world by one tick relative to the player: evict objects
    /// that have scrolled past the threshold behind the player, shift every
    /// retained object opposite to the player's heading scaled by its speed,
    /// apply autonomous motion, shift the line markers identically, and
    /// accumulate the vertical component of the heading into the distance.
    pub fn update(&mut self, player: &Player)
        requires
            old(self).wf(),
            player.wf(),
        ensures
            final(self).objects@ == spec_update_objects(
                old(self).objects@,
                spec_player_movement(*player),
            ),
            final(self).lines@ == old(self).lines@.map_values(
                |l: LineObject| spec_update_line(l, spec_player_movement(*player)),
            ),
            final(self).y_distance == old(self).y_distance + spec_y_gain(player.state),
            final(self).rng == old(self).rng,
            forall|i: int| 0 <= i < final(self).objects@.len() ==> tick_bounded(
                #[trigger] final(self).objects@[i],
            ),
    {
        let pm: Option<(Angle, i64)> = match player.opposite_direction() {
            Some(d) => Some((d, player.speed())),
            None => None,
        };
        proof {
            assert(pm == spec_player_movement(*player));
        }
        let ghost objs0 = self.objects@;
        let n = self.objects.len();
        let mut kept: Vec<Object> = Vec::new();
        let mut i: usize = 0;
        while i < n
            invariant
                0 <= i <= n,
                n == objs0.len(),
                *self == *old(self),
                objs0 == old(self).objects@,
                old(self).wf(),
                player.wf(),
                pm == spec_player_movement(*player),
                kept@ == spec_update_objects(objs0.take(i as int), pm),
                forall|j: int| 0 <= j < kept@.len() ==> tick_bounded(#[trigger] kept@[j]),
            decreases n - i,
        {
            let o = self.objects[i];
            proof {
                assert(o.wf());
            }
            if o.position.y < EVICT_Y {
            } else {
                let mut moved = o;
                if let Some((d, mag)) = pm {
                    moved.shift(d, mag);
                    proof {
                        let v = spec_vec2_from_angle(d);
                        crate::util::lemma_unit_vec_bounds(crate::util::norm_steps(d.steps as int));
                        assert(-1_000_000 <= v.y * mag <= 1_000_000) by (nonlinear_arith)
                            requires
                                -1000 <= v.y <= 1000,
                                0 <= mag <= 1000,
                        ;
                    }
                }
                moved.apply_movement();
                proof {
                    assert(moved == spec_tick_object(o, pm));
                    lemma_tick_object_bounds(o, pm);
                }
                kept.push(moved);
            }
            proof {
                assert(objs0.take(i as int + 1).drop_last() =~= objs0.take(i as int));
                assert(objs0.take(i as int + 1).last() == objs0[i as int]);
            }
            i = i + 1;
        }
        proof {
            assert(objs0.take(n as int) =~= objs0);
        }
        self.objects = kept;

        let ghost lines0 = self.lines@;
        if let Some((d, mag)) = pm {
            let ln = self.lines.len();
            let mut j: usize = 0;
            while j < ln
                invariant
                    0 <= j <= ln,
                    ln == lines0.len(),
                    self.lines@.len() == lines0.len(),
                    forall|k: int| 0 <= k < lines0.len() ==> (#[trigger] lines0[k]).wf(),
                    pm == Some((d, mag)),
                    pm == spec_player_movement(*player),
                    player.wf(),
                    0 <= mag <= crate::player::SPEED_LIMIT,
                    forall|k: int| 0 <= k < j ==> self.lines@[k] == spec_update_line(
                        #[trigger] lines0[k],
                        pm,
                    ),
                    forall|k: int| j <= k < lines0.len() ==> self.lines@[k] == #[trigger] lines0[k],
                    self.objects@ == spec_update_objects(old(self).objects@, pm),
                    forall|k: int| 0 <= k < self.objects@.len() ==> tick_bounded(
                        #[trigger] self.objects@[k],
                    ),
                    self.y_distance == old(self).y_distance,
                    self.rng == old(self).rng,
                    old(self).wf(),
                decreases ln - j,
            {
                let mut l = self.lines[j];
                proof {
                    assert(l == lines0[j as int]);
                    assert(lines0[j as int].wf());
                }
                l.shift(d, mag);
                self.lines.set(j, l);
                j = j + 1;
            }
        }
        proof {
            assert(self.lines@ =~= lines0.map_values(|l: LineObject| spec_update_line(l, pm)));
        }

        if let Some(direction) = player.direction() {
            let v = crate::util::vec2_from_angle(direction);
            self.y_distance = self.y_distance + v.y;
        }
    }

    /// The objects within the visible rectangle inflated by a fixed margin,
    /// in order: the renderer draws exactly these.
    pub fn draw_candidates(&self) -> (v: Vec<Object>)
        ensures
            v@ == spec_draw_candidates(self.objects@),
    {
        let mut v: Vec<Object> = Vec::new();
        let n = self.objects.len();
        let mut i: usize = 0;
        while i < n
            invariant
                0 <= i <= n,
                n == self.objects@.len(),
                v@ == spec_draw_candidates(self.objects@.take(i as int)),
            decreases n - i,
        {
            let o = self.objects[i];
            if -DRAW_MARGIN <= o.position.x && o.position.x <= WINDOW_WIDTH + DRAW_MARGIN
                && -DRAW_MARGIN <= o.position.y && o.position.y <= WINDOW_HEIGHT + DRAW_MARGIN {
                v.push(o);
            }
            proof {
                assert(self.objects@.take(i as int + 1).drop_last() =~= self.objects@.take(
                    i as int,
                ));
                assert(self.objects@.take(i as int + 1).last() == self.objects@[i as int]);
            }
            i = i + 1;
        }
        proof {
            assert(self.objects@.take(n as int) =~= self.objects@);
        }
        v
    }
}

} // verus!
