//! The simulation loop: one fixed tick advances the world and the player
//! synchronously and atomically. A tick queries the world for a collision
//! against the player, feeds the behavior into the player, advances the
//! world relative to the player's derived motion, and advances the player's
//! internal timers. The external driver converts wall-clock time into a
//! whole number of such ticks; nothing here blocks or performs any input or
//! output.

use crate::map::objects::LineObject;
use crate::map::objects::Object;
use crate::map::spec_consumed;
use crate::map::spec_first_hit;
use crate::map::spec_player_movement;
use crate::map::spec_update_line;
use crate::map::spec_update_objects;
use crate::map::spec_y_gain;
use crate::map::World;
use crate::player::spec_collide;
use crate::player::spec_next_state;
use crate::player::wf_state;
use crate::player::Player;
use crate::util::Angle;
use vstd::prelude::*;

verus! {

/// The player after the collision phase of a tick: the behavior of the first
/// hit object, if any, applied to the player.
pub open spec fn spec_collided_player(w: World, p: Player) -> Player {
    match spec_first_hit(w.objects@, p.spec_hitbox(), 0) {
        Some(i) => Player { state: spec_collide(p.state, w.objects@[i].collision_action), ..p },
        None => p,
    }
}

/// The object collection after the collision phase of a tick: the first hit
/// object, if any, has its behavior consumed.
pub open spec fn spec_collided_objects(w: World, p: Player) -> Seq<Object> {
    match spec_first_hit(w.objects@, p.spec_hitbox(), 0) {
        Some(i) => w.objects@.update(i, spec_consumed(w.objects@[i])),
        None => w.objects@,
    }
}

/// The scroll movement a tick applies to the world: derived from the player
/// as it stands after the collision phase.
pub open spec fn spec_tick_movement(w: World, p: Player) -> Option<(Angle, i64)> {
    spec_player_movement(spec_collided_player(w, p))
}

/// Query the world for a collision against the player and feed the returned
/// behavior, if any, into the player.
pub fn handle_collisions(world: &mut World, player: &mut Player)
    requires
        old(world).wf(),
    ensures
        *final(player) == spec_collided_player(*old(world), *old(player)),
        final(world).objects@ == spec_collided_objects(*old(world), *old(player)),
        final(world).lines == old(world).lines,
        final(world).y_distance == old(world).y_distance,
        final(world).wf(),
        wf_state(old(player).state) ==> wf_state(final(player).state),
{
    if let Some(action) = world.check_collision(player) {
        player.collision(action);
    }
}

/// One simulation tick: handle collisions, advance the world relative to the
/// player's post-collision motion, then advance the player's timers.
pub fn tick(world: &mut World, player: &mut Player)
    requires
        old(world).wf(),
        old(player).wf(),
    ensures
        final(player).state == spec_next_state(
            spec_collided_player(*old(world), *old(player)).state,
        ),
        final(player).speed == old(player).speed,
        final(player).wf(),
        final(world).objects@ == spec_update_objects(
            spec_collided_objects(*old(world), *old(player)),
            spec_tick_movement(*old(world), *old(player)),
        ),
        final(world).lines@ == old(world).lines@.map_values(
            |l: LineObject| spec_update_line(l, spec_tick_movement(*old(world), *old(player))),
        ),
        final(world).y_distance == old(world).y_distance + spec_y_gain(
            spec_collided_player(*old(world), *old(player)).state,
        ),
{
    handle_collisions(world, player);
    world.update(player);
    player.maybe_next_state();
    proof {
        assert(world.lines@ =~= old(world).lines@.map_values(
            |l: LineObject| spec_update_line(l, spec_tick_movement(*old(world), *old(player))),
        ));
    }
}

} // verus!
