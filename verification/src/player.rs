//! The player system: for each player its surface, its aim, its look and its
//! movement; then the weapons; then the bullets that leave and join the world.

use vstd::prelude::*;
use crate::animation::{animation_step, update_animation};
use crate::fixed::{is_sqrt_floor, lemma_sqrt_floor, ONE};
use crate::orientation::{update_walk_state, walk_step};
use crate::vector::{scaled, square_distance, unit, Vector2};
use crate::weapon::{
    bullets, is_spent, kept, lemma_fired_bullets_stay, lemma_kept, lemma_spent_bullets_leave,
    spent, update_weapon, weapons_run,
};
use crate::world::{
    grown, valid, well_formed, Components, ComponentsView, ControlState, DynamicBody, Entity,
    PlayerControllerView, PlayerState, System, Time, WeaponView, WorldView,
};

verus! {

/// Whether the player system runs for `e`: it has a controller and a body.
pub open spec fn plays(e: Entity) -> bool {
    e.player_controller is Some && e.dynamic_body is Some
}

/// The sum of the unit vectors of the keys that are held: up is toward
/// negative y, left toward negative x.
pub open spec fn pressed(up: bool, down: bool, left: bool, right: bool) -> Vector2 {
    Vector2 {
        x: ((if right { 10_000int } else { 0 }) - (if left { 10_000int } else { 0 })) as i32,
        y: ((if down { 10_000int } else { 0 }) - (if up { 10_000int } else { 0 })) as i32,
    }
}

/// The unit vector along the keys that are held, if they do not cancel.
pub open spec fn direction(up: bool, down: bool, left: bool, right: bool) -> Option<Vector2> {
    let keys = pressed(up, down, left, right);
    if keys == (Vector2 { x: 0, y: 0 }) {
        None
    } else {
        Some(unit(keys))
    }
}

/// The unit vector along the keys that are held: a whole unit along one axis,
/// or 0.7071 along each of two.
pub proof fn lemma_direction(up: bool, down: bool, left: bool, right: bool)
    ensures
        direction(up, down, left, right) == ({
            let keys = pressed(up, down, left, right);
            if keys.x == 0 && keys.y == 0 {
                None
            } else if keys.x == 0 || keys.y == 0 {
                Some(keys)
            } else {
                Some(
                    Vector2 {
                        x: if keys.x > 0 { 7_071i32 } else { -7_071i32 },
                        y: if keys.y > 0 { 7_071i32 } else { -7_071i32 },
                    },
                )
            }
        }),
{
    let keys = pressed(up, down, left, right);
    let zero = Vector2 { x: 0, y: 0 };
    assert(is_sqrt_floor(0, 0)) by (nonlinear_arith);
    assert(is_sqrt_floor(100_000_000, 10_000)) by (nonlinear_arith);
    assert(is_sqrt_floor(50_000_000, 7_071)) by (nonlinear_arith);
    lemma_sqrt_floor(0, 0);
    lemma_sqrt_floor(100_000_000, 10_000);
    lemma_sqrt_floor(50_000_000, 7_071);
    let x = keys.x as int;
    let y = keys.y as int;
    assert(x == 0 || x == 10_000 || x == -10_000);
    assert(y == 0 || y == 10_000 || y == -10_000);
    assert(x * x == if x == 0 { 0int } else { 100_000_000int }) by (nonlinear_arith)
        requires
            x == 0 || x == 10_000 || x == -10_000,
    ;
    assert(y * y == if y == 0 { 0int } else { 100_000_000int }) by (nonlinear_arith)
        requires
            y == 0 || y == 10_000 || y == -10_000,
    ;
    assert(square_distance(keys, zero) == x * x + y * y);
    assert((ONE * ONE) * 0int / 100_000_000int == 0) by (nonlinear_arith)
        requires
            ONE == 10_000,
    ;
    assert((ONE * ONE) * 0int / 200_000_000int == 0) by (nonlinear_arith)
        requires
            ONE == 10_000,
    ;
    assert((ONE * ONE) * 100_000_000int / 100_000_000int == 100_000_000) by (nonlinear_arith)
        requires
            ONE == 10_000,
    ;
    assert((ONE * ONE) * 100_000_000int / 200_000_000int == 50_000_000) by (nonlinear_arith)
        requires
            ONE == 10_000,
    ;
}

/// Where the held aim keys point, if anywhere.
pub fn get_aim_direction(control_state: &ControlState) -> (r: Option<Vector2>)
    ensures
        r == direction(
            control_state.aim_up,
            control_state.aim_down,
            control_state.aim_left,
            control_state.aim_right,
        ),
{
    held_direction(
        control_state.aim_up,
        control_state.aim_down,
        control_state.aim_left,
        control_state.aim_right,
    )
}

/// The unit vector along the keys that are held, if they do not cancel.
fn held_direction(up: bool, down: bool, left: bool, right: bool) -> (r: Option<Vector2>)
    ensures
        r == direction(up, down, left, right),
{
    let mut keys = Vector2 { x: 0, y: 0 };
    if up {
        keys = keys.plus(Vector2 { x: 0, y: -ONE });
    }
    if down {
        keys = keys.plus(Vector2 { x: 0, y: ONE });
    }
    if left {
        keys = keys.plus(Vector2 { x: -ONE, y: 0 });
    }
    if right {
        keys = keys.plus(Vector2 { x: ONE, y: 0 });
    }
    if keys.x != 0 || keys.y != 0 {
        Some(keys.normalized())
    } else {
        None
    }
}

/// The world after the aim of the player `e` has been brought up to date:
/// where the aim keys point somewhere, the player aims there and its weapon,
/// if any, fires that way; where they do not, its weapon holds fire.
pub open spec fn aim_step(c: ComponentsView, control: ControlState, e: Entity) -> ComponentsView
    recommends
        plays(e),
{
    let player = c.player_controller[e.player_controller->0.index as int];
    match direction(control.aim_up, control.aim_down, control.aim_left, control.aim_right) {
        Some(aim) => ComponentsView {
            player_controller: c.player_controller.update(
                e.player_controller->0.index as int,
                PlayerControllerView { aim_direction: aim, ..player },
            ),
            weapon: match e.weapon {
                Some(id) => c.weapon.update(
                    id.index as int,
                    WeaponView { firing: true, fire_direction: aim, ..c.weapon[id.index as int] },
                ),
                None => c.weapon,
            },
            ..c
        },
        None => ComponentsView {
            weapon: match e.weapon {
                Some(id) => c.weapon.update(
                    id.index as int,
                    WeaponView { firing: false, ..c.weapon[id.index as int] },
                ),
                None => c.weapon,
            },
            ..c
        },
    }
}

/// Brings the aim of the player `player_entity`, and its weapon, up to date.
pub fn update_aim(player_entity: &Entity, control_state: &ControlState, components: &mut Components)
    requires
        plays(*player_entity),
        valid(old(components)@, *player_entity),
    ensures
        final(components)@ == aim_step(old(components)@, *control_state, *player_entity),
{
    if let Some(aim_direction) = get_aim_direction(control_state) {
        let player = components.player_controller.get_mut(
            player_entity.player_controller.unwrap(),
        );
        player.aim_direction = aim_direction;
        if let Some(weapon_id) = player_entity.weapon {
            let weapon = components.weapon.get_mut(weapon_id);
            weapon.firing = true;
            weapon.fire_direction = aim_direction;
        }
    } else {
        if let Some(weapon_id) = player_entity.weapon {
            let weapon = components.weapon.get_mut(weapon_id);
            weapon.firing = false;
        }
    }
}

/// The velocity that the held movement keys give a player of speed
/// `move_speed`.
pub open spec fn walking_velocity(control: ControlState, move_speed: i32) -> Vector2 {
    match direction(control.move_up, control.move_down, control.move_left, control.move_right) {
        Some(d) => scaled(d, move_speed as int),
        None => Vector2 { x: 0, y: 0 },
    }
}

/// The world after the movement keys have been applied to the player `e`: on
/// a surface its body has the velocity that the keys give; in flight its body
/// is left alone.
pub open spec fn control_step(c: ComponentsView, control: ControlState, e: Entity) -> ComponentsView
    recommends
        plays(e),
{
    let player = c.player_controller[e.player_controller->0.index as int];
    if player.state != PlayerState::Flying {
        let velocity = walking_velocity(control, player.move_speed);
        ComponentsView {
            dynamic_body: c.dynamic_body.update(
                e.dynamic_body->0.index as int,
                DynamicBody { vx: velocity.x, vy: velocity.y },
            ),
            ..c
        }
    } else {
        c
    }
}

/// Applies the movement keys to the player `player_entity`.
pub fn update_control(
    player_entity: &Entity,
    control_state: &ControlState,
    components: &mut Components,
)
    requires
        plays(*player_entity),
        valid(old(components)@, *player_entity),
    ensures
        final(components)@ == control_step(old(components)@, *control_state, *player_entity),
{
    let player = components.player_controller.get(player_entity.player_controller.unwrap());
    if player.state != PlayerState::Flying {
        let velocity = match held_direction(
            control_state.move_up,
            control_state.move_down,
            control_state.move_left,
            control_state.move_right,
        ) {
            Some(d) => d.scale(player.move_speed),
            None => Vector2 { x: 0, y: 0 },
        };
        let body = components.dynamic_body.get_mut(player_entity.dynamic_body.unwrap());
        body.vx = velocity.x;
        body.vy = velocity.y;
    }
}

/// The world after the player system has dealt with the player `e`: its
/// state, then its aim, then its animation, then its movement.
pub open spec fn player_step(
    c: ComponentsView,
    control: ControlState,
    e: Entity,
    entities: Seq<Entity>,
) -> ComponentsView
    recommends
        plays(e),
{
    control_step(animation_step(aim_step(walk_step(c, e, entities), control, e), e), control, e)
}

/// The world after the player system has dealt with the players among the
/// first `n` entities, in order.
pub open spec fn players_run(
    c: ComponentsView,
    control: ControlState,
    entities: Seq<Entity>,
    n: nat,
) -> ComponentsView
    decreases n,
{
    if n == 0 {
        c
    } else {
        let before = players_run(c, control, entities, (n - 1) as nat);
        if plays(entities[n - 1]) {
            player_step(before, control, entities[n - 1], entities)
        } else {
            before
        }
    }
}

/// The world after a frame of the player system: the players are dealt with
/// in order, then the weapons have their frame in order, then the spent
/// bullets leave the world, and last the bullets fired this frame join it,
/// the latest first.
pub open spec fn player_frame(w: WorldView, control: ControlState) -> WorldView {
    let n = w.entities.len();
    let played = players_run(w.data, control, w.entities, n);
    let data = weapons_run(played, w.entities, n);
    WorldView {
        data,
        entities: kept(data, w.entities, n) + bullets(played, w.entities, n).reverse(),
    }
}

/// After a frame of the player system no bullet that has hit something this
/// frame is left among the entities.
pub proof fn lemma_frame_drops_spent_bullets(w: WorldView, control: ControlState, x: Entity)
    requires
        player_frame(w, control).data.event_receiver.len() <= usize::MAX,
        player_frame(w, control).entities.contains(x),
    ensures
        !spent(player_frame(w, control).data, x),
{
    lemma_spent_bullets_leave(
        players_run(w.data, control, w.entities, w.entities.len()),
        w.entities,
        x,
    );
}

/// After a frame of the player system every bullet fired in that frame is
/// among the entities: none is taken out in the frame it was fired in.
pub proof fn lemma_frame_keeps_new_bullets(w: WorldView, control: ControlState, j: int)
    requires
        0 <= j < bullets(
            players_run(w.data, control, w.entities, w.entities.len()),
            w.entities,
            w.entities.len(),
        ).len(),
    ensures
        player_frame(w, control).entities.contains(
            bullets(
                players_run(w.data, control, w.entities, w.entities.len()),
                w.entities,
                w.entities.len(),
            )[j],
        ),
{
    lemma_fired_bullets_stay(
        players_run(w.data, control, w.entities, w.entities.len()),
        w.entities,
        j,
    );
}

/// A frame of the player system keeps every entity that is not a spent
/// bullet.
pub proof fn lemma_frame_keeps_the_rest(w: WorldView, control: ControlState, i: int)
    requires
        0 <= i < w.entities.len(),
        !spent(player_frame(w, control).data, w.entities[i]),
    ensures
        player_frame(w, control).entities.contains(w.entities[i]),
{
    let data = player_frame(w, control).data;
    let stay = kept(data, w.entities, w.entities.len());
    lemma_kept(data, w.entities, w.entities.len());
    let k = choose|k: int| 0 <= k < stay.len() && stay[k] == w.entities[i];
    assert(player_frame(w, control).entities[k] == stay[k]);
}

/// The system that runs the players, their weapons and their bullets.
pub struct PlayerSystem;

impl System for PlayerSystem {
    /// Deals with each player in order, then gives each weapon its frame in
    /// order, then takes the spent bullets out of the world, and last adds
    /// the bullets fired this frame, the latest first.
    fn update(
        &mut self,
        control_state: &ControlState,
        components: &mut Components,
        entities: &mut Vec<Entity>,
    )
        ensures
            (WorldView { data: final(components)@, entities: final(entities)@ }) == player_frame(
                WorldView { data: old(components)@, entities: old(entities)@ },
                *control_state,
            ),
    {
        let ghost start = components@;
        let mut i: usize = 0;
        while i < entities.len()
            invariant
                i <= entities.len(),
                entities@ == old(entities)@,
                well_formed(components@, entities@),
                grown(start, components@),
                components@ == players_run(start, *control_state, entities@, i as nat),
            decreases entities.len() - i,
        {
            let entity = entities[i];
            if entity.player_controller.is_some() && entity.dynamic_body.is_some() {
                update_walk_state(&entity, components, entities);
                update_aim(&entity, control_state, components);
                update_animation(&entity, components);
                update_control(&entity, control_state, components);
            }
            i += 1;
        }
        let ghost played_world = components@;
        let mut fired: Vec<Entity> = Vec::new();
        let mut i: usize = 0;
        while i < entities.len()
            invariant
                i <= entities.len(),
                entities@ == old(entities)@,
                well_formed(components@, entities@),
                well_formed(components@, fired@),
                grown(start, components@),
                components@ == weapons_run(played_world, entities@, i as nat),
                fired@ == bullets(played_world, entities@, i as nat),
            decreases entities.len() - i,
        {
            let entity = entities[i];
            if entity.weapon.is_some() && entity.position.is_some()
                && entity.audio_source.is_some() {
                if let Some(bullet) = update_weapon(&entity, components) {
                    fired.push(bullet);
                }
            }
            i += 1;
        }
        let mut new_entities: Vec<Entity> = Vec::new();
        let mut i: usize = 0;
        while i < entities.len()
            invariant
                i <= entities.len(),
                entities@ == old(entities)@,
                well_formed(components@, entities@),
                well_formed(components@, new_entities@),
                new_entities@ == kept(components@, entities@, i as nat),
            decreases entities.len() - i,
        {
            let entity = entities[i];
            if !is_spent(&entity, components) {
                new_entities.push(entity);
            }
            i += 1;
        }
        let ghost all_fired = fired@;
        let ghost survivors = new_entities@;
        *entities = new_entities;
        while fired.len() > 0
            invariant
                fired@.len() <= all_fired.len(),
                fired@ == all_fired.take(fired@.len() as int),
                well_formed(components@, all_fired),
                well_formed(components@, entities@),
                entities@ == survivors + all_fired.skip(fired@.len() as int).reverse(),
            decreases fired.len(),
        {
            let ghost before = fired@;
            let bullet = fired.pop().unwrap();
            entities.push(bullet);
            proof {
                let n = fired@.len() as int;
                assert(fired@ =~= all_fired.take(n));
                assert(all_fired.skip(n).reverse() =~= all_fired.skip(n + 1).reverse().push(
                    all_fired[n],
                ));
                assert(entities@ =~= survivors + all_fired.skip(n).reverse());
            }
        }
        proof {
            assert(all_fired.skip(0) =~= all_fired);
        }
    }

    /// Shows nothing.
    fn render(&mut self, time: Time, components: &mut Components, entities: &mut Vec<Entity>)
        ensures
            final(components)@ == old(components)@,
            final(entities)@ == old(entities)@,
    {
    }
}

} // verus!
