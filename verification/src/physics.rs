//! Movement and collision.
//!
//! A moving entity either makes its whole move or none of it: a move that would
//! end inside another entity's box is dropped, not shortened.

use vstd::prelude::*;
use crate::fixed::{clamp, saturate};
use crate::world::{
    grown, valid, well_formed, AABBCollider, Components, ComponentsView, ControlState,
    DynamicBody, Entity, Position, System, Time,
};

verus! {

/// Whether two boxes overlap, each centred on its position: on both axes, each
/// box begins before the other ends. Boxes that only touch do not overlap.
/// Edges are compared in half units, so that halving a size loses nothing.
pub open spec fn overlaps(
    a_collider: AABBCollider,
    a_position: Position,
    b_collider: AABBCollider,
    b_position: Position,
) -> bool {
    &&& 2 * a_position.x - a_collider.width < 2 * b_position.x + b_collider.width
    &&& 2 * a_position.x + a_collider.width > 2 * b_position.x - b_collider.width
    &&& 2 * a_position.y - a_collider.height < 2 * b_position.y + b_collider.height
    &&& 2 * a_position.y + a_collider.height > 2 * b_position.y - b_collider.height
}

/// Whether `other` stands in the way of `entity`, were `entity`'s `collider` at
/// `position`: `other` has a collider, which is not `entity`'s own, and a
/// position, and the two boxes overlap.
pub open spec fn blocks(
    c: ComponentsView,
    collider: AABBCollider,
    position: Position,
    entity: Entity,
    other: Entity,
) -> bool {
    &&& other.collider is Some
    &&& other.position is Some
    &&& entity.collider != other.collider
    &&& overlaps(
        collider,
        position,
        c.collider[other.collider->0.index as int],
        c.position[other.position->0.index as int],
    )
}

/// Whether any of the first `n` entities stands in the way of `entity`.
pub open spec fn collides_among(
    c: ComponentsView,
    collider: AABBCollider,
    position: Position,
    entity: Entity,
    entities: Seq<Entity>,
    n: int,
) -> bool {
    exists|j: int| 0 <= j < n && blocks(c, collider, position, entity, #[trigger] entities[j])
}

/// Whether any entity stands in the way of `entity`.
pub open spec fn collides(
    c: ComponentsView,
    collider: AABBCollider,
    position: Position,
    entity: Entity,
    entities: Seq<Entity>,
) -> bool {
    collides_among(c, collider, position, entity, entities, entities.len() as int)
}

/// Whether the physics step moves `e`: it has a body, a collider and a position.
pub open spec fn moves(e: Entity) -> bool {
    e.dynamic_body is Some && e.collider is Some && e.position is Some
}

/// The position of `e`.
pub open spec fn place(c: ComponentsView, e: Entity) -> Position
    recommends
        e.position is Some,
{
    c.position[e.position->0.index as int]
}

/// The velocity of `e`.
pub open spec fn velocity(c: ComponentsView, e: Entity) -> DynamicBody
    recommends
        e.dynamic_body is Some,
{
    c.dynamic_body[e.dynamic_body->0.index as int]
}

/// Where `e` would be after one frame at its velocity.
pub open spec fn candidate(c: ComponentsView, e: Entity) -> Position
    recommends
        moves(e),
{
    Position {
        x: clamp(place(c, e).x + velocity(c, e).vx) as i32,
        y: clamp(place(c, e).y + velocity(c, e).vy) as i32,
    }
}

/// Whether the move of `e` is dropped.
pub open spec fn blocked(c: ComponentsView, e: Entity, entities: Seq<Entity>) -> bool
    recommends
        moves(e),
{
    collides(c, c.collider[e.collider->0.index as int], candidate(c, e), e, entities)
}

/// The world after the physics step has dealt with `e`.
pub open spec fn physics_step(c: ComponentsView, e: Entity, entities: Seq<Entity>) -> ComponentsView {
    if moves(e) && !blocked(c, e, entities) {
        ComponentsView {
            position: c.position.update(e.position->0.index as int, candidate(c, e)),
            ..c
        }
    } else {
        c
    }
}

/// The world after the physics step has dealt with the first `n` entities, in
/// order.
pub open spec fn physics_run(c: ComponentsView, entities: Seq<Entity>, n: nat) -> ComponentsView
    decreases n,
{
    if n == 0 {
        c
    } else {
        physics_step(physics_run(c, entities, (n - 1) as nat), entities[n - 1], entities)
    }
}

/// Overlap does not depend on the order of the two boxes.
pub proof fn lemma_overlap_symmetric(
    a_collider: AABBCollider,
    a_position: Position,
    b_collider: AABBCollider,
    b_position: Position,
)
    ensures
        overlaps(a_collider, a_position, b_collider, b_position) == overlaps(
            b_collider,
            b_position,
            a_collider,
            a_position,
        ),
{
}

/// Two boxes of which one ends exactly where the other begins, on either axis,
/// do not overlap.
pub proof fn lemma_touching_is_not_overlapping(
    a_collider: AABBCollider,
    a_position: Position,
    b_collider: AABBCollider,
    b_position: Position,
)
    requires
        2 * a_position.x + a_collider.width == 2 * b_position.x - b_collider.width
            || 2 * a_position.x - a_collider.width == 2 * b_position.x + b_collider.width
            || 2 * a_position.y + a_collider.height == 2 * b_position.y - b_collider.height
            || 2 * a_position.y - a_collider.height == 2 * b_position.y + b_collider.height,
    ensures
        !overlaps(a_collider, a_position, b_collider, b_position),
{
}

/// A move that would end inside another entity's box changes nothing.
pub proof fn lemma_blocked_move_is_dropped(c: ComponentsView, e: Entity, entities: Seq<Entity>)
    requires
        moves(e),
        blocked(c, e, entities),
    ensures
        physics_step(c, e, entities) == c,
{
}

/// A move that meets no other box, and stays within the range of a scalar, puts
/// the entity at its position plus its velocity and changes nothing else.
pub proof fn lemma_free_move_is_made(c: ComponentsView, e: Entity, entities: Seq<Entity>)
    requires
        valid(c, e),
        moves(e),
        !blocked(c, e, entities),
        i32::MIN <= place(c, e).x + velocity(c, e).vx <= i32::MAX,
        i32::MIN <= place(c, e).y + velocity(c, e).vy <= i32::MAX,
    ensures
        place(physics_step(c, e, entities), e).x == place(c, e).x + velocity(c, e).vx,
        place(physics_step(c, e, entities), e).y == place(c, e).y + velocity(c, e).vy,
        forall|i: int|
            0 <= i < c.position.len() && i != e.position->0.index ==> physics_step(
                c,
                e,
                entities,
            ).position[i] == c.position[i],
        physics_step(c, e, entities) == (ComponentsView {
            position: physics_step(c, e, entities).position,
            ..c
        }),
{
}

/// The physics step changes positions only, and takes none away.
pub proof fn lemma_physics_moves_only(c: ComponentsView, entities: Seq<Entity>, n: nat)
    requires
        n <= entities.len(),
        well_formed(c, entities),
    ensures
        physics_run(c, entities, n) == (ComponentsView {
            position: physics_run(c, entities, n).position,
            ..c
        }),
        physics_run(c, entities, n).position.len() == c.position.len(),
    decreases n,
{
    if n > 0 {
        lemma_physics_moves_only(c, entities, (n - 1) as nat);
        assert(valid(c, entities[n - 1]));
    }
}

/// Whether two boxes overlap.
pub fn aabb_intersect(
    a_collider: &AABBCollider,
    a_position: &Position,
    b_collider: &AABBCollider,
    b_position: &Position,
) -> (r: bool)
    ensures
        r == overlaps(*a_collider, *a_position, *b_collider, *b_position),
{
    let ax: i64 = 2 * (a_position.x as i64);
    let ay: i64 = 2 * (a_position.y as i64);
    let bx: i64 = 2 * (b_position.x as i64);
    let by: i64 = 2 * (b_position.y as i64);
    let aw: i64 = a_collider.width as i64;
    let ah: i64 = a_collider.height as i64;
    let bw: i64 = b_collider.width as i64;
    let bh: i64 = b_collider.height as i64;
    let x_overlap = ax - aw < bx + bw && ax + aw > bx - bw;
    let y_overlap = ay - ah < by + bh && ay + ah > by - bh;
    x_overlap && y_overlap
}

/// Whether `entity`, with `collider_1` at `position_1`, would overlap any other
/// entity's box. An entity whose collider is `entity`'s own is passed over.
pub fn check_collision(
    collider_1: &AABBCollider,
    position_1: &Position,
    entity: &Entity,
    components: &Components,
    entities: &Vec<Entity>,
) -> (colliding: bool)
    requires
        well_formed(components@, entities@),
    ensures
        colliding == collides(components@, *collider_1, *position_1, *entity, entities@),
{
    let mut colliding = false;
    let mut i: usize = 0;
    while i < entities.len()
        invariant
            i <= entities.len(),
            well_formed(components@, entities@),
            colliding == collides_among(
                components@,
                *collider_1,
                *position_1,
                *entity,
                entities@,
                i as int,
            ),
        decreases entities.len() - i,
    {
        let entity_2 = entities[i];
        if let (Some(collider_2_id), Some(position_2_id)) = (entity_2.collider, entity_2.position) {
            let own = match entity.collider {
                Some(id) => id.same(collider_2_id),
                None => false,
            };
            if !own {
                let collider_2 = components.collider.get(collider_2_id);
                let position_2 = components.position.get(position_2_id);
                if aabb_intersect(collider_1, position_1, collider_2, position_2) {
                    colliding = true;
                }
            }
        }
        i += 1;
    }
    colliding
}

/// The system that moves entities.
pub struct PhysicsSystem;

impl System for PhysicsSystem {
    /// Moves each entity that has a body, a collider and a position by its
    /// velocity, in order, unless it would then overlap another entity's box.
    fn update(
        &mut self,
        control_state: &ControlState,
        components: &mut Components,
        entities: &mut Vec<Entity>,
    )
        ensures
            final(components)@ == physics_run(
                old(components)@,
                old(entities)@,
                old(entities)@.len(),
            ),
            final(entities)@ == old(entities)@,
    {
        let ghost start = components@;
        let mut i: usize = 0;
        while i < entities.len()
            invariant
                i <= entities.len(),
                entities@ == old(entities)@,
                well_formed(components@, entities@),
                components@ == physics_run(start, entities@, i as nat),
                grown(start, components@),
            decreases entities.len() - i,
        {
            let entity = entities[i];
            if let (Some(body_id), Some(collider_id), Some(position_id)) = (
                entity.dynamic_body,
                entity.collider,
                entity.position,
            ) {
                let body = *components.dynamic_body.get(body_id);
                let collider = *components.collider.get(collider_id);
                let position = *components.position.get(position_id);
                let new_position = Position {
                    x: saturate(position.x as i128 + body.vx as i128),
                    y: saturate(position.y as i128 + body.vy as i128),
                };
                if !check_collision(&collider, &new_position, &entity, components, entities) {
                    let position = components.position.get_mut(position_id);
                    position.x = new_position.x;
                    position.y = new_position.y;
                }
            }
            i += 1;
        }
    }

    /// Shows nothing.
    fn render(&mut self, time: Time, components: &mut Components, entities: &mut Vec<Entity>)
        ensures
            final(components)@ == old(components)@,
            final(entities)@ == old(entities)@,
    {
    }
}

} // verus!
