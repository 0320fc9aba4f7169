//! Which surface a player stands on, found from the boxes around it, and what
//! follows from a change of surface.

use vstd::prelude::*;
use crate::audio::played;
use crate::fixed::{divide, is_sqrt_floor, lemma_sqrt_floor, quotient, ONE};
use crate::physics::{aabb_intersect, blocks};
use crate::vector::{distance, square_distance, unit_component, unit_difference, Vector2};
use crate::world::{
    valid, well_formed, AABBCollider, Components, ComponentsView, Entity, PlayerControllerView,
    PlayerState, Position, RequestView, Rotation, SpriteView,
};

verus! {

/// The sum of the x coordinates of `tiles`.
pub open spec fn total_x(tiles: Seq<Position>) -> int
    decreases tiles.len(),
{
    if tiles.len() == 0 {
        0
    } else {
        total_x(tiles.drop_last()) + tiles.last().x
    }
}

/// The sum of the y coordinates of `tiles`.
pub open spec fn total_y(tiles: Seq<Position>) -> int
    decreases tiles.len(),
{
    if tiles.len() == 0 {
        0
    } else {
        total_y(tiles.drop_last()) + tiles.last().y
    }
}

/// The average of `tiles`, each coordinate truncated toward zero.
pub open spec fn centre(tiles: Seq<Position>) -> Vector2
    recommends
        tiles.len() > 0,
{
    Vector2 {
        x: quotient(total_x(tiles), tiles.len() as int) as i32,
        y: quotient(total_y(tiles), tiles.len() as int) as i32,
    }
}

/// The surface that a player stands on when the unit vector `w` points from
/// the surface to the player: the one whose own direction is farthest from
/// `w`, where the floor's direction is down (toward positive y), the
/// ceiling's up, the right wall's right and the left wall's left. Distances
/// are compared as whole scalars, and of equal ones the first in the order
/// floor, ceiling, right wall, left wall wins.
pub open spec fn surface(w: Vector2) -> PlayerState {
    let floor = distance(w, Vector2 { x: 0, y: 10_000 });
    let ceiling = distance(w, Vector2 { x: 0, y: -10_000i32 });
    let right = distance(w, Vector2 { x: 10_000, y: 0 });
    let left = distance(w, Vector2 { x: -10_000i32, y: 0 });
    if floor >= ceiling && floor >= right && floor >= left {
        PlayerState::OnFloor
    } else if ceiling >= right && ceiling >= left {
        PlayerState::OnCeiling
    } else if right >= left {
        PlayerState::OnRightWall
    } else {
        PlayerState::OnLeftWall
    }
}

/// The state of a player at `position` whose ground check meets the boxes at
/// `tiles`: flying without any, else on the surface that lies from the
/// player toward the centre of `tiles`.
pub open spec fn state_among(position: Position, tiles: Seq<Position>) -> PlayerState {
    if tiles.len() == 0 {
        PlayerState::Flying
    } else {
        surface(unit_difference(Vector2 { x: position.x, y: position.y }, centre(tiles)))
    }
}

/// The positions of those of the first `n` entities whose boxes overlap the
/// box `ground_check` at `position`, in order; an entity whose collider is
/// `entity`'s own is passed over.
pub open spec fn neighbours(
    c: ComponentsView,
    ground_check: AABBCollider,
    position: Position,
    entity: Entity,
    entities: Seq<Entity>,
    n: nat,
) -> Seq<Position>
    decreases n,
{
    if n == 0 {
        Seq::empty()
    } else {
        let rest = neighbours(c, ground_check, position, entity, entities, (n - 1) as nat);
        if blocks(c, ground_check, position, entity, entities[n - 1]) {
            rest.push(c.position[entities[n - 1].position->0.index as int])
        } else {
            rest
        }
    }
}

/// The state of the player `e`, from the boxes around it.
pub open spec fn walk_state(c: ComponentsView, e: Entity, entities: Seq<Entity>) -> PlayerState
    recommends
        e.player_controller is Some,
        e.position is Some,
{
    let position = c.position[e.position->0.index as int];
    state_among(
        position,
        neighbours(
            c,
            c.player_controller[e.player_controller->0.index as int].ground_check,
            position,
            e,
            entities,
            entities.len(),
        ),
    )
}

/// The sums of coordinates stay within the number of terms times the range of
/// a scalar.
proof fn lemma_total_bounds(tiles: Seq<Position>)
    ensures
        -0x8000_0000 * tiles.len() <= total_x(tiles) <= 0x7fff_ffff * tiles.len(),
        -0x8000_0000 * tiles.len() <= total_y(tiles) <= 0x7fff_ffff * tiles.len(),
    decreases tiles.len(),
{
    if tiles.len() > 0 {
        lemma_total_bounds(tiles.drop_last());
    }
}

/// An average lies within the bounds of its terms.
proof fn lemma_quotient_bounds(total: int, n: int)
    requires
        n > 0,
        -0x8000_0000 * n <= total <= 0x7fff_ffff * n,
    ensures
        -0x8000_0000 <= quotient(total, n) <= 0x7fff_ffff,
{
    if total >= 0 {
        assert(total / n <= 0x7fff_ffff) by (nonlinear_arith)
            requires
                n > 0,
                0 <= total <= 0x7fff_ffff * n,
        ;
        assert(total / n >= 0) by (nonlinear_arith)
            requires
                n > 0,
                0 <= total,
        ;
    } else {
        assert(0 <= (-total) / n <= 0x8000_0000) by (nonlinear_arith)
            requires
                n > 0,
                0 <= -total <= 0x8000_0000 * n,
        ;
    }
}

/// The surface that a player stands on when `w` points from the surface to
/// the player.
fn surface_for(w: Vector2) -> (r: PlayerState)
    ensures
        r == surface(w),
{
    let floor: i32 = w.distance_to(Vector2 { x: 0, y: ONE });
    let ceiling: i32 = w.distance_to(Vector2 { x: 0, y: -ONE });
    let right: i32 = w.distance_to(Vector2 { x: ONE, y: 0 });
    let left: i32 = w.distance_to(Vector2 { x: -ONE, y: 0 });
    if floor >= ceiling && floor >= right && floor >= left {
        PlayerState::OnFloor
    } else if ceiling >= right && ceiling >= left {
        PlayerState::OnCeiling
    } else if right >= left {
        PlayerState::OnRightWall
    } else {
        PlayerState::OnLeftWall
    }
}

/// The state of the player `player_entity`: flying if its ground check meets
/// no other entity's box, else on the surface that lies toward the centre of
/// the boxes it meets.
pub fn get_walk_state(
    player_entity: &Entity,
    components: &Components,
    entities: &Vec<Entity>,
) -> (r: PlayerState)
    requires
        well_formed(components@, entities@),
        valid(components@, *player_entity),
        player_entity.player_controller is Some,
        player_entity.position is Some,
    ensures
        r == walk_state(components@, *player_entity, entities@),
{
    let player = components.player_controller.get(player_entity.player_controller.unwrap());
    let position = *components.position.get(player_entity.position.unwrap());
    let ground_check = player.ground_check;
    let mut neighbouring_tiles: Vec<Position> = Vec::new();
    let mut i: usize = 0;
    while i < entities.len()
        invariant
            i <= entities.len(),
            well_formed(components@, entities@),
            neighbouring_tiles@ == neighbours(
                components@,
                ground_check,
                position,
                *player_entity,
                entities@,
                i as nat,
            ),
        decreases entities.len() - i,
    {
        let entity_2 = entities[i];
        if let (Some(collider_2_id), Some(position_2_id)) = (entity_2.collider, entity_2.position) {
            let own = match player_entity.collider {
                Some(id) => id.same(collider_2_id),
                None => false,
            };
            if !own {
                let collider_2 = components.collider.get(collider_2_id);
                let position_2 = components.position.get(position_2_id);
                if aabb_intersect(&ground_check, &position, collider_2, position_2) {
                    neighbouring_tiles.push(*position_2);
                }
            }
        }
        i += 1;
    }
    if neighbouring_tiles.len() > 0 {
        let mut sum_x: i128 = 0;
        let mut sum_y: i128 = 0;
        let mut k: usize = 0;
        while k < neighbouring_tiles.len()
            invariant
                k <= neighbouring_tiles.len(),
                sum_x == total_x(neighbouring_tiles@.take(k as int)),
                sum_y == total_y(neighbouring_tiles@.take(k as int)),
            decreases neighbouring_tiles.len() - k,
        {
            proof {
                lemma_total_bounds(neighbouring_tiles@.take(k as int));
                assert(neighbouring_tiles@.take(k + 1).drop_last() =~= neighbouring_tiles@.take(
                    k as int,
                ));
            }
            sum_x = sum_x + neighbouring_tiles[k].x as i128;
            sum_y = sum_y + neighbouring_tiles[k].y as i128;
            k += 1;
        }
        proof {
            assert(neighbouring_tiles@.take(k as int) =~= neighbouring_tiles@);
            lemma_total_bounds(neighbouring_tiles@);
            lemma_quotient_bounds(sum_x as int, k as int);
            lemma_quotient_bounds(sum_y as int, k as int);
        }
        let avg = Vector2 {
            x: divide(sum_x, k as i128) as i32,
            y: divide(sum_y, k as i128) as i32,
        };
        let wall_to_player = Vector2 { x: position.x, y: position.y }.normalized_sub(avg);
        return surface_for(wall_to_player);
    }
    PlayerState::Flying
}

/// Along an axis, the unit component is a whole unit with the sign of the
/// component, and across it, nothing.
pub proof fn lemma_unit_along_axis(d: int)
    requires
        d != 0,
    ensures
        unit_component(d, (d * d) as nat) == (if d > 0 {
            10_000int
        } else {
            -10_000int
        }),
        unit_component(0, (d * d) as nat) == 0,
{
    assert(d * d > 0) by (nonlinear_arith)
        requires
            d != 0,
    ;
    assert((ONE * ONE) * (d * d) / (d * d) == 100_000_000) by (nonlinear_arith)
        requires
            d * d > 0,
            ONE == 10_000,
    ;
    assert((ONE * ONE) * (0int * 0int) / (d * d) == 0) by (nonlinear_arith)
        requires
            d * d > 0,
    ;
    assert(is_sqrt_floor(100_000_000, 10_000)) by (nonlinear_arith);
    assert(is_sqrt_floor(0, 0)) by (nonlinear_arith);
    lemma_sqrt_floor(100_000_000, 10_000);
    lemma_sqrt_floor(0, 0);
}

/// The surface that lies opposite to each of the four axis directions.
pub proof fn lemma_surface_of_axis()
    ensures
        surface(Vector2 { x: 0, y: -10_000i32 }) == PlayerState::OnFloor,
        surface(Vector2 { x: 0, y: 10_000 }) == PlayerState::OnCeiling,
        surface(Vector2 { x: 10_000, y: 0 }) == PlayerState::OnLeftWall,
        surface(Vector2 { x: -10_000i32, y: 0 }) == PlayerState::OnRightWall,
{
    assert(is_sqrt_floor(0, 0)) by (nonlinear_arith);
    assert(is_sqrt_floor(200_000_000, 14_142)) by (nonlinear_arith);
    assert(is_sqrt_floor(400_000_000, 20_000)) by (nonlinear_arith);
    lemma_sqrt_floor(0, 0);
    lemma_sqrt_floor(200_000_000, 14_142);
    lemma_sqrt_floor(400_000_000, 20_000);
    let up = Vector2 { x: 0, y: -10_000i32 };
    let down = Vector2 { x: 0, y: 10_000 };
    let right = Vector2 { x: 10_000, y: 0 };
    let left = Vector2 { x: -10_000i32, y: 0 };
    assert(square_distance(up, up) == 0 && square_distance(up, down) == 400_000_000
        && square_distance(up, left) == 200_000_000 && square_distance(up, right) == 200_000_000)
        by (nonlinear_arith)
        requires
            up == (Vector2 { x: 0, y: -10_000i32 }),
            down == (Vector2 { x: 0, y: 10_000 }),
            right == (Vector2 { x: 10_000, y: 0 }),
            left == (Vector2 { x: -10_000i32, y: 0 }),
    ;
    assert(square_distance(down, down) == 0 && square_distance(down, up) == 400_000_000
        && square_distance(down, left) == 200_000_000 && square_distance(down, right)
        == 200_000_000) by (nonlinear_arith)
        requires
            up == (Vector2 { x: 0, y: -10_000i32 }),
            down == (Vector2 { x: 0, y: 10_000 }),
            right == (Vector2 { x: 10_000, y: 0 }),
            left == (Vector2 { x: -10_000i32, y: 0 }),
    ;
    assert(square_distance(right, right) == 0 && square_distance(right, left) == 400_000_000
        && square_distance(right, up) == 200_000_000 && square_distance(right, down)
        == 200_000_000) by (nonlinear_arith)
        requires
            up == (Vector2 { x: 0, y: -10_000i32 }),
            down == (Vector2 { x: 0, y: 10_000 }),
            right == (Vector2 { x: 10_000, y: 0 }),
            left == (Vector2 { x: -10_000i32, y: 0 }),
    ;
    assert(square_distance(left, left) == 0 && square_distance(left, right) == 400_000_000
        && square_distance(left, up) == 200_000_000 && square_distance(left, down)
        == 200_000_000) by (nonlinear_arith)
        requires
            up == (Vector2 { x: 0, y: -10_000i32 }),
            down == (Vector2 { x: 0, y: 10_000 }),
            right == (Vector2 { x: 10_000, y: 0 }),
            left == (Vector2 { x: -10_000i32, y: 0 }),
    ;
}

/// A player whose ground check meets no box is flying.
pub proof fn lemma_alone_is_flying(position: Position)
    ensures
        state_among(position, Seq::empty()) == PlayerState::Flying,
{
}

/// A player whose ground check meets exactly one box stands on the floor if
/// the box is straight below it (at a greater y), under the ceiling if
/// straight above, on the left wall if straight to its left, and on the right
/// wall if straight to its right.
pub proof fn lemma_single_neighbour(position: Position, tile: Position)
    ensures
        tile.x == position.x && tile.y > position.y ==> state_among(position, seq![tile])
            == PlayerState::OnFloor,
        tile.x == position.x && tile.y < position.y ==> state_among(position, seq![tile])
            == PlayerState::OnCeiling,
        tile.y == position.y && tile.x < position.x ==> state_among(position, seq![tile])
            == PlayerState::OnLeftWall,
        tile.y == position.y && tile.x > position.x ==> state_among(position, seq![tile])
            == PlayerState::OnRightWall,
{
    let tiles = seq![tile];
    assert(tiles.drop_last() =~= Seq::<Position>::empty());
    assert(total_x(tiles.drop_last()) == 0);
    assert(total_y(tiles.drop_last()) == 0);
    assert(tiles.last() == tile);
    assert(total_x(tiles) == tile.x);
    assert(total_y(tiles) == tile.y);
    assert(centre(tiles) == Vector2 { x: tile.x, y: tile.y });
    let p = Vector2 { x: position.x, y: position.y };
    let t = Vector2 { x: tile.x, y: tile.y };
    let dx = position.x - tile.x;
    let dy = position.y - tile.y;
    lemma_surface_of_axis();
    if tile.x == position.x && tile.y != position.y {
        assert(square_distance(p, t) == dy * dy) by (nonlinear_arith)
            requires
                square_distance(p, t) == ((p.x - t.x) * (p.x - t.x) + (p.y - t.y) * (p.y - t.y)) as nat,
                p.x - t.x == 0,
                p.y - t.y == dy,
        ;
        lemma_unit_along_axis(dy);
    }
    if tile.y == position.y && tile.x != position.x {
        assert(square_distance(p, t) == dx * dx) by (nonlinear_arith)
            requires
                square_distance(p, t) == ((p.x - t.x) * (p.x - t.x) + (p.y - t.y) * (p.y - t.y)) as nat,
                p.y - t.y == 0,
                p.x - t.x == dx,
        ;
        lemma_unit_along_axis(dx);
    }
}

/// Among entities of which none stands in the way, there are no neighbours.
pub proof fn lemma_no_neighbours(
    c: ComponentsView,
    ground_check: AABBCollider,
    position: Position,
    entity: Entity,
    entities: Seq<Entity>,
    n: nat,
)
    requires
        n <= entities.len(),
        forall|k: int|
            0 <= k < n ==> !blocks(c, ground_check, position, entity, #[trigger] entities[k]),
    ensures
        neighbours(c, ground_check, position, entity, entities, n) == Seq::<Position>::empty(),
    decreases n,
{
    if n > 0 {
        lemma_no_neighbours(c, ground_check, position, entity, entities, (n - 1) as nat);
    }
}

/// Among entities of which only the one at `j` stands in the way, that one is
/// the only neighbour.
pub proof fn lemma_one_neighbour(
    c: ComponentsView,
    ground_check: AABBCollider,
    position: Position,
    entity: Entity,
    entities: Seq<Entity>,
    n: nat,
    j: int,
)
    requires
        n <= entities.len(),
        0 <= j < n,
        forall|k: int|
            0 <= k < n ==> (k == j <==> blocks(
                c,
                ground_check,
                position,
                entity,
                #[trigger] entities[k],
            )),
    ensures
        neighbours(c, ground_check, position, entity, entities, n) == seq![
            c.position[entities[j].position->0.index as int],
        ],
    decreases n,
{
    let tile = c.position[entities[j].position->0.index as int];
    if j == n - 1 {
        lemma_no_neighbours(c, ground_check, position, entity, entities, (n - 1) as nat);
        assert(Seq::<Position>::empty().push(tile) =~= seq![tile]);
    } else {
        lemma_one_neighbour(c, ground_check, position, entity, entities, (n - 1) as nat, j);
    }
}

/// A player whose ground check overlaps no other entity's box is flying.
pub proof fn lemma_flying(c: ComponentsView, e: Entity, entities: Seq<Entity>)
    requires
        e.player_controller is Some,
        e.position is Some,
        forall|k: int|
            0 <= k < entities.len() ==> !blocks(
                c,
                c.player_controller[e.player_controller->0.index as int].ground_check,
                c.position[e.position->0.index as int],
                e,
                #[trigger] entities[k],
            ),
    ensures
        walk_state(c, e, entities) == PlayerState::Flying,
{
    lemma_no_neighbours(
        c,
        c.player_controller[e.player_controller->0.index as int].ground_check,
        c.position[e.position->0.index as int],
        e,
        entities,
        entities.len(),
    );
}

/// A player whose ground check overlaps the box of the entity at `j` and no
/// other stands on the floor if that entity is straight below it, under the
/// ceiling if straight above, on the left wall if straight to its left, and on
/// the right wall if straight to its right.
pub proof fn lemma_standing(c: ComponentsView, e: Entity, entities: Seq<Entity>, j: int)
    requires
        e.player_controller is Some,
        e.position is Some,
        0 <= j < entities.len(),
        forall|k: int|
            0 <= k < entities.len() ==> (k == j <==> blocks(
                c,
                c.player_controller[e.player_controller->0.index as int].ground_check,
                c.position[e.position->0.index as int],
                e,
                #[trigger] entities[k],
            )),
    ensures
        ({
            let position = c.position[e.position->0.index as int];
            let tile = c.position[entities[j].position->0.index as int];
            &&& tile.x == position.x && tile.y > position.y ==> walk_state(c, e, entities)
                == PlayerState::OnFloor
            &&& tile.x == position.x && tile.y < position.y ==> walk_state(c, e, entities)
                == PlayerState::OnCeiling
            &&& tile.y == position.y && tile.x < position.x ==> walk_state(c, e, entities)
                == PlayerState::OnLeftWall
            &&& tile.y == position.y && tile.x > position.x ==> walk_state(c, e, entities)
                == PlayerState::OnRightWall
        }),
{
    lemma_one_neighbour(
        c,
        c.player_controller[e.player_controller->0.index as int].ground_check,
        c.position[e.position->0.index as int],
        e,
        entities,
        entities.len(),
        j,
    );
    lemma_single_neighbour(
        c.position[e.position->0.index as int],
        c.position[entities[j].position->0.index as int],
    );
}

/// The angle, in degrees, by which the sprite of a player in `state` is
/// turned.
pub open spec fn turn(state: PlayerState) -> i32 {
    match state {
        PlayerState::Flying | PlayerState::OnFloor => 0,
        PlayerState::OnLeftWall => 90,
        PlayerState::OnRightWall => 270,
        PlayerState::OnCeiling => 180,
    }
}

/// The sound that a change of state makes: `jump` on leaving a surface, `land`
/// on reaching one, and none otherwise.
pub open spec fn transition_sound(
    from: PlayerState,
    to: PlayerState,
    jump: Seq<char>,
    land: Seq<char>,
) -> Option<Seq<char>> {
    if from != PlayerState::Flying && to == PlayerState::Flying {
        Some(jump)
    } else if from == PlayerState::Flying && to != PlayerState::Flying {
        Some(land)
    } else {
        None
    }
}

/// The world after the state of the player `e` has been brought up to date:
/// its controller has the state that the boxes around it give, its sprite, if
/// any, is turned to match, and its audio source, if any, has been asked for
/// the sound of the change. A player without a position is left alone.
pub open spec fn walk_step(c: ComponentsView, e: Entity, entities: Seq<Entity>) -> ComponentsView
    recommends
        e.player_controller is Some,
{
    if e.position is None {
        c
    } else {
        let player = c.player_controller[e.player_controller->0.index as int];
        let state = walk_state(c, e, entities);
        let sprite_renderer = match e.sprite_renderer {
            Some(id) => c.sprite_renderer.update(
                id.index as int,
                SpriteView {
                    rotation: Rotation { facing: Vector2 { x: 0, y: 0 }, degrees: turn(state) },
                    ..c.sprite_renderer[id.index as int]
                },
            ),
            None => c.sprite_renderer,
        };
        let audio_source = match (
            e.audio_source,
            transition_sound(player.state, state, player.jump_sound, player.land_sound),
        ) {
            (Some(id), Some(sound)) => c.audio_source.update(
                id.index as int,
                played(c.audio_source[id.index as int], sound),
            ),
            _ => c.audio_source,
        };
        let player_controller = c.player_controller.update(
            e.player_controller->0.index as int,
            PlayerControllerView { state, ..player },
        );
        ComponentsView { sprite_renderer, audio_source, player_controller, ..c }
    }
}

/// Leaving a surface makes the jump sound, reaching one makes the land sound,
/// and nothing else makes a sound: not staying in flight, and not passing from
/// one surface to another.
pub proof fn lemma_transition_sounds(
    from: PlayerState,
    to: PlayerState,
    jump: Seq<char>,
    land: Seq<char>,
)
    ensures
        from != PlayerState::Flying && to == PlayerState::Flying ==> transition_sound(
            from,
            to,
            jump,
            land,
        ) == Some(jump),
        from == PlayerState::Flying && to != PlayerState::Flying ==> transition_sound(
            from,
            to,
            jump,
            land,
        ) == Some(land),
        from == PlayerState::Flying && to == PlayerState::Flying ==> transition_sound(
            from,
            to,
            jump,
            land,
        ) is None,
        from != PlayerState::Flying && to != PlayerState::Flying ==> transition_sound(
            from,
            to,
            jump,
            land,
        ) is None,
{
}

/// A change of state asks the player's audio source for exactly one sound, and
/// no change that makes no sound asks it for anything.
pub proof fn lemma_walk_step_requests(c: ComponentsView, e: Entity, entities: Seq<Entity>)
    requires
        valid(c, e),
        e.player_controller is Some,
        e.position is Some,
        e.audio_source is Some,
    ensures
        ({
            let player = c.player_controller[e.player_controller->0.index as int];
            let before = c.audio_source[e.audio_source->0.index as int];
            let after = walk_step(c, e, entities).audio_source[e.audio_source->0.index as int];
            match transition_sound(
                player.state,
                walk_state(c, e, entities),
                player.jump_sound,
                player.land_sound,
            ) {
                Some(sound) => after.source == before.source.push(
                    RequestView { buffer: sound, stop: true },
                ),
                None => after == before,
            }
        }),
{
}

/// Brings the state of the player `player_entity` up to date, turns its sprite
/// to match, and asks for the sound of the change.
pub fn update_walk_state(
    player_entity: &Entity,
    components: &mut Components,
    entities: &Vec<Entity>,
)
    requires
        well_formed(old(components)@, entities@),
        valid(old(components)@, *player_entity),
        player_entity.player_controller is Some,
    ensures
        final(components)@ == walk_step(old(components)@, *player_entity, entities@),
{
    if player_entity.position.is_none() {
        return ;
    }
    let new_state = get_walk_state(player_entity, components, entities);
    let player_id = player_entity.player_controller.unwrap();
    let old_state = components.player_controller.get(player_id).state;
    if let Some(renderer_id) = player_entity.sprite_renderer {
        let renderer = components.sprite_renderer.get_mut(renderer_id);
        match new_state {
            PlayerState::Flying => {
                renderer.sprite.set_rotation(0);
            },
            PlayerState::OnLeftWall => {
                renderer.sprite.set_rotation(90);
            },
            PlayerState::OnRightWall => {
                renderer.sprite.set_rotation(270);
            },
            PlayerState::OnCeiling => {
                renderer.sprite.set_rotation(180);
            },
            PlayerState::OnFloor => {
                renderer.sprite.set_rotation(0);
            },
        }
    }
    if let Some(source_id) = player_entity.audio_source {
        if new_state == PlayerState::Flying && old_state != PlayerState::Flying {
            let sound = components.player_controller.get(player_id).jump_sound.clone();
            let audio_source = components.audio_source.get_mut(source_id);
            audio_source.play_buffer(sound);
        }
        if old_state == PlayerState::Flying && new_state != PlayerState::Flying {
            let sound = components.player_controller.get(player_id).land_sound.clone();
            let audio_source = components.audio_source.get_mut(source_id);
            audio_source.play_buffer(sound);
        }
    }
    let player = components.player_controller.get_mut(player_id);
    player.state = new_state;
}

} // verus!
