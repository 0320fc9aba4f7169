//! Setting up a level: the tiles of a map, and the player.
//!
//! Reading a map file is left to the caller, who hands over what it holds:
//! the names of the tileset images and the grids of tile numbers.

use vstd::prelude::*;
use vstd::string::StringExecFns;
use core::marker::PhantomData;
use crate::audio::load_buffer;
use crate::fixed::{clamp, saturate};
use crate::store::Id;
use crate::vector::Vector2;
use crate::world::{
    grown, valid, well_formed, AABBCollider, AudioSource, AudioSourceView, Buffer, CameraTarget,
    Components, ComponentsView, DynamicBody, Entity, EventReceiver, PlayerController,
    PlayerControllerView, PlayerState, Position, Rotation, SpriteAnimation, SpriteAnimationView,
    SpriteAnimator, SpriteAnimatorView, SpriteRenderer, SpriteView, Texture, Time, Weapon,
    WeaponView, World, WorldView,
};

verus! {

/// The width and the height of a tile: 32 pixels.
pub const TILE: i32 = 320_000;

/// The sprite of the tiles drawn from the tileset image `image`.
pub open spec fn tile_sprite(image: Seq<char>) -> SpriteView {
    SpriteView {
        texture: "./assets/"@ + image,
        src_rect: Some([0i32, 0i32, 32i32, 32i32]),
        position: Vector2 { x: 0, y: 0 },
        rotation: Rotation { facing: Vector2 { x: 0, y: 0 }, degrees: 0 },
        flip_x: false,
    }
}

/// The sprites of the first `n` tileset images, in order.
pub open spec fn tile_sprites(images: Seq<String>, n: nat) -> Seq<SpriteView>
    decreases n,
{
    if n == 0 {
        Seq::empty()
    } else {
        tile_sprites(images, (n - 1) as nat).push(tile_sprite(images[n - 1]@))
    }
}

/// The entity of a tile numbered `tile` that is added to the world `w`: a new
/// position, a new box, and the sprite of its tileset image, where `first` is
/// the slot of the first image's sprite.
pub open spec fn tile_entity(w: WorldView, tile: u32, first: nat) -> Entity {
    Entity {
        position: Some(Id { index: w.data.position.len() as usize, kind: PhantomData }),
        sprite_renderer: Some(Id { index: (first + tile - 1) as usize, kind: PhantomData }),
        sprite_animator: None,
        player_controller: None,
        camera_target: None,
        collider: Some(Id { index: w.data.collider.len() as usize, kind: PhantomData }),
        dynamic_body: None,
        audio_source: None,
        weapon: None,
        bullet: None,
        event_receiver: None,
    }
}

/// The world after the tile numbered `tile` has been placed in `row` of
/// `column`. The number zero is no tile. A tile is a tile's width times its
/// row along x, and as much times its column along y, and has a tile's box.
pub open spec fn place_tile(
    w: WorldView,
    tile: u32,
    row: int,
    column: int,
    first: nat,
) -> WorldView {
    if tile < 1 {
        w
    } else {
        WorldView {
            data: ComponentsView {
                position: w.data.position.push(
                    Position { x: clamp(row * TILE) as i32, y: clamp(column * TILE) as i32 },
                ),
                collider: w.data.collider.push(AABBCollider { width: TILE, height: TILE }),
                ..w.data
            },
            entities: w.entities.push(tile_entity(w, tile, first)),
        }
    }
}

/// The world after the first `n` tiles of a column have been placed.
pub open spec fn place_column(
    w: WorldView,
    tiles: Seq<u32>,
    column: int,
    first: nat,
    n: nat,
) -> WorldView
    decreases n,
{
    if n == 0 {
        w
    } else {
        place_tile(
            place_column(w, tiles, column, first, (n - 1) as nat),
            tiles[n - 1],
            n - 1,
            column,
            first,
        )
    }
}

/// The world after the first `n` columns of a layer have been placed.
pub open spec fn place_layer(w: WorldView, layer: Seq<Vec<u32>>, first: nat, n: nat) -> WorldView
    decreases n,
{
    if n == 0 {
        w
    } else {
        place_column(
            place_layer(w, layer, first, (n - 1) as nat),
            layer[n - 1]@,
            n - 1,
            first,
            layer[n - 1]@.len(),
        )
    }
}

/// The world after the first `n` layers have been placed.
pub open spec fn place_layers(
    w: WorldView,
    layers: Seq<Vec<Vec<u32>>>,
    first: nat,
    n: nat,
) -> WorldView
    decreases n,
{
    if n == 0 {
        w
    } else {
        place_layer(
            place_layers(w, layers, first, (n - 1) as nat),
            layers[n - 1]@,
            first,
            layers[n - 1]@.len(),
        )
    }
}

/// Whether every tile number in `layers` is at most `count`.
pub open spec fn tiles_known(layers: Seq<Vec<Vec<u32>>>, count: nat) -> bool {
    forall|l: int, c: int, r: int|
        0 <= l < layers.len() && 0 <= c < layers[l]@.len() && 0 <= r < layers[l]@[c]@.len()
            ==> #[trigger] layers[l]@[c]@[r] <= count
}

/// Whether every tile number of `tiles` is at most `count`.
spec fn column_known(tiles: Seq<u32>, count: nat) -> bool {
    forall|r: int| 0 <= r < tiles.len() ==> #[trigger] tiles[r] <= count
}

/// Whether every tile number of `layer` is at most `count`.
spec fn layer_known(layer: Seq<Vec<u32>>, count: nat) -> bool {
    forall|c: int| 0 <= c < layer.len() ==> column_known(#[trigger] layer[c]@, count)
}

/// Whether every tile number in `layers` is at most `count`.
pub fn knows_tiles(layers: &Vec<Vec<Vec<u32>>>, count: usize) -> (r: bool)
    ensures
        r == tiles_known(layers@, count as nat),
{
    let mut l: usize = 0;
    while l < layers.len()
        invariant
            l <= layers.len(),
            forall|k: int| 0 <= k < l ==> layer_known(#[trigger] layers@[k]@, count as nat),
        decreases layers.len() - l,
    {
        let layer = &layers[l];
        let mut c: usize = 0;
        while c < layer.len()
            invariant
                c <= layer.len(),
                l < layers.len(),
                *layer == layers@[l as int],
                forall|k: int| 0 <= k < c ==> column_known(#[trigger] layer@[k]@, count as nat),
            decreases layer.len() - c,
        {
            let column = &layer[c];
            let mut r: usize = 0;
            while r < column.len()
                invariant
                    r <= column.len(),
                    l < layers.len(),
                    c < layer.len(),
                    *layer == layers@[l as int],
                    *column == layer@[c as int],
                    forall|k: int| 0 <= k < r ==> #[trigger] column@[k] <= count,
                decreases column.len() - r,
            {
                if column[r] as usize > count {
                    assert(layers@[l as int]@[c as int]@[r as int] > count);
                    return false;
                }
                r += 1;
            }
            assert(column_known(layer@[c as int]@, count as nat));
            c += 1;
        }
        assert(layer_known(layers@[l as int]@, count as nat));
        l += 1;
    }
    assert forall|l: int, c: int, r: int|
        0 <= l < layers@.len() && 0 <= c < layers@[l]@.len() && 0 <= r < layers@[l]@[c]@.len()
        implies #[trigger] layers@[l]@[c]@[r] <= count by {
        assert(layer_known(layers@[l]@, count as nat));
        assert(column_known(layers@[l]@[c]@, count as nat));
    }
    true
}

/// The level that `images` and `layers` describe, added to the world `w`: a
/// sprite for each image, then the tiles of each layer, column by column.
pub open spec fn level(w: WorldView, images: Seq<String>, layers: Seq<Vec<Vec<u32>>>) -> WorldView {
    place_layers(
        WorldView {
            data: ComponentsView {
                sprite_renderer: w.data.sprite_renderer + tile_sprites(images, images.len()),
                ..w.data
            },
            ..w
        },
        layers,
        w.data.sprite_renderer.len(),
        layers.len(),
    )
}

/// Whether `w` is well formed and holds the `count` sprites of the tileset
/// images from slot `first` on.
spec fn placing(w: WorldView, first: nat, count: nat) -> bool {
    &&& well_formed(w.data, w.entities)
    &&& first + count <= w.data.sprite_renderer.len()
}

/// Adds a level to the world: a sprite for each tileset image of `images`, and
/// an entity for each tile of `layers` whose number is not zero. A tile's
/// number, less one, says which of `images` it is drawn from.
pub fn init_level(
    data: &mut Components,
    entities: &mut Vec<Entity>,
    images: &Vec<String>,
    layers: &Vec<Vec<Vec<u32>>>,
)
    requires
        well_formed(old(data)@, old(entities)@),
        tiles_known(layers@, images@.len()),
    ensures
        (WorldView { data: final(data)@, entities: final(entities)@ }) == level(
            WorldView { data: old(data)@, entities: old(entities)@ },
            images@,
            layers@,
        ),
        well_formed(final(data)@, final(entities)@),
        grown(old(data)@, final(data)@),
{
    let ghost start = WorldView { data: data@, entities: entities@ };
    let ghost first = data@.sprite_renderer.len();
    let mut sprite_renderer_ids: Vec<Id<SpriteRenderer>> = Vec::new();
    let mut i: usize = 0;
    while i < images.len()
        invariant
            i <= images.len(),
            first == start.data.sprite_renderer.len(),
            entities@ == start.entities,
            data@ == (ComponentsView {
                sprite_renderer: start.data.sprite_renderer + tile_sprites(images@, i as nat),
                ..start.data
            }),
            tile_sprites(images@, i as nat).len() == i,
            sprite_renderer_ids@.len() == i,
            forall|k: int| 0 <= k < i ==> (#[trigger] sprite_renderer_ids@[k]).index == first + k,
        decreases images.len() - i,
    {
        let path = "./assets/".to_owned().concat(images[i].as_str());
        let texture = Texture { path };
        let sprite_renderer = SpriteRenderer::from_texture_region(texture, [0, 0, 32, 32]);
        assert(data@.sprite_renderer.len() == first + i);
        let id = data.sprite_renderer.add(sprite_renderer);
        sprite_renderer_ids.push(id);
        assert(data@.sprite_renderer =~= start.data.sprite_renderer + tile_sprites(
            images@,
            (i + 1) as nat,
        ));
        i += 1;
    }
    let ghost loaded = WorldView { data: data@, entities: entities@ };
    let ghost count = images@.len();
    assert(well_formed(loaded.data, loaded.entities));
    let mut l: usize = 0;
    while l < layers.len()
        invariant
            l <= layers.len(),
            tiles_known(layers@, count),
            sprite_renderer_ids@.len() == count,
            forall|k: int| 0 <= k < count ==> (#[trigger] sprite_renderer_ids@[k]).index == first + k,
            placing(WorldView { data: data@, entities: entities@ }, first, count),
            grown(start.data, data@),
            (WorldView { data: data@, entities: entities@ }) == place_layers(
                loaded,
                layers@,
                first,
                l as nat,
            ),
        decreases layers.len() - l,
    {
        let layer = &layers[l];
        let ghost before_layer = WorldView { data: data@, entities: entities@ };
        let mut column: usize = 0;
        while column < layer.len()
            invariant
                column <= layer.len(),
                l < layers.len(),
                *layer == layers@[l as int],
                tiles_known(layers@, count),
                sprite_renderer_ids@.len() == count,
                forall|k: int|
                    0 <= k < count ==> (#[trigger] sprite_renderer_ids@[k]).index == first + k,
                placing(WorldView { data: data@, entities: entities@ }, first, count),
                grown(start.data, data@),
                (WorldView { data: data@, entities: entities@ }) == place_layer(
                    before_layer,
                    layer@,
                    first,
                    column as nat,
                ),
            decreases layer.len() - column,
        {
            let tile_column = &layer[column];
            let ghost before_column = WorldView { data: data@, entities: entities@ };
            let mut row: usize = 0;
            while row < tile_column.len()
                invariant
                    row <= tile_column.len(),
                    l < layers.len(),
                    column < layer.len(),
                    *layer == layers@[l as int],
                    *tile_column == layer@[column as int],
                    tiles_known(layers@, count),
                    sprite_renderer_ids@.len() == count,
                    forall|k: int|
                        0 <= k < count ==> (#[trigger] sprite_renderer_ids@[k]).index == first + k,
                    placing(WorldView { data: data@, entities: entities@ }, first, count),
                    grown(start.data, data@),
                    (WorldView { data: data@, entities: entities@ }) == place_column(
                        before_column,
                        tile_column@,
                        column as int,
                        first,
                        row as nat,
                    ),
                decreases tile_column.len() - row,
            {
                let tile = tile_column[row];
                if !(tile < 1u32) {
                    assert(tile == layers@[l as int]@[column as int]@[row as int]);
                    let ghost now = WorldView { data: data@, entities: entities@ };
                    let tile_entity = Entity {
                        position: Some(
                            data.position.add(
                                Position {
                                    x: saturate(row as i128 * TILE as i128),
                                    y: saturate(column as i128 * TILE as i128),
                                },
                            ),
                        ),
                        sprite_renderer: Some(sprite_renderer_ids[(tile - 1) as usize]),
                        sprite_animator: None,
                        player_controller: None,
                        camera_target: None,
                        collider: Some(data.collider.add(AABBCollider { width: TILE, height: TILE })),
                        dynamic_body: None,
                        audio_source: None,
                        weapon: None,
                        bullet: None,
                        event_receiver: None,
                    };
                    assert(tile_entity == crate::level::tile_entity(now, tile, first));
                    entities.push(tile_entity);
                }
                row += 1;
            }
            column += 1;
        }
        l += 1;
    }
}

/// A walking animation: the four frames of `row`, a tenth of a second each.
pub open spec fn walk_cycle(row: i32) -> SpriteAnimationView {
    SpriteAnimationView {
        frame_size: [32i32, 32i32],
        frame_duration: 1_000,
        frames: seq![(0i32, row), (1i32, row), (2i32, row), (3i32, row)],
    }
}

/// An idle animation: the first frame of `row`.
pub open spec fn still(row: i32) -> SpriteAnimationView {
    SpriteAnimationView {
        frame_size: [32i32, 32i32],
        frame_duration: 1_000,
        frames: seq![(0i32, row)],
    }
}

/// The controller of a new player: it stands on the floor, aims nowhere,
/// moves a pixel per frame, checks for ground with a box of 36 pixels, and
/// takes its animations from the rows of the sprite sheet: ahead from the
/// first, up from the second, up and ahead from the third, down and ahead
/// from the fourth, down from the fifth.
pub open spec fn new_player() -> PlayerControllerView {
    PlayerControllerView {
        move_speed: 10_000,
        state: PlayerState::OnFloor,
        ground_check: AABBCollider { width: 360_000, height: 360_000 },
        aim_direction: Vector2 { x: 0, y: 0 },
        idle_anim: still(0),
        walk_anim: walk_cycle(0),
        walk_anim_aim_up: walk_cycle(1),
        walk_anim_aim_down: walk_cycle(4),
        walk_anim_aim_up_forward: walk_cycle(2),
        walk_anim_aim_down_forward: walk_cycle(3),
        idle_anim_aim_up: still(1),
        idle_anim_aim_down: still(4),
        idle_anim_aim_up_forward: still(2),
        idle_anim_aim_down_forward: still(3),
        jump_sound: "assets/Jump.wav"@,
        land_sound: "assets/Land.wav"@,
    }
}

/// The sprite of a new player: the first frame of the player's sprite sheet.
pub open spec fn player_sprite() -> SpriteView {
    SpriteView {
        texture: "./assets/player.png"@,
        src_rect: Some([0i32, 0i32, 32i32, 32i32]),
        position: Vector2 { x: 0, y: 0 },
        rotation: Rotation { facing: Vector2 { x: 0, y: 0 }, degrees: 0 },
        flip_x: false,
    }
}

/// The entity of a player that is added to the world `c`: it has one
/// component of every kind but the bullet mark, each the next of its store.
pub open spec fn player_entity(c: ComponentsView) -> Entity {
    Entity {
        position: Some(Id { index: c.position.len() as usize, kind: PhantomData }),
        sprite_renderer: Some(Id { index: c.sprite_renderer.len() as usize, kind: PhantomData }),
        sprite_animator: Some(Id { index: c.sprite_animator.len() as usize, kind: PhantomData }),
        player_controller: Some(
            Id { index: c.player_controller.len() as usize, kind: PhantomData },
        ),
        camera_target: Some(Id { index: c.camera_target.len() as usize, kind: PhantomData }),
        collider: Some(Id { index: c.collider.len() as usize, kind: PhantomData }),
        dynamic_body: Some(Id { index: c.dynamic_body.len() as usize, kind: PhantomData }),
        audio_source: Some(Id { index: c.audio_source.len() as usize, kind: PhantomData }),
        weapon: Some(Id { index: c.weapon.len() as usize, kind: PhantomData }),
        bullet: None,
        event_receiver: Some(Id { index: c.event_receiver.len() as usize, kind: PhantomData }),
    }
}

/// The stores after the components of a player made at `time` have been
/// added: the player is at (64, 96) and at rest, has a box of 32 pixels,
/// shows its idle animation from `time` on, is the camera's target, and has
/// a new weapon, a silent audio source and an empty event receiver.
pub open spec fn with_player(c: ComponentsView, time: Time) -> ComponentsView {
    ComponentsView {
        position: c.position.push(Position { x: 640_000, y: 960_000 }),
        sprite_renderer: c.sprite_renderer.push(player_sprite()),
        sprite_animator: c.sprite_animator.push(
            SpriteAnimatorView { animation: still(0), start_time: time },
        ),
        player_controller: c.player_controller.push(new_player()),
        camera_target: c.camera_target.push(CameraTarget),
        collider: c.collider.push(AABBCollider { width: TILE, height: TILE }),
        dynamic_body: c.dynamic_body.push(DynamicBody { vx: 0, vy: 0 }),
        audio_source: c.audio_source.push(
            AudioSourceView { source: Seq::empty(), buffer: Seq::empty() },
        ),
        weapon: c.weapon.push(
            WeaponView {
                fire_delay: 500,
                bullet_speed: 30_000,
                fire_timer: 0,
                fire_sound: "assets/Shoot.wav"@,
                firing: false,
                fire_direction: Vector2 { x: 0, y: 0 },
            },
        ),
        bullet: c.bullet,
        event_receiver: c.event_receiver.push(Seq::empty()),
    }
}

/// The four frames of `row`, a tenth of a second each.
fn walk_animation(row: i32) -> (r: SpriteAnimation)
    ensures
        r@ == walk_cycle(row),
{
    let mut frames: Vec<(i32, i32)> = Vec::new();
    frames.push((0, row));
    frames.push((1, row));
    frames.push((2, row));
    frames.push((3, row));
    assert(frames@ =~= seq![(0i32, row), (1i32, row), (2i32, row), (3i32, row)]);
    SpriteAnimation { frames, frame_size: [32, 32], frame_duration: 1_000 }
}

/// The first frame of `row`.
fn idle_animation(row: i32) -> (r: SpriteAnimation)
    ensures
        r@ == still(row),
{
    let mut frames: Vec<(i32, i32)> = Vec::new();
    frames.push((0, row));
    assert(frames@ =~= seq![(0i32, row)]);
    SpriteAnimation { frames, frame_size: [32, 32], frame_duration: 1_000 }
}

/// Adds the components of a player, made at `time`, to the stores, and
/// returns its entity, which the caller adds to the world.
pub fn spawn_player(data: &mut Components, time: Time) -> (player: Entity)
    ensures
        final(data)@ == with_player(old(data)@, time),
        player == player_entity(old(data)@),
        valid(final(data)@, player),
{
    let player_sprite_sheet = Texture { path: "./assets/player.png".to_owned() };
    let idle_anim = idle_animation(0);
    let walk_anim = walk_animation(0);
    let walk_anim_aim_up = walk_animation(1);
    let idle_anim_aim_up = idle_animation(1);
    let walk_anim_aim_up_forward = walk_animation(2);
    let idle_anim_aim_up_forward = idle_animation(2);
    let walk_anim_aim_down_forward = walk_animation(3);
    let idle_anim_aim_down_forward = idle_animation(3);
    let walk_anim_aim_down = walk_animation(4);
    let idle_anim_aim_down = idle_animation(4);
    let sprite_renderer = SpriteRenderer::from_texture_region(player_sprite_sheet, [0, 0, 32, 32]);
    let sprite_animator = SpriteAnimator { animation: idle_anim.clone(), start_time: time };
    let mut jump_sound = Buffer::new();
    load_buffer("assets/Jump.wav", &mut jump_sound);
    let mut land_sound = Buffer::new();
    load_buffer("assets/Land.wav", &mut land_sound);
    let player_controller = PlayerController {
        move_speed: 10_000,
        state: PlayerState::OnFloor,
        ground_check: AABBCollider { width: 360_000, height: 360_000 },
        aim_direction: Vector2 { x: 0, y: 0 },
        idle_anim,
        walk_anim,
        walk_anim_aim_up,
        walk_anim_aim_down,
        walk_anim_aim_up_forward,
        walk_anim_aim_down_forward,
        idle_anim_aim_up,
        idle_anim_aim_down,
        idle_anim_aim_up_forward,
        idle_anim_aim_down_forward,
        land_sound,
        jump_sound,
    };
    Entity {
        position: Some(data.position.add(Position { x: 640_000, y: 960_000 })),
        sprite_renderer: Some(data.sprite_renderer.add(sprite_renderer)),
        sprite_animator: Some(data.sprite_animator.add(sprite_animator)),
        player_controller: Some(data.player_controller.add(player_controller)),
        camera_target: Some(data.camera_target.add(CameraTarget)),
        collider: Some(data.collider.add(AABBCollider { width: TILE, height: TILE })),
        dynamic_body: Some(data.dynamic_body.add(DynamicBody { vx: 0, vy: 0 })),
        audio_source: Some(data.audio_source.add(AudioSource::new())),
        weapon: Some(data.weapon.add(Weapon::new())),
        bullet: None,
        event_receiver: Some(data.event_receiver.add(EventReceiver::new())),
    }
}

/// What the camera shows: the point at the centre of the view, and the size
/// of the view in pixels.
#[derive(Clone, Copy, Debug, PartialEq, Eq, Structural)]
pub struct Camera {
    pub x: i32,
    pub y: i32,
    pub viewport_width: u32,
    pub viewport_height: u32,
}

/// Whether the camera follows `e`: it has a position and is a camera target.
pub open spec fn followed(e: Entity) -> bool {
    e.position is Some && e.camera_target is Some
}

/// The point that the camera looks at, going by the entities from the one at
/// `i` on: the position of the first that it follows, and the origin if it
/// follows none.
pub open spec fn focus_from(w: WorldView, i: nat) -> Position
    decreases w.entities.len() - i,
{
    if i >= w.entities.len() {
        Position { x: 0, y: 0 }
    } else if followed(w.entities[i as int]) {
        w.data.position[w.entities[i as int].position->0.index as int]
    } else {
        focus_from(w, i + 1)
    }
}

/// The point that the camera looks at: the position of the first entity that
/// it follows, and the origin if it follows none.
pub open spec fn focus(w: WorldView) -> Position {
    focus_from(w, 0)
}

/// The camera for a view of the given size: it looks at the first entity that
/// it follows.
pub fn get_camera_context(
    world: &World,
    viewport_width: u32,
    viewport_height: u32,
) -> (camera: Camera)
    requires
        world.well_formed(),
    ensures
        camera == (Camera {
            x: focus(world@).x,
            y: focus(world@).y,
            viewport_width,
            viewport_height,
        }),
{
    let mut camera = Position { x: 0, y: 0 };
    let mut i: usize = 0;
    while i < world.entities.len()
        invariant_except_break
            i <= world.entities.len(),
            world.well_formed(),
            camera == (Position { x: 0, y: 0 }),
            focus(world@) == focus_from(world@, i as nat),
        ensures
            camera == focus(world@),
        decreases world.entities.len() - i,
    {
        let entity = world.entities[i];
        match (entity.position, entity.camera_target) {
            (Some(position_id), Some(_)) => {
                let position = world.data.position.get(position_id);
                camera = *position;
                break ;
            },
            _ => {},
        }
        i += 1;
    }
    Camera { x: camera.x, y: camera.y, viewport_width, viewport_height }
}

} // verus!
