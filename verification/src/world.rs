//! The world: the kinds of component, the entity record, and the stores that
//! own every component.
//!
//! Components that own heap data have a view, a value of plain sequences, in
//! which contracts are written; the other components are their own views.

use vstd::prelude::*;
use crate::store::{Id, Store};
use crate::vector::Vector2;

verus! {

/// A point in time, in ten-thousandths of a second.
pub type Time = i64;

/// An image, named by the path of its file.
#[derive(Debug)]
pub struct Texture {
    pub path: String,
}

impl View for Texture {
    type V = Seq<char>;

    open spec fn view(&self) -> Seq<char> {
        self.path@
    }
}

/// A sound, named by the path of its file; the empty path names silence.
#[derive(Debug)]
pub struct Buffer {
    pub file: String,
}

impl View for Buffer {
    type V = Seq<char>;

    open spec fn view(&self) -> Seq<char> {
        self.file@
    }
}

impl Clone for Buffer {
    fn clone(&self) -> (r: Self)
        ensures
            r@ == self@,
    {
        Buffer { file: self.file.clone() }
    }
}

/// A run of frames on a sprite sheet: the size of a frame in pixels, the time
/// each frame is shown, and the column and row of each frame.
#[derive(Debug)]
pub struct SpriteAnimation {
    pub frame_size: [i32; 2],
    pub frame_duration: i32,
    pub frames: Vec<(i32, i32)>,
}

/// The view of a `SpriteAnimation`.
pub struct SpriteAnimationView {
    pub frame_size: [i32; 2],
    pub frame_duration: i32,
    pub frames: Seq<(i32, i32)>,
}

impl View for SpriteAnimation {
    type V = SpriteAnimationView;

    open spec fn view(&self) -> SpriteAnimationView {
        SpriteAnimationView {
            frame_size: self.frame_size,
            frame_duration: self.frame_duration,
            frames: self.frames@,
        }
    }
}

impl Clone for SpriteAnimation {
    fn clone(&self) -> (r: Self)
        ensures
            r@ == self@,
    {
        let mut frames: Vec<(i32, i32)> = Vec::new();
        let mut i: usize = 0;
        while i < self.frames.len()
            invariant
                i <= self.frames.len(),
                frames@ == self.frames@.take(i as int),
            decreases self.frames.len() - i,
        {
            frames.push(self.frames[i]);
            assert(frames@ =~= self.frames@.take(i + 1));
            i += 1;
        }
        assert(frames@ =~= self.frames@);
        SpriteAnimation {
            frame_size: self.frame_size,
            frame_duration: self.frame_duration,
            frames,
        }
    }
}

/// Where an entity is.
#[derive(Clone, Copy, Debug, PartialEq, Eq, Structural)]
pub struct Position {
    pub x: i32,
    pub y: i32,
}

impl View for Position {
    type V = Position;

    open spec fn view(&self) -> Position {
        *self
    }
}

/// How a sprite is turned: by the angle of `facing`, measured from the
/// positive x axis toward the positive y axis and taken as zero for the zero
/// vector, plus `degrees`.
#[derive(Clone, Copy, Debug, PartialEq, Eq, Structural)]
pub struct Rotation {
    pub facing: Vector2,
    pub degrees: i32,
}

/// What is drawn for an entity: an image, the part of it that shows (by its
/// left, top, right and bottom edge, in pixels; all of it if none is given),
/// and where and how it is placed.
#[derive(Debug)]
pub struct Sprite {
    pub texture: Texture,
    pub src_rect: Option<[i32; 4]>,
    pub position: Vector2,
    pub rotation: Rotation,
    pub flip_x: bool,
}

/// The view of a `Sprite`, and of a `SpriteRenderer`.
pub struct SpriteView {
    pub texture: Seq<char>,
    pub src_rect: Option<[i32; 4]>,
    pub position: Vector2,
    pub rotation: Rotation,
    pub flip_x: bool,
}

impl View for Sprite {
    type V = SpriteView;

    open spec fn view(&self) -> SpriteView {
        SpriteView {
            texture: self.texture@,
            src_rect: self.src_rect,
            position: self.position,
            rotation: self.rotation,
            flip_x: self.flip_x,
        }
    }
}

/// The component that draws an entity.
#[derive(Debug)]
pub struct SpriteRenderer {
    pub sprite: Sprite,
}

impl View for SpriteRenderer {
    type V = SpriteView;

    open spec fn view(&self) -> SpriteView {
        self.sprite@
    }
}

/// The component that animates an entity's sprite.
#[derive(Debug)]
pub struct SpriteAnimator {
    pub animation: SpriteAnimation,
    pub start_time: Time,
}

/// The view of a `SpriteAnimator`.
pub struct SpriteAnimatorView {
    pub animation: SpriteAnimationView,
    pub start_time: Time,
}

impl View for SpriteAnimator {
    type V = SpriteAnimatorView;

    open spec fn view(&self) -> SpriteAnimatorView {
        SpriteAnimatorView { animation: self.animation@, start_time: self.start_time }
    }
}

/// The surface a player stands on, if any.
#[derive(Clone, Copy, Debug, PartialEq, Eq, Structural)]
pub enum PlayerState {
    Flying,
    OnFloor,
    OnCeiling,
    OnLeftWall,
    OnRightWall,
}

/// The velocity of a moving entity, per frame.
#[derive(Clone, Copy, Debug, PartialEq, Eq, Structural)]
pub struct DynamicBody {
    pub vx: i32,
    pub vy: i32,
}

impl View for DynamicBody {
    type V = DynamicBody;

    open spec fn view(&self) -> DynamicBody {
        *self
    }
}

/// A box centred on its entity's position.
#[derive(Clone, Copy, Debug, PartialEq, Eq, Structural)]
pub struct AABBCollider {
    pub width: i32,
    pub height: i32,
}

impl View for AABBCollider {
    type V = AABBCollider;

    open spec fn view(&self) -> AABBCollider {
        *self
    }
}

/// The component that makes an entity a player.
#[derive(Debug)]
pub struct PlayerController {
    pub move_speed: i32,
    pub state: PlayerState,
    pub ground_check: AABBCollider,
    pub aim_direction: Vector2,
    pub idle_anim: SpriteAnimation,
    pub walk_anim: SpriteAnimation,
    pub walk_anim_aim_up: SpriteAnimation,
    pub walk_anim_aim_down: SpriteAnimation,
    pub walk_anim_aim_up_forward: SpriteAnimation,
    pub walk_anim_aim_down_forward: SpriteAnimation,
    pub idle_anim_aim_up: SpriteAnimation,
    pub idle_anim_aim_down: SpriteAnimation,
    pub idle_anim_aim_up_forward: SpriteAnimation,
    pub idle_anim_aim_down_forward: SpriteAnimation,
    pub jump_sound: Buffer,
    pub land_sound: Buffer,
}

/// The view of a `PlayerController`.
pub struct PlayerControllerView {
    pub move_speed: i32,
    pub state: PlayerState,
    pub ground_check: AABBCollider,
    pub aim_direction: Vector2,
    pub idle_anim: SpriteAnimationView,
    pub walk_anim: SpriteAnimationView,
    pub walk_anim_aim_up: SpriteAnimationView,
    pub walk_anim_aim_down: SpriteAnimationView,
    pub walk_anim_aim_up_forward: SpriteAnimationView,
    pub walk_anim_aim_down_forward: SpriteAnimationView,
    pub idle_anim_aim_up: SpriteAnimationView,
    pub idle_anim_aim_down: SpriteAnimationView,
    pub idle_anim_aim_up_forward: SpriteAnimationView,
    pub idle_anim_aim_down_forward: SpriteAnimationView,
    pub jump_sound: Seq<char>,
    pub land_sound: Seq<char>,
}

impl View for PlayerController {
    type V = PlayerControllerView;

    open spec fn view(&self) -> PlayerControllerView {
        PlayerControllerView {
            move_speed: self.move_speed,
            state: self.state,
            ground_check: self.ground_check,
            aim_direction: self.aim_direction,
            idle_anim: self.idle_anim@,
            walk_anim: self.walk_anim@,
            walk_anim_aim_up: self.walk_anim_aim_up@,
            walk_anim_aim_down: self.walk_anim_aim_down@,
            walk_anim_aim_up_forward: self.walk_anim_aim_up_forward@,
            walk_anim_aim_down_forward: self.walk_anim_aim_down_forward@,
            idle_anim_aim_up: self.idle_anim_aim_up@,
            idle_anim_aim_down: self.idle_anim_aim_down@,
            idle_anim_aim_up_forward: self.idle_anim_aim_up_forward@,
            idle_anim_aim_down_forward: self.idle_anim_aim_down_forward@,
            jump_sound: self.jump_sound@,
            land_sound: self.land_sound@,
        }
    }
}

/// The marker of the entity that the camera follows.
#[derive(Clone, Copy, Debug, PartialEq, Eq, Structural)]
pub struct CameraTarget;

impl View for CameraTarget {
    type V = CameraTarget;

    open spec fn view(&self) -> CameraTarget {
        *self
    }
}

/// A request to an audio source: to play `buffer`, after stopping what it
/// plays if `stop` is set.
#[derive(Debug)]
pub struct Request {
    pub buffer: Buffer,
    pub stop: bool,
}

/// The view of a `Request`.
pub struct RequestView {
    pub buffer: Seq<char>,
    pub stop: bool,
}

impl View for Request {
    type V = RequestView;

    open spec fn view(&self) -> RequestView {
        RequestView { buffer: self.buffer@, stop: self.stop }
    }
}

/// The voice of an audio source: the requests made of it and not yet carried
/// out, oldest first.
#[derive(Debug)]
pub struct Source {
    pub requests: Vec<Request>,
}

impl View for Source {
    type V = Seq<RequestView>;

    open spec fn view(&self) -> Seq<RequestView> {
        self.requests@.map_values(|r: Request| r@)
    }
}

/// The component that lets an entity make sounds.
#[derive(Debug)]
pub struct AudioSource {
    pub source: Source,
    pub buffer: Buffer,
}

/// The view of an `AudioSource`.
pub struct AudioSourceView {
    pub source: Seq<RequestView>,
    pub buffer: Seq<char>,
}

impl View for AudioSource {
    type V = AudioSourceView;

    open spec fn view(&self) -> AudioSourceView {
        AudioSourceView { source: self.source@, buffer: self.buffer@ }
    }
}

/// The component that lets an entity shoot.
#[derive(Debug)]
pub struct Weapon {
    pub fire_delay: i32,
    pub bullet_speed: i32,
    pub fire_timer: i32,
    pub fire_sound: Buffer,
    pub firing: bool,
    pub fire_direction: Vector2,
}

/// The view of a `Weapon`.
pub struct WeaponView {
    pub fire_delay: i32,
    pub bullet_speed: i32,
    pub fire_timer: i32,
    pub fire_sound: Seq<char>,
    pub firing: bool,
    pub fire_direction: Vector2,
}

impl View for Weapon {
    type V = WeaponView;

    open spec fn view(&self) -> WeaponView {
        WeaponView {
            fire_delay: self.fire_delay,
            bullet_speed: self.bullet_speed,
            fire_timer: self.fire_timer,
            fire_sound: self.fire_sound@,
            firing: self.firing,
            fire_direction: self.fire_direction,
        }
    }
}

/// The marker of a bullet.
#[derive(Clone, Copy, Debug, PartialEq, Eq, Structural)]
pub struct Bullet;

impl View for Bullet {
    type V = Bullet;

    open spec fn view(&self) -> Bullet {
        *self
    }
}

/// Something that happened to an entity during a frame.
#[derive(Clone, Copy, Debug)]
pub enum Event {
    /// Two colliders met.
    Collision(Id<AABBCollider>, Id<AABBCollider>),
}

/// The component that collects an entity's events of the current frame.
#[derive(Debug)]
pub struct EventReceiver {
    pub event_queue: Vec<Event>,
}

impl View for EventReceiver {
    type V = Seq<Event>;

    open spec fn view(&self) -> Seq<Event> {
        self.event_queue@
    }
}

/// The keys that are held down.
#[derive(Clone, Copy, Debug, PartialEq, Eq, Structural)]
pub struct ControlState {
    pub move_left: bool,
    pub move_right: bool,
    pub move_up: bool,
    pub move_down: bool,
    pub aim_left: bool,
    pub aim_right: bool,
    pub aim_up: bool,
    pub aim_down: bool,
}

/// An entity: for each kind of component, the handle of the one it has.
#[derive(Clone, Copy, Debug)]
pub struct Entity {
    pub position: Option<Id<Position>>,
    pub sprite_renderer: Option<Id<SpriteRenderer>>,
    pub sprite_animator: Option<Id<SpriteAnimator>>,
    pub player_controller: Option<Id<PlayerController>>,
    pub camera_target: Option<Id<CameraTarget>>,
    pub collider: Option<Id<AABBCollider>>,
    pub dynamic_body: Option<Id<DynamicBody>>,
    pub audio_source: Option<Id<AudioSource>>,
    pub weapon: Option<Id<Weapon>>,
    pub bullet: Option<Id<Bullet>>,
    pub event_receiver: Option<Id<EventReceiver>>,
}

/// The stores of all kinds of component.
pub struct Components {
    pub position: Store<Position>,
    pub sprite_renderer: Store<SpriteRenderer>,
    pub sprite_animator: Store<SpriteAnimator>,
    pub player_controller: Store<PlayerController>,
    pub camera_target: Store<CameraTarget>,
    pub collider: Store<AABBCollider>,
    pub dynamic_body: Store<DynamicBody>,
    pub audio_source: Store<AudioSource>,
    pub weapon: Store<Weapon>,
    pub bullet: Store<Bullet>,
    pub event_receiver: Store<EventReceiver>,
}

/// The view of `Components`: what each store holds, slot by slot.
pub struct ComponentsView {
    pub position: Seq<Position>,
    pub sprite_renderer: Seq<SpriteView>,
    pub sprite_animator: Seq<SpriteAnimatorView>,
    pub player_controller: Seq<PlayerControllerView>,
    pub camera_target: Seq<CameraTarget>,
    pub collider: Seq<AABBCollider>,
    pub dynamic_body: Seq<DynamicBody>,
    pub audio_source: Seq<AudioSourceView>,
    pub weapon: Seq<WeaponView>,
    pub bullet: Seq<Bullet>,
    pub event_receiver: Seq<Seq<Event>>,
}

impl View for Components {
    type V = ComponentsView;

    open spec fn view(&self) -> ComponentsView {
        ComponentsView {
            position: self.position@,
            sprite_renderer: self.sprite_renderer@,
            sprite_animator: self.sprite_animator@,
            player_controller: self.player_controller@,
            camera_target: self.camera_target@,
            collider: self.collider@,
            dynamic_body: self.dynamic_body@,
            audio_source: self.audio_source@,
            weapon: self.weapon@,
            bullet: self.bullet@,
            event_receiver: self.event_receiver@,
        }
    }
}

/// Whether a handle, if there is one, names a slot among `len`.
pub open spec fn within<T>(id: Option<Id<T>>, len: nat) -> bool {
    id matches Some(i) ==> i.index < len
}

/// Whether every handle of `e` names a slot of its store.
pub open spec fn valid(c: ComponentsView, e: Entity) -> bool {
    &&& within(e.position, c.position.len())
    &&& within(e.sprite_renderer, c.sprite_renderer.len())
    &&& within(e.sprite_animator, c.sprite_animator.len())
    &&& within(e.player_controller, c.player_controller.len())
    &&& within(e.camera_target, c.camera_target.len())
    &&& within(e.collider, c.collider.len())
    &&& within(e.dynamic_body, c.dynamic_body.len())
    &&& within(e.audio_source, c.audio_source.len())
    &&& within(e.weapon, c.weapon.len())
    &&& within(e.bullet, c.bullet.len())
    &&& within(e.event_receiver, c.event_receiver.len())
}

/// Whether every handle of every entity names a slot of its store.
pub open spec fn well_formed(c: ComponentsView, entities: Seq<Entity>) -> bool {
    forall|i: int| 0 <= i < entities.len() ==> valid(c, #[trigger] entities[i])
}

/// Whether no store of `after` is shorter than that of `before`.
pub open spec fn grown(before: ComponentsView, after: ComponentsView) -> bool {
    &&& before.position.len() <= after.position.len()
    &&& before.sprite_renderer.len() <= after.sprite_renderer.len()
    &&& before.sprite_animator.len() <= after.sprite_animator.len()
    &&& before.player_controller.len() <= after.player_controller.len()
    &&& before.camera_target.len() <= after.camera_target.len()
    &&& before.collider.len() <= after.collider.len()
    &&& before.dynamic_body.len() <= after.dynamic_body.len()
    &&& before.audio_source.len() <= after.audio_source.len()
    &&& before.weapon.len() <= after.weapon.len()
    &&& before.bullet.len() <= after.bullet.len()
    &&& before.event_receiver.len() <= after.event_receiver.len()
}

/// Stores with nothing in them.
pub open spec fn no_components() -> ComponentsView {
    ComponentsView {
        position: Seq::empty(),
        sprite_renderer: Seq::empty(),
        sprite_animator: Seq::empty(),
        player_controller: Seq::empty(),
        camera_target: Seq::empty(),
        collider: Seq::empty(),
        dynamic_body: Seq::empty(),
        audio_source: Seq::empty(),
        weapon: Seq::empty(),
        bullet: Seq::empty(),
        event_receiver: Seq::empty(),
    }
}

/// Whether a handle, if there is one, names one of `len` slots.
fn is_within<T>(id: Option<Id<T>>, len: usize) -> (r: bool)
    ensures
        r == within(id, len as nat),
{
    match id {
        Some(i) => i.index < len,
        None => true,
    }
}

impl Components {
    /// Stores with nothing in them.
    pub fn new() -> (r: Self)
        ensures
            r@ == no_components(),
    {
        Components {
            position: Store::new(),
            sprite_renderer: Store::new(),
            sprite_animator: Store::new(),
            player_controller: Store::new(),
            camera_target: Store::new(),
            collider: Store::new(),
            dynamic_body: Store::new(),
            audio_source: Store::new(),
            weapon: Store::new(),
            bullet: Store::new(),
            event_receiver: Store::new(),
        }
    }

    /// Whether every handle of `e` names a slot of its store.
    pub fn holds(&self, e: &Entity) -> (r: bool)
        ensures
            r == valid(self@, *e),
    {
        is_within(e.position, self.position.len())
            && is_within(e.sprite_renderer, self.sprite_renderer.len())
            && is_within(e.sprite_animator, self.sprite_animator.len())
            && is_within(e.player_controller, self.player_controller.len())
            && is_within(e.camera_target, self.camera_target.len())
            && is_within(e.collider, self.collider.len())
            && is_within(e.dynamic_body, self.dynamic_body.len())
            && is_within(e.audio_source, self.audio_source.len())
            && is_within(e.weapon, self.weapon.len())
            && is_within(e.bullet, self.bullet.len())
            && is_within(e.event_receiver, self.event_receiver.len())
    }
}

/// The whole state of the game.
pub struct World {
    pub data: Components,
    pub entities: Vec<Entity>,
}

/// The view of a `World`.
pub struct WorldView {
    pub data: ComponentsView,
    pub entities: Seq<Entity>,
}

impl View for World {
    type V = WorldView;

    open spec fn view(&self) -> WorldView {
        WorldView { data: self.data@, entities: self.entities@ }
    }
}

impl World {
    /// Whether every handle of every entity names a slot of its store.
    pub open spec fn well_formed(&self) -> bool {
        well_formed(self.data@, self.entities@)
    }

    /// A world without entities or components.
    pub fn new() -> (r: Self)
        ensures
            r@ == (WorldView { data: no_components(), entities: Seq::empty() }),
            r.well_formed(),
    {
        World { data: Components::new(), entities: Vec::new() }
    }

    /// Whether every handle of every entity names a slot of its store.
    pub fn is_well_formed(&self) -> (r: bool)
        ensures
            r == self.well_formed(),
    {
        let mut i: usize = 0;
        while i < self.entities.len()
            invariant
                i <= self.entities.len(),
                forall|k: int| 0 <= k < i ==> valid(self.data@, #[trigger] self.entities@[k]),
            decreases self.entities.len() - i,
        {
            if !self.data.holds(&self.entities[i]) {
                return false;
            }
            i += 1;
        }
        true
    }
}

/// A unit of the game's logic, run once per frame against the world.
pub trait System {
    /// Advances the world by one frame's worth of this system's logic.
    fn update(
        &mut self,
        control_state: &ControlState,
        components: &mut Components,
        entities: &mut Vec<Entity>,
    )
        requires
            well_formed(old(components)@, old(entities)@),
        ensures
            well_formed(final(components)@, final(entities)@),
            grown(old(components)@, final(components)@),
    ;

    /// Prepares what this system shows of the world at `time`.
    fn render(&mut self, time: Time, components: &mut Components, entities: &mut Vec<Entity>)
        requires
            well_formed(old(components)@, old(entities)@),
        ensures
            well_formed(final(components)@, final(entities)@),
            grown(old(components)@, final(components)@),
    ;
}

} // verus!
