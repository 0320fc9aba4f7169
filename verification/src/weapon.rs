//! Weapons and bullets: when a weapon fires, what a bullet is made of, and when
//! a bullet leaves the world.

use vstd::prelude::*;
use core::marker::PhantomData;
use crate::audio::{load_buffer, played};
use crate::fixed::{clamp, quotient, saturate, ONE};
use crate::store::Id;
use crate::vector::{scaled, sum, Vector2};
use crate::world::{
    valid, AABBCollider, Buffer, Bullet, Components, ComponentsView, DynamicBody, Entity, Event,
    EventReceiver, Position, RequestView, Rotation, SpriteRenderer, SpriteView, Texture, Weapon,
    WeaponView,
};

verus! {

/// The time that passes in one frame: a thousandth of a second.
pub const TICK: i32 = 10;

/// How far from its owner a bullet starts: 32 pixels.
pub const MUZZLE: i32 = 320_000;

/// The width and the height of a bullet's box: 8 pixels.
pub const BULLET_SIZE: i32 = 80_000;

impl Weapon {
    /// A weapon that fires every twentieth of a second, bullets that fly
    /// three pixels per frame; ready to fire, and holding fire.
    pub fn new() -> (r: Weapon)
        ensures
            r@ == (WeaponView {
                fire_delay: 500,
                bullet_speed: 30_000,
                fire_timer: 0,
                fire_sound: "assets/Shoot.wav"@,
                firing: false,
                fire_direction: Vector2 { x: 0, y: 0 },
            }),
    {
        let mut fire_sound = Buffer::new();
        load_buffer("assets/Shoot.wav", &mut fire_sound);
        Weapon {
            fire_delay: 500,
            bullet_speed: 30_000,
            fire_timer: 0,
            fire_sound,
            firing: false,
            fire_direction: Vector2 { x: 0, y: 0 },
        }
    }
}

/// Whether the weapon step runs for `e`: it has a weapon, a position and an
/// audio source.
pub open spec fn shoots(e: Entity) -> bool {
    e.weapon is Some && e.position is Some && e.audio_source is Some
}

/// The timer of `w` after one frame.
pub open spec fn cooled(w: WeaponView) -> int {
    clamp(w.fire_timer - TICK)
}

/// Whether `w` fires this frame: it is firing, and its timer has run out.
pub open spec fn fires(w: WeaponView) -> bool {
    w.firing && cooled(w) <= 0
}

/// Where a bullet starts that is fired along `direction` from `position`.
pub open spec fn bullet_origin(position: Position, direction: Vector2) -> Position {
    let origin = sum(scaled(direction, MUZZLE as int), Vector2 { x: position.x, y: position.y });
    Position { x: origin.x, y: origin.y }
}

/// The velocity of a bullet fired along `direction` at `speed`.
pub open spec fn bullet_velocity(direction: Vector2, speed: i32) -> DynamicBody {
    let velocity = scaled(direction, speed as int);
    DynamicBody { vx: velocity.x, vy: velocity.y }
}

/// The sprite of a bullet fired along `direction`: the bullet image, turned a
/// quarter past `direction`.
pub open spec fn bullet_sprite(direction: Vector2) -> SpriteView {
    SpriteView {
        texture: "./assets/Bullet.png"@,
        src_rect: Some([0i32, 0i32, 8i32, 8i32]),
        position: Vector2 { x: 0, y: 0 },
        rotation: Rotation { facing: direction, degrees: 90 },
        flip_x: false,
    }
}

/// The entity of a bullet that is added to the world `c`: its components are
/// the next ones of their stores.
pub open spec fn bullet_entity(c: ComponentsView) -> Entity {
    Entity {
        position: Some(Id { index: c.position.len() as usize, kind: PhantomData }),
        sprite_renderer: Some(Id { index: c.sprite_renderer.len() as usize, kind: PhantomData }),
        sprite_animator: None,
        player_controller: None,
        camera_target: None,
        collider: Some(Id { index: c.collider.len() as usize, kind: PhantomData }),
        dynamic_body: Some(Id { index: c.dynamic_body.len() as usize, kind: PhantomData }),
        audio_source: None,
        weapon: None,
        bullet: Some(Id { index: c.bullet.len() as usize, kind: PhantomData }),
        event_receiver: Some(Id { index: c.event_receiver.len() as usize, kind: PhantomData }),
    }
}

/// Whether the weapon of `e` fires this frame.
pub open spec fn spawns(c: ComponentsView, e: Entity) -> bool {
    shoots(e) && fires(c.weapon[e.weapon->0.index as int])
}

/// The world after the weapon of `e` has had its frame. Its timer runs down by
/// a tick. If it then fires, its audio source is asked for the fire sound, its
/// timer starts again at the fire delay, and the components of a bullet are
/// added: a position a muzzle length along the fire direction from the
/// owner's, the velocity of the bullet speed along that direction, a box, a
/// sprite, the bullet mark and an empty event receiver.
pub open spec fn weapon_step(c: ComponentsView, e: Entity) -> ComponentsView
    recommends
        shoots(e),
{
    let w = c.weapon[e.weapon->0.index as int];
    if fires(w) {
        ComponentsView {
            weapon: c.weapon.update(
                e.weapon->0.index as int,
                WeaponView { fire_timer: w.fire_delay, ..w },
            ),
            audio_source: c.audio_source.update(
                e.audio_source->0.index as int,
                played(c.audio_source[e.audio_source->0.index as int], w.fire_sound),
            ),
            position: c.position.push(
                bullet_origin(c.position[e.position->0.index as int], w.fire_direction),
            ),
            sprite_renderer: c.sprite_renderer.push(bullet_sprite(w.fire_direction)),
            collider: c.collider.push(AABBCollider { width: BULLET_SIZE, height: BULLET_SIZE }),
            dynamic_body: c.dynamic_body.push(bullet_velocity(w.fire_direction, w.bullet_speed)),
            bullet: c.bullet.push(Bullet),
            event_receiver: c.event_receiver.push(Seq::empty()),
            ..c
        }
    } else {
        ComponentsView {
            weapon: c.weapon.update(
                e.weapon->0.index as int,
                WeaponView { fire_timer: cooled(w) as i32, ..w },
            ),
            ..c
        }
    }
}

/// The world after the weapons of the first `n` entities have had their
/// frame, in order.
pub open spec fn weapons_run(c: ComponentsView, entities: Seq<Entity>, n: nat) -> ComponentsView
    decreases n,
{
    if n == 0 {
        c
    } else {
        let before = weapons_run(c, entities, (n - 1) as nat);
        if shoots(entities[n - 1]) {
            weapon_step(before, entities[n - 1])
        } else {
            before
        }
    }
}

/// The bullets that the weapons of the first `n` entities fire, in order.
pub open spec fn bullets(c: ComponentsView, entities: Seq<Entity>, n: nat) -> Seq<Entity>
    decreases n,
{
    if n == 0 {
        Seq::empty()
    } else {
        let before = weapons_run(c, entities, (n - 1) as nat);
        let fired = bullets(c, entities, (n - 1) as nat);
        if spawns(before, entities[n - 1]) {
            fired.push(bullet_entity(before))
        } else {
            fired
        }
    }
}

/// Whether `event` is a collision.
pub open spec fn is_collision(event: Event) -> bool {
    event is Collision
}

/// Whether `queue` holds a collision.
pub open spec fn has_collision(queue: Seq<Event>) -> bool {
    exists|k: int| 0 <= k < queue.len() && is_collision(#[trigger] queue[k])
}

/// Whether `e` is a bullet that has hit something this frame.
pub open spec fn spent(c: ComponentsView, e: Entity) -> bool {
    e.bullet is Some && e.event_receiver is Some && has_collision(
        c.event_receiver[e.event_receiver->0.index as int],
    )
}

/// Those of the first `n` entities that stay in the world, in order: all but
/// the spent bullets.
pub open spec fn kept(c: ComponentsView, entities: Seq<Entity>, n: nat) -> Seq<Entity>
    decreases n,
{
    if n == 0 {
        Seq::empty()
    } else {
        let before = kept(c, entities, (n - 1) as nat);
        if spent(c, entities[n - 1]) {
            before
        } else {
            before.push(entities[n - 1])
        }
    }
}

/// A weapon that is firing with its timer run out fires: exactly one bullet is
/// added, with the position, velocity, box and sprite that the fire direction
/// gives it, the fire sound is asked for once, and the timer starts again at
/// the fire delay.
pub proof fn lemma_ready_weapon_fires(c: ComponentsView, e: Entity)
    requires
        valid(c, e),
        shoots(e),
        c.weapon[e.weapon->0.index as int].firing,
        c.weapon[e.weapon->0.index as int].fire_timer <= 0,
    ensures
        spawns(c, e),
        ({
            let w = c.weapon[e.weapon->0.index as int];
            let after = weapon_step(c, e);
            &&& after.weapon[e.weapon->0.index as int].fire_timer == w.fire_delay
            &&& after.audio_source[e.audio_source->0.index as int].source
                == c.audio_source[e.audio_source->0.index as int].source.push(
                RequestView { buffer: w.fire_sound, stop: true },
            )
            &&& after.bullet.len() == c.bullet.len() + 1
            &&& after.position.len() == c.position.len() + 1
            &&& after.position.last() == bullet_origin(
                c.position[e.position->0.index as int],
                w.fire_direction,
            )
            &&& after.dynamic_body.last() == bullet_velocity(w.fire_direction, w.bullet_speed)
            &&& after.collider.last() == (AABBCollider { width: BULLET_SIZE, height: BULLET_SIZE })
            &&& after.sprite_renderer.last() == bullet_sprite(w.fire_direction)
            &&& after.event_receiver.last() == Seq::<Event>::empty()
        }),
{
}

/// A weapon that holds fire adds no bullet, whatever its timer says: only its
/// timer changes.
pub proof fn lemma_idle_weapon_holds(c: ComponentsView, e: Entity)
    requires
        shoots(e),
        !c.weapon[e.weapon->0.index as int].firing,
    ensures
        !spawns(c, e),
        weapon_step(c, e) == (ComponentsView { weapon: weapon_step(c, e).weapon, ..c }),
{
}

/// Within the range of a scalar, a bullet starts at its owner's position plus
/// 32 times the fire direction.
pub proof fn lemma_bullet_origin(position: Position, direction: Vector2)
    requires
        i32::MIN <= position.x + 32 * direction.x <= i32::MAX,
        i32::MIN <= position.y + 32 * direction.y <= i32::MAX,
        i32::MIN <= 32 * direction.x <= i32::MAX,
        i32::MIN <= 32 * direction.y <= i32::MAX,
    ensures
        bullet_origin(position, direction).x == position.x + 32 * direction.x,
        bullet_origin(position, direction).y == position.y + 32 * direction.y,
{
    lemma_muzzle(direction.x as int);
    lemma_muzzle(direction.y as int);
}

/// A muzzle length times `x`, as a fixed-point product, is 32 times `x`.
proof fn lemma_muzzle(x: int)
    ensures
        quotient(x * MUZZLE, ONE as int) == 32 * x,
{
    assert(x * MUZZLE == (32 * x) * 10_000) by (nonlinear_arith)
        requires
            MUZZLE == 320_000,
    ;
    assert(-(x * MUZZLE) == (-32 * x) * 10_000) by (nonlinear_arith)
        requires
            MUZZLE == 320_000,
    ;
    if x >= 0 {
        assert(((32 * x) * 10_000) / 10_000 == 32 * x) by (nonlinear_arith);
    } else {
        assert(((-32 * x) * 10_000) / 10_000 == -32 * x) by (nonlinear_arith);
    }
}

/// The weapons leave the receivers that were there as they were, and every
/// bullet fired has a receiver of its own, added empty.
pub proof fn lemma_fired_bullets_are_fresh(c: ComponentsView, entities: Seq<Entity>, n: nat)
    requires
        n <= entities.len(),
        weapons_run(c, entities, n).event_receiver.len() <= usize::MAX,
    ensures
        ({
            let after = weapons_run(c, entities, n);
            let fired = bullets(c, entities, n);
            &&& c.event_receiver.len() <= after.event_receiver.len()
            &&& forall|k: int|
                0 <= k < c.event_receiver.len() ==> after.event_receiver[k] == c.event_receiver[k]
            &&& forall|k: int|
                c.event_receiver.len() <= k < after.event_receiver.len()
                    ==> after.event_receiver[k] == Seq::<Event>::empty()
            &&& forall|j: int|
                0 <= j < fired.len() ==> (#[trigger] fired[j]).event_receiver is Some
                    && c.event_receiver.len() <= fired[j].event_receiver->0.index
                    < after.event_receiver.len()
        }),
    decreases n,
{
    if n > 0 {
        lemma_receivers_grow(c, entities, (n - 1) as nat, n);
        lemma_fired_bullets_are_fresh(c, entities, (n - 1) as nat);
    }
}

/// The weapons never take a receiver away.
proof fn lemma_receivers_grow(c: ComponentsView, entities: Seq<Entity>, m: nat, n: nat)
    requires
        m <= n,
    ensures
        weapons_run(c, entities, m).event_receiver.len() <= weapons_run(
            c,
            entities,
            n,
        ).event_receiver.len(),
    decreases n,
{
    if m < n {
        lemma_receivers_grow(c, entities, m, (n - 1) as nat);
    }
}

/// A queue without events holds no collision.
proof fn lemma_empty_queue()
    ensures
        !has_collision(Seq::<Event>::empty()),
{
}

/// What stays of the first `n` entities holds no spent bullet, and holds
/// every one of them that is not spent.
pub proof fn lemma_kept(c: ComponentsView, entities: Seq<Entity>, n: nat)
    requires
        n <= entities.len(),
    ensures
        forall|j: int|
            0 <= j < kept(c, entities, n).len() ==> !spent(c, #[trigger] kept(c, entities, n)[j]),
        forall|i: int|
            0 <= i < n && !spent(c, #[trigger] entities[i]) ==> kept(c, entities, n).contains(
                entities[i],
            ),
    decreases n,
{
    if n > 0 {
        lemma_kept(c, entities, (n - 1) as nat);
        let before = kept(c, entities, (n - 1) as nat);
        let now = kept(c, entities, n);
        assert forall|i: int| 0 <= i < n && !spent(c, #[trigger] entities[i]) implies now.contains(
            entities[i],
        ) by {
            if i < n - 1 {
                let j = choose|j: int| 0 <= j < before.len() && before[j] == entities[i];
                assert(now[j] == entities[i]);
            } else {
                assert(now[now.len() - 1] == entities[i]);
            }
        }
    }
}

/// After a frame of the player system no spent bullet is left in the world:
/// whatever is among the entities, old or new, has not hit anything this
/// frame. Here `c` is the world after the players have been dealt with.
pub proof fn lemma_spent_bullets_leave(c: ComponentsView, entities: Seq<Entity>, x: Entity)
    requires
        weapons_run(c, entities, entities.len()).event_receiver.len() <= usize::MAX,
        (kept(weapons_run(c, entities, entities.len()), entities, entities.len()) + bullets(
            c,
            entities,
            entities.len(),
        ).reverse()).contains(x),
    ensures
        !spent(weapons_run(c, entities, entities.len()), x),
{
    let n = entities.len();
    let after = weapons_run(c, entities, n);
    let stay = kept(after, entities, n);
    let fired = bullets(c, entities, n).reverse();
    let all = stay + fired;
    let j = choose|j: int| 0 <= j < all.len() && all[j] == x;
    lemma_kept(after, entities, n);
    lemma_fired_bullets_are_fresh(c, entities, n);
    lemma_empty_queue();
    if j < stay.len() {
        assert(all[j] == stay[j]);
    } else {
        let k = j - stay.len();
        assert(all[j] == fired[k]);
        assert(fired[k] == bullets(c, entities, n)[fired.len() - 1 - k]);
    }
}

/// Every bullet fired in a frame is in the world after that frame: none is
/// taken out in the frame it was fired in.
pub proof fn lemma_fired_bullets_stay(c: ComponentsView, entities: Seq<Entity>, j: int)
    requires
        0 <= j < bullets(c, entities, entities.len()).len(),
    ensures
        (kept(weapons_run(c, entities, entities.len()), entities, entities.len()) + bullets(
            c,
            entities,
            entities.len(),
        ).reverse()).contains(bullets(c, entities, entities.len())[j]),
{
    let n = entities.len();
    let after = weapons_run(c, entities, n);
    let stay = kept(after, entities, n);
    let fired = bullets(c, entities, n).reverse();
    let all = stay + fired;
    let k = fired.len() - 1 - j;
    assert(fired[k] == bullets(c, entities, n)[j]);
    assert(all[stay.len() + k] == fired[k]);
}

/// Gives the weapon of `entity` its frame; returns the bullet if it fires.
pub fn update_weapon(entity: &Entity, components: &mut Components) -> (bullet: Option<Entity>)
    requires
        shoots(*entity),
        valid(old(components)@, *entity),
    ensures
        final(components)@ == weapon_step(old(components)@, *entity),
        bullet == (if spawns(old(components)@, *entity) {
            Some(bullet_entity(old(components)@))
        } else {
            None
        }),
{
    let weapon_id = entity.weapon.unwrap();
    let position = *components.position.get(entity.position.unwrap());
    let source_id = entity.audio_source.unwrap();
    let weapon = components.weapon.get(weapon_id);
    let timer: i32 = saturate(weapon.fire_timer as i128 - TICK as i128);
    if weapon.firing && !(timer > 0) {
        let sound = weapon.fire_sound.clone();
        let fire_direction = weapon.fire_direction;
        let bullet_speed: i32 = weapon.bullet_speed;
        let fire_delay: i32 = weapon.fire_delay;
        let audio_source = components.audio_source.get_mut(source_id);
        audio_source.play_buffer(sound);
        let weapon = components.weapon.get_mut(weapon_id);
        weapon.fire_timer = fire_delay;
        let bullet_texture = Texture { path: "./assets/Bullet.png".to_owned() };
        let mut sprite_renderer = SpriteRenderer::from_texture_region(bullet_texture, [0, 0, 8, 8]);
        sprite_renderer.sprite.set_rotation_toward(fire_direction, 90);
        let velocity = fire_direction.scale(bullet_speed);
        let bullet_origin = fire_direction.scale(MUZZLE).plus(
            Vector2 { x: position.x, y: position.y },
        );
        let bullet_entity = Entity {
            position: Some(
                components.position.add(Position { x: bullet_origin.x, y: bullet_origin.y }),
            ),
            sprite_renderer: Some(components.sprite_renderer.add(sprite_renderer)),
            sprite_animator: None,
            player_controller: None,
            camera_target: None,
            collider: Some(
                components.collider.add(AABBCollider { width: BULLET_SIZE, height: BULLET_SIZE }),
            ),
            dynamic_body: Some(
                components.dynamic_body.add(DynamicBody { vx: velocity.x, vy: velocity.y }),
            ),
            audio_source: None,
            weapon: None,
            bullet: Some(components.bullet.add(Bullet)),
            event_receiver: Some(components.event_receiver.add(EventReceiver::new())),
        };
        Some(bullet_entity)
    } else {
        let weapon = components.weapon.get_mut(weapon_id);
        weapon.fire_timer = timer;
        None
    }
}

/// Whether `entity` is a bullet that has hit something this frame.
pub fn is_spent(entity: &Entity, components: &Components) -> (r: bool)
    requires
        valid(components@, *entity),
    ensures
        r == spent(components@, *entity),
{
    if let (Some(_), Some(receiver_id)) = (entity.bullet, entity.event_receiver) {
        let event_receiver = components.event_receiver.get(receiver_id);
        let mut colliding = false;
        let mut k: usize = 0;
        while k < event_receiver.event_queue.len()
            invariant
                k <= event_receiver.event_queue.len(),
                colliding == has_collision(event_receiver@.take(k as int)),
            decreases event_receiver.event_queue.len() - k,
        {
            match event_receiver.event_queue[k] {
                Event::Collision(_, _) => {
                    colliding = true;
                },
            }
            assert(is_collision(event_receiver@.take(k + 1)[k as int]));
            k += 1;
        }
        assert(event_receiver@.take(k as int) =~= event_receiver@);
        colliding
    } else {
        false
    }
}

} // verus!
