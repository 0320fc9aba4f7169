use space_roach::audio::AudioSystem;
use space_roach::level::spawn_player;
use space_roach::player::PlayerSystem;
use space_roach::weapon::{is_spent, update_weapon, BULLET_SIZE, MUZZLE, TICK};
use space_roach::store::Id;
use space_roach::vector::Vector2;
use space_roach::world::{
    AABBCollider, AudioSource, Bullet, Components, ControlState, DynamicBody, Entity, Event,
    EventReceiver, PlayerState, Position, Rotation, System, Weapon,
};

fn blank() -> Entity {
    Entity {
        position: None,
        sprite_renderer: None,
        sprite_animator: None,
        player_controller: None,
        camera_target: None,
        collider: None,
        dynamic_body: None,
        audio_source: None,
        weapon: None,
        bullet: None,
        event_receiver: None,
    }
}

fn idle() -> ControlState {
    ControlState {
        move_left: false,
        move_right: false,
        move_up: false,
        move_down: false,
        aim_left: false,
        aim_right: false,
        aim_up: false,
        aim_down: false,
    }
}

fn v(x: i32, y: i32) -> Vector2 {
    Vector2 { x, y }
}

// A turret at (`x`, `y`): a weapon, a position and an audio source.
fn turret(data: &mut Components, x: i32, y: i32, firing: bool, timer: i32, direction: Vector2) -> Entity {
    let mut weapon = Weapon::new();
    weapon.firing = firing;
    weapon.fire_timer = timer;
    weapon.fire_direction = direction;
    Entity {
        weapon: Some(data.weapon.add(weapon)),
        position: Some(data.position.add(Position { x, y })),
        audio_source: Some(data.audio_source.add(AudioSource::new())),
        ..blank()
    }
}

fn bullet(data: &mut Components, events: usize) -> Entity {
    let mut receiver = EventReceiver::new();
    for _ in 0..events {
        receiver.post_event(Event::Collision(
            Id { index: 0, kind: core::marker::PhantomData },
            Id { index: 1, kind: core::marker::PhantomData },
        ));
    }
    Entity {
        bullet: Some(data.bullet.add(Bullet)),
        event_receiver: Some(data.event_receiver.add(receiver)),
        ..blank()
    }
}

#[test]
fn constants_of_the_weapon() {
    assert_eq!(TICK, 10);
    assert_eq!(MUZZLE, 320_000);
    assert_eq!(BULLET_SIZE, 80_000);
}

#[test]
fn a_new_weapon() {
    let weapon = Weapon::new();
    assert_eq!(weapon.fire_delay, 500);
    assert_eq!(weapon.bullet_speed, 30_000);
    assert_eq!(weapon.fire_timer, 0);
    assert_eq!(weapon.fire_sound.file, "assets/Shoot.wav");
    assert!(!weapon.firing);
    assert_eq!(weapon.fire_direction, v(0, 0));
}

#[test]
fn a_ready_weapon_fires_one_bullet() {
    let mut data = Components::new();
    let t = turret(&mut data, 1_000_000, 2_000_000, true, 0, v(7_071, -7_071));
    let fired = update_weapon(&t, &mut data);
    let bullet = fired.unwrap();
    assert_eq!(data.bullet.len(), 1);
    assert_eq!(data.position.len(), 2);
    assert_eq!(
        *data.position.get(bullet.position.unwrap()),
        Position { x: 1_000_000 + 226_272, y: 2_000_000 - 226_272 }
    );
    assert_eq!(
        *data.dynamic_body.get(bullet.dynamic_body.unwrap()),
        DynamicBody { vx: 21_213, vy: -21_213 }
    );
    assert_eq!(
        *data.collider.get(bullet.collider.unwrap()),
        AABBCollider { width: 80_000, height: 80_000 }
    );
    assert!(data.event_receiver.get(bullet.event_receiver.unwrap()).event_queue.is_empty());
    assert!(bullet.bullet.is_some());
    assert!(bullet.weapon.is_none());
    assert!(bullet.audio_source.is_none());
    assert!(bullet.player_controller.is_none());
    assert!(bullet.sprite_animator.is_none());
    assert!(bullet.camera_target.is_none());
}

#[test]
fn a_bullet_looks_along_its_way() {
    let mut data = Components::new();
    let t = turret(&mut data, 0, 0, true, 0, v(0, 10_000));
    let bullet = update_weapon(&t, &mut data).unwrap();
    let sprite = &data.sprite_renderer.get(bullet.sprite_renderer.unwrap()).sprite;
    assert_eq!(sprite.texture.path, "./assets/Bullet.png");
    assert_eq!(sprite.src_rect, Some([0, 0, 8, 8]));
    assert_eq!(sprite.rotation, Rotation { facing: v(0, 10_000), degrees: 90 });
    assert_eq!(sprite.position, v(0, 0));
    assert!(!sprite.flip_x);
}

#[test]
fn firing_starts_the_timer_again_and_makes_the_sound() {
    let mut data = Components::new();
    let t = turret(&mut data, 0, 0, true, -12_345, v(10_000, 0));
    data.weapon.get_mut(t.weapon.unwrap()).fire_delay = 777;
    assert!(update_weapon(&t, &mut data).is_some());
    assert_eq!(data.weapon.get(t.weapon.unwrap()).fire_timer, 777);
    let source = data.audio_source.get(t.audio_source.unwrap());
    assert_eq!(source.source.requests.len(), 1);
    assert_eq!(source.source.requests[0].buffer.file, "assets/Shoot.wav");
    assert!(source.source.requests[0].stop);
}

#[test]
fn a_weapon_fires_when_its_timer_reaches_zero() {
    let mut data = Components::new();
    let t = turret(&mut data, 0, 0, true, 10, v(10_000, 0));
    assert!(update_weapon(&t, &mut data).is_some());
    let mut data = Components::new();
    let t = turret(&mut data, 0, 0, true, 11, v(10_000, 0));
    assert!(update_weapon(&t, &mut data).is_none());
    assert_eq!(data.weapon.get(t.weapon.unwrap()).fire_timer, 1);
    assert!(update_weapon(&t, &mut data).is_some());
}

#[test]
fn a_weapon_that_holds_fire_never_fires() {
    for timer in [i32::MIN, -500, -1, 0, 1, 10, 500, i32::MAX] {
        let mut data = Components::new();
        let t = turret(&mut data, 0, 0, false, timer, v(10_000, 0));
        assert!(update_weapon(&t, &mut data).is_none());
        assert_eq!(data.bullet.len(), 0);
        assert_eq!(data.position.len(), 1);
        assert_eq!(data.sprite_renderer.len(), 0);
        assert_eq!(data.audio_source.get(t.audio_source.unwrap()).source.requests.len(), 0);
    }
}

#[test]
fn the_timer_runs_down_by_a_tick_and_stops_at_the_end_of_the_range() {
    let mut data = Components::new();
    let t = turret(&mut data, 0, 0, false, 25, v(0, 0));
    update_weapon(&t, &mut data);
    assert_eq!(data.weapon.get(t.weapon.unwrap()).fire_timer, 15);
    update_weapon(&t, &mut data);
    update_weapon(&t, &mut data);
    assert_eq!(data.weapon.get(t.weapon.unwrap()).fire_timer, -5);
    data.weapon.get_mut(t.weapon.unwrap()).fire_timer = i32::MIN + 3;
    update_weapon(&t, &mut data);
    assert_eq!(data.weapon.get(t.weapon.unwrap()).fire_timer, i32::MIN);
}

#[test]
fn a_weapon_fires_every_fiftieth_frame() {
    let mut data = Components::new();
    let t = turret(&mut data, 0, 0, true, 0, v(10_000, 0));
    let mut entities = vec![t];
    let mut fired_at = Vec::new();
    for frame in 0..120 {
        let before = entities.len();
        PlayerSystem.update(&idle(), &mut data, &mut entities);
        if entities.len() > before {
            assert_eq!(entities.len(), before + 1);
            fired_at.push(frame);
        }
    }
    assert_eq!(fired_at, vec![0, 50, 100]);
}

#[test]
fn a_bullet_fired_without_a_direction_stays_at_its_owner() {
    let mut data = Components::new();
    let t = turret(&mut data, 5, 6, true, 0, v(0, 0));
    let bullet = update_weapon(&t, &mut data).unwrap();
    assert_eq!(*data.position.get(bullet.position.unwrap()), Position { x: 5, y: 6 });
    assert_eq!(*data.dynamic_body.get(bullet.dynamic_body.unwrap()), DynamicBody { vx: 0, vy: 0 });
}

#[test]
fn a_bullet_fired_at_the_end_of_the_range_starts_there() {
    let mut data = Components::new();
    let t = turret(&mut data, i32::MAX - 5, i32::MIN + 5, true, 0, v(10_000, -10_000));
    let bullet = update_weapon(&t, &mut data).unwrap();
    assert_eq!(
        *data.position.get(bullet.position.unwrap()),
        Position { x: i32::MAX, y: i32::MIN }
    );
}

#[test]
fn entities_without_weapon_position_or_sound_do_not_fire() {
    let mut data = Components::new();
    let t = turret(&mut data, 0, 0, true, 0, v(10_000, 0));
    let mut entities = vec![
        Entity { position: None, ..t },
        Entity { audio_source: None, ..t },
        Entity { weapon: None, ..t },
    ];
    PlayerSystem.update(&idle(), &mut data, &mut entities);
    assert_eq!(entities.len(), 3);
    assert_eq!(data.bullet.len(), 0);
    assert_eq!(data.weapon.get(t.weapon.unwrap()).fire_timer, 0);
}

#[test]
fn a_bullet_that_hit_something_is_spent() {
    let mut data = Components::new();
    let hit = bullet(&mut data, 1);
    let hit_twice = bullet(&mut data, 2);
    let flying = bullet(&mut data, 0);
    assert!(is_spent(&hit, &data));
    assert!(is_spent(&hit_twice, &data));
    assert!(!is_spent(&flying, &data));
}

#[test]
fn only_bullets_are_spent() {
    let mut data = Components::new();
    let hit = bullet(&mut data, 1);
    assert!(!is_spent(&Entity { bullet: None, ..hit }, &data));
    assert!(!is_spent(&Entity { event_receiver: None, ..hit }, &data));
    assert!(!is_spent(&blank(), &data));
}

#[test]
fn spent_bullets_leave_the_world_and_the_rest_keep_their_order() {
    let mut data = Components::new();
    let a = bullet(&mut data, 0);
    let b = bullet(&mut data, 1);
    let c = blank();
    let d = bullet(&mut data, 3);
    let e = bullet(&mut data, 0);
    let struck = Entity { bullet: None, ..bullet(&mut data, 1) };
    let mut entities = vec![a, b, c, d, e, struck];
    PlayerSystem.update(&idle(), &mut data, &mut entities);
    assert_eq!(entities.len(), 4);
    assert_eq!(entities[0].event_receiver.unwrap().index, a.event_receiver.unwrap().index);
    assert!(entities[1].event_receiver.is_none());
    assert_eq!(entities[2].event_receiver.unwrap().index, e.event_receiver.unwrap().index);
    assert_eq!(entities[3].event_receiver.unwrap().index, struck.event_receiver.unwrap().index);
    assert!(entities[3].bullet.is_none());
    assert_eq!(data.bullet.len(), 5);
    assert_eq!(data.event_receiver.len(), 5);
}

#[test]
fn new_bullets_join_after_the_rest_the_latest_first() {
    let mut data = Components::new();
    let first = turret(&mut data, 100, 0, true, 0, v(10_000, 0));
    let spent = bullet(&mut data, 1);
    let second = turret(&mut data, 200, 0, true, 0, v(0, 10_000));
    let mut entities = vec![first, spent, second];
    PlayerSystem.update(&idle(), &mut data, &mut entities);
    assert_eq!(entities.len(), 4);
    assert_eq!(entities[0].weapon.unwrap().index, first.weapon.unwrap().index);
    assert_eq!(entities[1].weapon.unwrap().index, second.weapon.unwrap().index);
    assert_eq!(
        *data.position.get(entities[2].position.unwrap()),
        Position { x: 200, y: 320_000 }
    );
    assert_eq!(
        *data.position.get(entities[3].position.unwrap()),
        Position { x: 320_100, y: 0 }
    );
    assert!(entities[2].bullet.is_some());
    assert!(entities[3].bullet.is_some());
}

#[test]
fn a_new_bullet_outlives_the_frame_it_was_fired_in() {
    let mut data = Components::new();
    let t = turret(&mut data, 0, 0, true, 0, v(10_000, 0));
    let mut entities = vec![t];
    PlayerSystem.update(&idle(), &mut data, &mut entities);
    assert_eq!(entities.len(), 2);
    let fired = entities[1];
    data.event_receiver.get_mut(fired.event_receiver.unwrap()).post_event(Event::Collision(
        fired.collider.unwrap(),
        fired.collider.unwrap(),
    ));
    assert_eq!(entities.len(), 2);
    PlayerSystem.update(&idle(), &mut data, &mut entities);
    assert_eq!(entities.len(), 1);
    assert_eq!(entities[0].weapon.unwrap().index, t.weapon.unwrap().index);
}

#[test]
fn a_player_that_aims_fires_in_the_same_frame() {
    let mut data = Components::new();
    let player = spawn_player(&mut data, 0);
    let mut entities = vec![player];
    let control = ControlState { aim_left: true, ..idle() };
    PlayerSystem.update(&control, &mut data, &mut entities);
    assert_eq!(entities.len(), 2);
    let fired = entities[1];
    assert_eq!(
        *data.position.get(fired.position.unwrap()),
        Position { x: 640_000 - 320_000, y: 960_000 }
    );
    assert_eq!(
        *data.dynamic_body.get(fired.dynamic_body.unwrap()),
        DynamicBody { vx: -30_000, vy: 0 }
    );
    assert_eq!(data.weapon.get(player.weapon.unwrap()).fire_timer, 500);
    let sprite = &data.sprite_renderer.get(player.sprite_renderer.unwrap()).sprite;
    assert!(sprite.flip_x);
    let player_controller = data.player_controller.get(player.player_controller.unwrap());
    assert_eq!(player_controller.state, PlayerState::Flying);
    let source = data.audio_source.get(player.audio_source.unwrap());
    assert_eq!(source.source.requests.len(), 2);
    assert_eq!(source.source.requests[0].buffer.file, "assets/Jump.wav");
    assert_eq!(source.source.requests[1].buffer.file, "assets/Shoot.wav");
}

#[test]
fn a_player_that_stops_aiming_stops_firing() {
    let mut data = Components::new();
    let player = spawn_player(&mut data, 0);
    let mut entities = vec![player];
    let control = ControlState { aim_up: true, ..idle() };
    PlayerSystem.update(&control, &mut data, &mut entities);
    assert_eq!(entities.len(), 2);
    for _ in 0..200 {
        PlayerSystem.update(&idle(), &mut data, &mut entities);
    }
    assert_eq!(entities.len(), 2);
    assert_eq!(data.weapon.get(player.weapon.unwrap()).fire_timer, 500 - 2000);
    assert!(!data.weapon.get(player.weapon.unwrap()).firing);
}

#[test]
fn the_player_system_runs_for_a_controller_with_a_body_only() {
    let mut data = Components::new();
    let player = spawn_player(&mut data, 0);
    let no_body = Entity { dynamic_body: None, ..player };
    let mut entities = vec![no_body];
    let control = ControlState { aim_up: true, move_left: true, ..idle() };
    PlayerSystem.update(&control, &mut data, &mut entities);
    let player_controller = data.player_controller.get(player.player_controller.unwrap());
    assert_eq!(player_controller.state, PlayerState::OnFloor);
    assert_eq!(player_controller.aim_direction, v(0, 0));
    assert!(!data.weapon.get(player.weapon.unwrap()).firing);
    assert_eq!(data.weapon.get(player.weapon.unwrap()).fire_timer, -10);
    assert_eq!(entities.len(), 1);
}

#[test]
fn a_player_on_the_floor_walks_where_the_keys_point() {
    let mut data = Components::new();
    let player = spawn_player(&mut data, 0);
    let floor = Entity {
        position: Some(data.position.add(Position { x: 640_000, y: 1_280_000 })),
        collider: Some(data.collider.add(AABBCollider { width: 320_000, height: 320_000 })),
        ..blank()
    };
    let mut entities = vec![player, floor];
    let control = ControlState { move_right: true, ..idle() };
    PlayerSystem.update(&control, &mut data, &mut entities);
    assert_eq!(
        *data.dynamic_body.get(player.dynamic_body.unwrap()),
        DynamicBody { vx: 10_000, vy: 0 }
    );
    let animator = data.sprite_animator.get(player.sprite_animator.unwrap());
    assert_eq!(animator.animation.frames, vec![(0, 0)]);
    PlayerSystem.update(&control, &mut data, &mut entities);
    let animator = data.sprite_animator.get(player.sprite_animator.unwrap());
    assert_eq!(animator.animation.frames, vec![(0, 0), (1, 0), (2, 0), (3, 0)]);
    let source = data.audio_source.get(player.audio_source.unwrap());
    assert_eq!(source.source.requests.len(), 0);
}

#[test]
fn player_and_audio_render_change_nothing() {
    let mut data = Components::new();
    let player = spawn_player(&mut data, 0);
    let mut entities = vec![player];
    PlayerSystem.render(5, &mut data, &mut entities);
    let mut audio = AudioSystem::new();
    audio.render(5, &mut data, &mut entities);
    audio.update(&ControlState { aim_up: true, ..idle() }, &mut data, &mut entities);
    assert_eq!(entities.len(), 1);
    assert_eq!(data.weapon.get(player.weapon.unwrap()).fire_timer, 0);
    assert_eq!(data.bullet.len(), 0);
}
