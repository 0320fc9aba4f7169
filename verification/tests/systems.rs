use space_roach::sprites::SpriteSystem;
use space_roach::store::Id;
use space_roach::systems::{InputState, SpriteProcess, UpdateContext, UpdateContextComponent};
use space_roach::vector::Vector2;
use space_roach::world::{
    Components, Entity, Position, SpriteAnimation, SpriteAnimator, SpriteRenderer, System, Texture,
    World,
};

fn blank() -> Entity {
    Entity {
        position: None,
        sprite_renderer: None,
        sprite_animator: None,
        player_controller: None,
        camera_target: None,
        collider: None,
        dynamic_body: None,
        audio_source: None,
        weapon: None,
        bullet: None,
        event_receiver: None,
    }
}

fn keys(right: bool, left: bool, up: bool, down: bool) -> UpdateContextComponent {
    UpdateContextComponent {
        context: UpdateContext { delta_time: 10, input: InputState { right, left, up, down } },
    }
}

fn steered(data: &mut Components, x: i32, y: i32, frames: Vec<(i32, i32)>) -> Entity {
    Entity {
        position: Some(data.position.add(Position { x, y })),
        sprite_renderer: Some(data.sprite_renderer.add(SpriteRenderer::from_texture_region(
            Texture { path: "a.png".to_string() },
            [0, 0, 1, 1],
        ))),
        sprite_animator: Some(data.sprite_animator.add(SpriteAnimator {
            animation: SpriteAnimation { frame_size: [8, 8], frame_duration: 1_000, frames },
            start_time: 0,
        })),
        ..blank()
    }
}

fn moved(x: i32, y: i32, context: &UpdateContextComponent) -> Position {
    let mut data = Components::new();
    let e = steered(&mut data, x, y, vec![(0, 0)]);
    SpriteProcess.process(&vec![e], &mut data, context, 0);
    *data.position.get(e.position.unwrap())
}

#[test]
fn each_key_moves_a_pixel() {
    assert_eq!(moved(0, 0, &keys(true, false, false, false)), Position { x: 10_000, y: 0 });
    assert_eq!(moved(0, 0, &keys(false, true, false, false)), Position { x: -10_000, y: 0 });
    assert_eq!(moved(0, 0, &keys(false, false, true, false)), Position { x: 0, y: -10_000 });
    assert_eq!(moved(0, 0, &keys(false, false, false, true)), Position { x: 0, y: 10_000 });
    assert_eq!(moved(5, 7, &keys(false, false, false, false)), Position { x: 5, y: 7 });
}

#[test]
fn opposed_keys_cancel() {
    assert_eq!(moved(5, 7, &keys(true, true, true, true)), Position { x: 5, y: 7 });
    assert_eq!(moved(5, 7, &keys(true, true, false, true)), Position { x: 5, y: 10_007 });
}

#[test]
fn opposed_keys_at_the_end_of_the_range_do_not_cancel() {
    assert_eq!(
        moved(i32::MIN + 1, i32::MIN, &keys(true, true, true, true)),
        Position { x: i32::MIN + 10_000, y: i32::MIN + 10_000 }
    );
    assert_eq!(
        moved(i32::MAX, i32::MAX - 3, &keys(true, true, true, true)),
        Position { x: i32::MAX, y: i32::MAX - 3 }
    );
    assert_eq!(
        moved(i32::MAX, i32::MAX, &keys(true, false, false, true)),
        Position { x: i32::MAX, y: i32::MAX }
    );
}

#[test]
fn the_sprite_follows_and_shows_its_frame() {
    let mut data = Components::new();
    let e = steered(&mut data, 100, 200, vec![(0, 0), (1, 2), (3, 4)]);
    SpriteProcess.process(&vec![e], &mut data, &keys(true, false, false, true), 1_500);
    let sprite = &data.sprite_renderer.get(e.sprite_renderer.unwrap()).sprite;
    assert_eq!(sprite.position, Vector2 { x: 10_100, y: 10_200 });
    assert_eq!(sprite.src_rect, Some([8, 16, 16, 24]));
}

#[test]
fn an_animator_without_frames_leaves_the_shown_part() {
    let mut data = Components::new();
    let e = steered(&mut data, 100, 200, vec![]);
    SpriteProcess.process(&vec![e], &mut data, &keys(false, true, false, false), 1_500);
    let sprite = &data.sprite_renderer.get(e.sprite_renderer.unwrap()).sprite;
    assert_eq!(sprite.position, Vector2 { x: 100 - 10_000, y: 200 });
    assert_eq!(sprite.src_rect, Some([0, 0, 1, 1]));
}

#[test]
fn entities_that_lack_a_part_are_passed_over() {
    let mut data = Components::new();
    let e = steered(&mut data, 1, 2, vec![(0, 0)]);
    let entities = vec![
        Entity { position: None, ..e },
        Entity { sprite_renderer: None, ..e },
        Entity { sprite_animator: None, ..e },
        blank(),
    ];
    SpriteProcess.process(&entities, &mut data, &keys(true, false, false, false), 0);
    assert_eq!(*data.position.get(e.position.unwrap()), Position { x: 1, y: 2 });
    let sprite = &data.sprite_renderer.get(e.sprite_renderer.unwrap()).sprite;
    assert_eq!(sprite.position, Vector2 { x: 0, y: 0 });
    assert_eq!(sprite.src_rect, Some([0, 0, 1, 1]));
}

#[test]
fn entities_are_steered_in_order() {
    let mut data = Components::new();
    let e = steered(&mut data, 0, 0, vec![(0, 0)]);
    let entities = vec![e, e, e];
    SpriteProcess.process(&entities, &mut data, &keys(true, false, false, false), 0);
    assert_eq!(*data.position.get(e.position.unwrap()), Position { x: 30_000, y: 0 });
}

#[test]
fn a_world_with_issued_handles_is_well_formed() {
    let mut world = World::new();
    assert!(world.is_well_formed());
    let e = steered(&mut world.data, 0, 0, vec![(0, 0)]);
    world.entities.push(e);
    world.entities.push(blank());
    assert!(world.is_well_formed());
    assert!(world.data.holds(&e));
    assert!(world.data.holds(&blank()));
}

#[test]
fn a_handle_that_was_never_issued_is_found() {
    let mut world = World::new();
    let e = steered(&mut world.data, 0, 0, vec![(0, 0)]);
    let stray = Entity { weapon: Some(Id { index: 0, kind: core::marker::PhantomData }), ..e };
    assert!(!world.data.holds(&stray));
    let beyond = Entity { position: Some(Id { index: 1, kind: core::marker::PhantomData }), ..e };
    assert!(!world.data.holds(&beyond));
    world.entities.push(e);
    assert!(world.is_well_formed());
    world.entities.push(beyond);
    assert!(!world.is_well_formed());
    world.entities.push(e);
    assert!(!world.is_well_formed());
}

#[test]
fn every_kind_of_handle_is_looked_at() {
    let data = Components::new();
    let id = || 0usize;
    let strays = [
        Entity { position: Some(Id { index: id(), kind: core::marker::PhantomData }), ..blank() },
        Entity { sprite_renderer: Some(Id { index: id(), kind: core::marker::PhantomData }), ..blank() },
        Entity { sprite_animator: Some(Id { index: id(), kind: core::marker::PhantomData }), ..blank() },
        Entity { player_controller: Some(Id { index: id(), kind: core::marker::PhantomData }), ..blank() },
        Entity { camera_target: Some(Id { index: id(), kind: core::marker::PhantomData }), ..blank() },
        Entity { collider: Some(Id { index: id(), kind: core::marker::PhantomData }), ..blank() },
        Entity { dynamic_body: Some(Id { index: id(), kind: core::marker::PhantomData }), ..blank() },
        Entity { audio_source: Some(Id { index: id(), kind: core::marker::PhantomData }), ..blank() },
        Entity { weapon: Some(Id { index: id(), kind: core::marker::PhantomData }), ..blank() },
        Entity { bullet: Some(Id { index: id(), kind: core::marker::PhantomData }), ..blank() },
        Entity { event_receiver: Some(Id { index: id(), kind: core::marker::PhantomData }), ..blank() },
    ];
    for stray in strays.iter() {
        assert!(!data.holds(stray));
    }
}

#[test]
fn the_sprite_system_and_the_process_agree_on_frames() {
    let mut data = Components::new();
    let e = steered(&mut data, 50, 60, vec![(0, 0), (1, 2), (3, 4)]);
    let mut entities = vec![e];
    SpriteSystem.render(2_000, &mut data, &mut entities);
    let shown = data.sprite_renderer.get(e.sprite_renderer.unwrap()).sprite.src_rect;
    SpriteProcess.process(&entities, &mut data, &keys(false, false, false, false), 2_000);
    let sprite = &data.sprite_renderer.get(e.sprite_renderer.unwrap()).sprite;
    assert_eq!(sprite.src_rect, shown);
    assert_eq!(sprite.src_rect, Some([24, 32, 32, 40]));
    assert_eq!(sprite.position, Vector2 { x: 50, y: 60 });
}
