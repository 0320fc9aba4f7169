use space_roach::level::spawn_player;
use space_roach::animation::{
    aim_down_anim, aim_down_forward_anim, aim_forward_anim, aim_up_anim, aim_up_forward_anim,
    update_animation, WALKING,
};
use space_roach::orientation::{get_walk_state, update_walk_state};
use space_roach::player::{get_aim_direction, update_aim, update_control};
use space_roach::vector::Vector2;
use space_roach::world::{
    AABBCollider, Components, ControlState, DynamicBody, Entity, PlayerState, Position, Rotation,
};

const PX: i32 = 10_000;

fn blank() -> Entity {
    Entity {
        position: None,
        sprite_renderer: None,
        sprite_animator: None,
        player_controller: None,
        camera_target: None,
        collider: None,
        dynamic_body: None,
        audio_source: None,
        weapon: None,
        bullet: None,
        event_receiver: None,
    }
}

fn idle() -> ControlState {
    ControlState {
        move_left: false,
        move_right: false,
        move_up: false,
        move_down: false,
        aim_left: false,
        aim_right: false,
        aim_up: false,
        aim_down: false,
    }
}

fn aim(up: bool, down: bool, left: bool, right: bool) -> ControlState {
    ControlState { aim_up: up, aim_down: down, aim_left: left, aim_right: right, ..idle() }
}

fn walk(up: bool, down: bool, left: bool, right: bool) -> ControlState {
    ControlState { move_up: up, move_down: down, move_left: left, move_right: right, ..idle() }
}

fn tile(data: &mut Components, x: i32, y: i32) -> Entity {
    Entity {
        position: Some(data.position.add(Position { x: x * PX, y: y * PX })),
        collider: Some(data.collider.add(AABBCollider { width: 32 * PX, height: 32 * PX })),
        ..blank()
    }
}

fn v(x: i32, y: i32) -> Vector2 {
    Vector2 { x, y }
}

// A player at (64, 96) and the tiles at the given pixel positions.
fn scene(tiles: &[(i32, i32)]) -> (Components, Vec<Entity>, Entity) {
    let mut data = Components::new();
    let player = spawn_player(&mut data, 0);
    let mut entities = vec![player];
    for t in tiles.iter() {
        entities.push(tile(&mut data, t.0, t.1));
    }
    (data, entities, player)
}

fn state_with(tiles: &[(i32, i32)]) -> PlayerState {
    let (data, entities, player) = scene(tiles);
    get_walk_state(&player, &data, &entities)
}

#[test]
fn aim_keys_give_unit_vectors() {
    assert_eq!(get_aim_direction(&aim(true, false, false, false)), Some(v(0, -10_000)));
    assert_eq!(get_aim_direction(&aim(false, true, false, false)), Some(v(0, 10_000)));
    assert_eq!(get_aim_direction(&aim(false, false, true, false)), Some(v(-10_000, 0)));
    assert_eq!(get_aim_direction(&aim(false, false, false, true)), Some(v(10_000, 0)));
}

#[test]
fn two_aim_keys_give_a_diagonal() {
    assert_eq!(get_aim_direction(&aim(true, false, true, false)), Some(v(-7_071, -7_071)));
    assert_eq!(get_aim_direction(&aim(true, false, false, true)), Some(v(7_071, -7_071)));
    assert_eq!(get_aim_direction(&aim(false, true, true, false)), Some(v(-7_071, 7_071)));
    assert_eq!(get_aim_direction(&aim(false, true, false, true)), Some(v(7_071, 7_071)));
}

#[test]
fn no_aim_keys_or_opposed_ones_give_nothing() {
    assert_eq!(get_aim_direction(&idle()), None);
    assert_eq!(get_aim_direction(&aim(true, true, false, false)), None);
    assert_eq!(get_aim_direction(&aim(false, false, true, true)), None);
    assert_eq!(get_aim_direction(&aim(true, true, true, true)), None);
}

#[test]
fn opposed_aim_keys_leave_the_other_axis() {
    assert_eq!(get_aim_direction(&aim(true, true, false, true)), Some(v(10_000, 0)));
    assert_eq!(get_aim_direction(&aim(true, false, true, true)), Some(v(0, -10_000)));
}

#[test]
fn movement_keys_do_not_aim() {
    assert_eq!(get_aim_direction(&walk(true, false, true, false)), None);
}

#[test]
fn a_player_alone_is_flying() {
    assert_eq!(state_with(&[]), PlayerState::Flying);
}

#[test]
fn a_player_far_from_every_tile_is_flying() {
    assert_eq!(state_with(&[(64, 200), (300, 96), (64, 130)]), PlayerState::Flying);
}

#[test]
fn a_tile_below_is_a_floor() {
    assert_eq!(state_with(&[(64, 128)]), PlayerState::OnFloor);
}

#[test]
fn a_tile_above_is_a_ceiling() {
    assert_eq!(state_with(&[(64, 64)]), PlayerState::OnCeiling);
}

#[test]
fn a_tile_to_the_left_is_a_left_wall() {
    assert_eq!(state_with(&[(32, 96)]), PlayerState::OnLeftWall);
}

#[test]
fn a_tile_to_the_right_is_a_right_wall() {
    assert_eq!(state_with(&[(96, 96)]), PlayerState::OnRightWall);
}

#[test]
fn the_ground_check_reaches_two_pixels_past_the_box() {
    assert_eq!(state_with(&[(64, 129)]), PlayerState::OnFloor);
    assert_eq!(state_with(&[(64, 130)]), PlayerState::Flying);
}

#[test]
fn at_a_corner_the_first_listed_surface_wins() {
    assert_eq!(state_with(&[(96, 128)]), PlayerState::OnFloor);
    assert_eq!(state_with(&[(32, 128)]), PlayerState::OnFloor);
    assert_eq!(state_with(&[(32, 64)]), PlayerState::OnCeiling);
    assert_eq!(state_with(&[(96, 64)]), PlayerState::OnCeiling);
}

#[test]
fn just_off_a_corner_the_nearer_surface_wins() {
    assert_eq!(state_with(&[(96, 127)]), PlayerState::OnRightWall);
    assert_eq!(state_with(&[(95, 128)]), PlayerState::OnFloor);
    assert_eq!(state_with(&[(32, 65)]), PlayerState::OnLeftWall);
    assert_eq!(state_with(&[(33, 64)]), PlayerState::OnCeiling);
}

#[test]
fn several_tiles_count_by_their_centre() {
    assert_eq!(state_with(&[(32, 128), (64, 128), (96, 128)]), PlayerState::OnFloor);
    assert_eq!(state_with(&[(96, 64), (96, 96), (96, 128)]), PlayerState::OnRightWall);
    assert_eq!(state_with(&[(64, 128), (96, 128), (96, 96)]), PlayerState::OnFloor);
    assert_eq!(state_with(&[(64, 64), (32, 64), (32, 96)]), PlayerState::OnCeiling);
}

#[test]
fn tiles_all_around_leave_the_first_listed_surface() {
    assert_eq!(state_with(&[(64, 128), (64, 64)]), PlayerState::OnFloor);
    assert_eq!(state_with(&[(32, 96), (96, 96)]), PlayerState::OnFloor);
}

#[test]
fn a_player_does_not_stand_on_itself() {
    let (data, entities, player) = scene(&[]);
    assert_eq!(get_walk_state(&player, &data, &entities), PlayerState::Flying);
    let twin = Entity { player_controller: None, ..player };
    let entities = vec![player, twin];
    assert_eq!(get_walk_state(&player, &data, &entities), PlayerState::Flying);
}

#[test]
fn a_player_without_a_box_stands_on_any_box() {
    let (data, entities, player) = scene(&[]);
    let ghost = Entity { collider: None, ..player };
    assert_eq!(get_walk_state(&ghost, &data, &entities), PlayerState::OnFloor);
}

#[test]
fn landing_asks_for_the_land_sound_once() {
    let (mut data, entities, player) = scene(&[(64, 128)]);
    data.player_controller.get_mut(player.player_controller.unwrap()).state = PlayerState::Flying;
    update_walk_state(&player, &mut data, &entities);
    let player_controller = data.player_controller.get(player.player_controller.unwrap());
    assert_eq!(player_controller.state, PlayerState::OnFloor);
    let source = data.audio_source.get(player.audio_source.unwrap());
    assert_eq!(source.source.requests.len(), 1);
    assert_eq!(source.source.requests[0].buffer.file, "assets/Land.wav");
    assert!(source.source.requests[0].stop);
}

#[test]
fn taking_off_asks_for_the_jump_sound_once() {
    for state in [
        PlayerState::OnFloor,
        PlayerState::OnCeiling,
        PlayerState::OnLeftWall,
        PlayerState::OnRightWall,
    ] {
        let (mut data, entities, player) = scene(&[]);
        data.player_controller.get_mut(player.player_controller.unwrap()).state = state;
        update_walk_state(&player, &mut data, &entities);
        let player_controller = data.player_controller.get(player.player_controller.unwrap());
        assert_eq!(player_controller.state, PlayerState::Flying);
        let source = data.audio_source.get(player.audio_source.unwrap());
        assert_eq!(source.source.requests.len(), 1);
        assert_eq!(source.source.requests[0].buffer.file, "assets/Jump.wav");
        assert!(source.source.requests[0].stop);
    }
}

#[test]
fn staying_in_flight_makes_no_sound() {
    let (mut data, entities, player) = scene(&[]);
    data.player_controller.get_mut(player.player_controller.unwrap()).state = PlayerState::Flying;
    update_walk_state(&player, &mut data, &entities);
    let source = data.audio_source.get(player.audio_source.unwrap());
    assert_eq!(source.source.requests.len(), 0);
}

#[test]
fn passing_from_one_surface_to_another_makes_no_sound() {
    let (mut data, entities, player) = scene(&[(32, 96)]);
    update_walk_state(&player, &mut data, &entities);
    let player_controller = data.player_controller.get(player.player_controller.unwrap());
    assert_eq!(player_controller.state, PlayerState::OnLeftWall);
    let source = data.audio_source.get(player.audio_source.unwrap());
    assert_eq!(source.source.requests.len(), 0);
}

#[test]
fn staying_on_a_surface_makes_no_sound() {
    let (mut data, entities, player) = scene(&[(64, 128)]);
    update_walk_state(&player, &mut data, &entities);
    update_walk_state(&player, &mut data, &entities);
    let source = data.audio_source.get(player.audio_source.unwrap());
    assert_eq!(source.source.requests.len(), 0);
}

#[test]
fn the_sprite_turns_with_the_surface() {
    let cases = [
        (vec![], 0),
        (vec![(64, 128)], 0),
        (vec![(32, 96)], 90),
        (vec![(64, 64)], 180),
        (vec![(96, 96)], 270),
    ];
    for (tiles, degrees) in cases.iter() {
        let (mut data, entities, player) = scene(tiles);
        data.sprite_renderer.get_mut(player.sprite_renderer.unwrap()).sprite.rotation =
            Rotation { facing: v(3, 4), degrees: 45 };
        update_walk_state(&player, &mut data, &entities);
        let sprite = &data.sprite_renderer.get(player.sprite_renderer.unwrap()).sprite;
        assert_eq!(sprite.rotation, Rotation { facing: v(0, 0), degrees: *degrees });
    }
}

#[test]
fn a_player_without_sprite_or_sound_still_changes_state() {
    let (mut data, entities, player) = scene(&[(64, 64)]);
    let bare = Entity { sprite_renderer: None, audio_source: None, ..player };
    update_walk_state(&bare, &mut data, &entities);
    let player_controller = data.player_controller.get(player.player_controller.unwrap());
    assert_eq!(player_controller.state, PlayerState::OnCeiling);
    let source = data.audio_source.get(player.audio_source.unwrap());
    assert_eq!(source.source.requests.len(), 0);
}

#[test]
fn a_player_without_a_position_keeps_its_state() {
    let (mut data, entities, player) = scene(&[]);
    let lost = Entity { position: None, ..player };
    update_walk_state(&lost, &mut data, &entities);
    let player_controller = data.player_controller.get(player.player_controller.unwrap());
    assert_eq!(player_controller.state, PlayerState::OnFloor);
}

#[test]
fn aiming_arms_the_weapon() {
    let (mut data, _entities, player) = scene(&[]);
    update_aim(&player, &aim(true, false, false, true), &mut data);
    let player_controller = data.player_controller.get(player.player_controller.unwrap());
    assert_eq!(player_controller.aim_direction, v(7_071, -7_071));
    let weapon = data.weapon.get(player.weapon.unwrap());
    assert!(weapon.firing);
    assert_eq!(weapon.fire_direction, v(7_071, -7_071));
}

#[test]
fn not_aiming_disarms_the_weapon_and_keeps_the_aim() {
    let (mut data, _entities, player) = scene(&[]);
    update_aim(&player, &aim(false, false, true, false), &mut data);
    update_aim(&player, &idle(), &mut data);
    let player_controller = data.player_controller.get(player.player_controller.unwrap());
    assert_eq!(player_controller.aim_direction, v(-10_000, 0));
    let weapon = data.weapon.get(player.weapon.unwrap());
    assert!(!weapon.firing);
    assert_eq!(weapon.fire_direction, v(-10_000, 0));
}

#[test]
fn aiming_without_a_weapon_still_aims() {
    let (mut data, _entities, player) = scene(&[]);
    let unarmed = Entity { weapon: None, ..player };
    update_aim(&unarmed, &aim(false, true, false, false), &mut data);
    let player_controller = data.player_controller.get(player.player_controller.unwrap());
    assert_eq!(player_controller.aim_direction, v(0, 10_000));
    let weapon = data.weapon.get(player.weapon.unwrap());
    assert!(!weapon.firing);
}

#[test]
fn animations_walk_above_the_threshold_only() {
    let (data, _entities, player) = scene(&[]);
    let player_controller = data.player_controller.get(player.player_controller.unwrap());
    assert_eq!(aim_up_anim(player_controller, WALKING + 1).frames, vec![(0, 1), (1, 1), (2, 1), (3, 1)]);
    assert_eq!(aim_up_anim(player_controller, WALKING).frames, vec![(0, 1)]);
    assert_eq!(aim_up_anim(player_controller, 0).frames, vec![(0, 1)]);
    assert_eq!(
        aim_up_forward_anim(player_controller, WALKING + 1).frames,
        vec![(0, 2), (1, 2), (2, 2), (3, 2)]
    );
    assert_eq!(aim_up_forward_anim(player_controller, WALKING).frames, vec![(0, 2)]);
    assert_eq!(
        aim_down_forward_anim(player_controller, u64::MAX).frames,
        vec![(0, 3), (1, 3), (2, 3), (3, 3)]
    );
    assert_eq!(aim_down_forward_anim(player_controller, 1).frames, vec![(0, 3)]);
    assert_eq!(
        aim_down_anim(player_controller, WALKING + 1).frames,
        vec![(0, 4), (1, 4), (2, 4), (3, 4)]
    );
    assert_eq!(aim_down_anim(player_controller, WALKING).frames, vec![(0, 4)]);
    assert_eq!(
        aim_forward_anim(player_controller, WALKING + 1).frames,
        vec![(0, 0), (1, 0), (2, 0), (3, 0)]
    );
    assert_eq!(aim_forward_anim(player_controller, WALKING).frames, vec![(0, 0)]);
}

// The row of the sprite sheet and the number of frames that a player shows in
// `state`, aiming along `aim`, at the velocity (`vx`, 0), and its flip when
// the sprite was flipped or not before.
fn look(state: PlayerState, aim: Vector2, vx: i32) -> (i32, usize, bool, bool) {
    let mut flips = [false, false];
    let mut row = 0;
    let mut frames = 0;
    for (i, before) in [false, true].iter().enumerate() {
        let (mut data, _entities, player) = scene(&[]);
        {
            let player_controller =
                data.player_controller.get_mut(player.player_controller.unwrap());
            player_controller.state = state;
            player_controller.aim_direction = aim;
        }
        *data.dynamic_body.get_mut(player.dynamic_body.unwrap()) = DynamicBody { vx, vy: 0 };
        data.sprite_renderer.get_mut(player.sprite_renderer.unwrap()).sprite.flip_x = *before;
        update_animation(&player, &mut data);
        let animator = data.sprite_animator.get(player.sprite_animator.unwrap());
        row = animator.animation.frames[0].1;
        frames = animator.animation.frames.len();
        assert_eq!(animator.start_time, 0);
        flips[i] = data.sprite_renderer.get(player.sprite_renderer.unwrap()).sprite.flip_x;
    }
    (row, frames, flips[0], flips[1])
}

const FAST: i32 = 10_000;
const SLOW: i32 = 3_162;

#[test]
fn on_the_floor_aiming_up_walks_or_idles_by_speed() {
    assert_eq!(look(PlayerState::OnFloor, v(0, -10_000), FAST), (1, 4, false, true));
    assert_eq!(look(PlayerState::OnFloor, v(0, -10_000), SLOW), (1, 1, false, true));
    assert_eq!(look(PlayerState::OnFloor, v(0, -10_000), 0), (1, 1, false, true));
}

#[test]
fn the_walking_threshold_is_a_tenth_squared_speed() {
    assert_eq!(look(PlayerState::OnFloor, v(0, 0), 3_162), (0, 1, false, true));
    assert_eq!(look(PlayerState::OnFloor, v(0, 0), 3_163), (0, 4, false, true));
    assert_eq!(look(PlayerState::OnFloor, v(0, 0), -3_163), (0, 4, false, true));
    assert_eq!(look(PlayerState::OnFloor, v(0, 0), i32::MIN), (0, 4, false, true));
}

#[test]
fn the_table_on_the_floor() {
    let s = PlayerState::OnFloor;
    assert_eq!(look(s, v(0, -10_000), FAST), (1, 4, false, true));
    assert_eq!(look(s, v(0, 10_000), FAST), (4, 4, false, true));
    assert_eq!(look(s, v(7_071, -7_071), FAST), (2, 4, false, false));
    assert_eq!(look(s, v(-7_071, -7_071), FAST), (2, 4, true, true));
    assert_eq!(look(s, v(7_071, 7_071), FAST), (3, 4, false, false));
    assert_eq!(look(s, v(-7_071, 7_071), FAST), (3, 4, true, true));
    assert_eq!(look(s, v(10_000, 0), FAST), (0, 4, false, false));
    assert_eq!(look(s, v(-10_000, 0), FAST), (0, 4, true, true));
    assert_eq!(look(s, v(0, 0), SLOW), (0, 1, false, true));
}

#[test]
fn the_table_in_flight_is_that_of_the_floor() {
    let s = PlayerState::Flying;
    assert_eq!(look(s, v(0, -10_000), FAST), (1, 4, false, true));
    assert_eq!(look(s, v(0, 10_000), SLOW), (4, 1, false, true));
    assert_eq!(look(s, v(7_071, -7_071), FAST), (2, 4, false, false));
    assert_eq!(look(s, v(-7_071, 7_071), SLOW), (3, 1, true, true));
    assert_eq!(look(s, v(10_000, 0), FAST), (0, 4, false, false));
    assert_eq!(look(s, v(-10_000, 0), FAST), (0, 4, true, true));
}

#[test]
fn the_table_under_the_ceiling() {
    let s = PlayerState::OnCeiling;
    assert_eq!(look(s, v(0, 10_000), FAST), (1, 4, false, true));
    assert_eq!(look(s, v(0, -10_000), FAST), (4, 4, false, true));
    assert_eq!(look(s, v(7_071, 7_071), FAST), (2, 4, true, true));
    assert_eq!(look(s, v(-7_071, 7_071), FAST), (2, 4, false, false));
    assert_eq!(look(s, v(7_071, -7_071), SLOW), (3, 1, true, true));
    assert_eq!(look(s, v(-7_071, -7_071), SLOW), (3, 1, false, false));
    assert_eq!(look(s, v(10_000, 0), FAST), (0, 4, true, true));
    assert_eq!(look(s, v(-10_000, 0), FAST), (0, 4, false, false));
}

#[test]
fn the_table_on_the_left_wall() {
    let s = PlayerState::OnLeftWall;
    assert_eq!(look(s, v(10_000, 0), FAST), (1, 4, false, true));
    assert_eq!(look(s, v(-10_000, 0), FAST), (4, 4, false, true));
    assert_eq!(look(s, v(7_071, -7_071), FAST), (2, 4, true, true));
    assert_eq!(look(s, v(7_071, 7_071), FAST), (2, 4, false, false));
    assert_eq!(look(s, v(-7_071, -7_071), SLOW), (3, 1, true, true));
    assert_eq!(look(s, v(-7_071, 7_071), SLOW), (3, 1, false, false));
    assert_eq!(look(s, v(0, -10_000), FAST), (0, 4, true, true));
    assert_eq!(look(s, v(0, 10_000), FAST), (0, 4, false, false));
}

#[test]
fn the_table_on_the_right_wall() {
    let s = PlayerState::OnRightWall;
    assert_eq!(look(s, v(-10_000, 0), FAST), (1, 4, false, true));
    assert_eq!(look(s, v(10_000, 0), FAST), (4, 4, false, true));
    assert_eq!(look(s, v(-7_071, 7_071), FAST), (2, 4, true, true));
    assert_eq!(look(s, v(-7_071, -7_071), FAST), (2, 4, false, false));
    assert_eq!(look(s, v(7_071, 7_071), SLOW), (3, 1, true, true));
    assert_eq!(look(s, v(7_071, -7_071), SLOW), (3, 1, false, false));
    assert_eq!(look(s, v(0, 10_000), FAST), (0, 4, true, true));
    assert_eq!(look(s, v(0, -10_000), FAST), (0, 4, false, false));
}

#[test]
fn an_aim_that_is_not_a_unit_is_not_straight() {
    assert_eq!(look(PlayerState::OnFloor, v(0, -9_999), FAST), (2, 4, false, true));
    assert_eq!(look(PlayerState::OnFloor, v(0, 20_000), FAST), (3, 4, false, true));
    assert_eq!(look(PlayerState::OnLeftWall, v(1, 0), FAST), (2, 4, false, true));
}

#[test]
fn a_player_without_an_animator_is_still_flipped() {
    let (mut data, _entities, player) = scene(&[]);
    data.player_controller.get_mut(player.player_controller.unwrap()).aim_direction =
        v(-10_000, 0);
    let plain = Entity { sprite_animator: None, ..player };
    update_animation(&plain, &mut data);
    assert!(data.sprite_renderer.get(player.sprite_renderer.unwrap()).sprite.flip_x);
    let animator = data.sprite_animator.get(player.sprite_animator.unwrap());
    assert_eq!(animator.animation.frames, vec![(0, 0)]);
}

fn velocity_after(state: PlayerState, control: ControlState, speed: i32) -> DynamicBody {
    let (mut data, _entities, player) = scene(&[]);
    {
        let player_controller = data.player_controller.get_mut(player.player_controller.unwrap());
        player_controller.state = state;
        player_controller.move_speed = speed;
    }
    *data.dynamic_body.get_mut(player.dynamic_body.unwrap()) = DynamicBody { vx: 11, vy: 22 };
    update_control(&player, &control, &mut data);
    *data.dynamic_body.get(player.dynamic_body.unwrap())
}

#[test]
fn movement_keys_set_the_velocity_on_a_surface() {
    let s = PlayerState::OnFloor;
    assert_eq!(velocity_after(s, walk(false, false, false, true), 10_000), DynamicBody { vx: 10_000, vy: 0 });
    assert_eq!(velocity_after(s, walk(false, false, true, false), 10_000), DynamicBody { vx: -10_000, vy: 0 });
    assert_eq!(velocity_after(s, walk(true, false, false, false), 10_000), DynamicBody { vx: 0, vy: -10_000 });
    assert_eq!(velocity_after(s, walk(false, true, false, false), 10_000), DynamicBody { vx: 0, vy: 10_000 });
}

#[test]
fn diagonal_movement_is_no_faster() {
    let s = PlayerState::OnLeftWall;
    assert_eq!(velocity_after(s, walk(true, false, false, true), 10_000), DynamicBody { vx: 7_071, vy: -7_071 });
    assert_eq!(velocity_after(s, walk(false, true, true, false), 25_000), DynamicBody { vx: -17_677, vy: 17_677 });
}

#[test]
fn no_movement_keys_stop_the_player_on_a_surface() {
    for state in [
        PlayerState::OnFloor,
        PlayerState::OnCeiling,
        PlayerState::OnLeftWall,
        PlayerState::OnRightWall,
    ] {
        assert_eq!(velocity_after(state, idle(), 10_000), DynamicBody { vx: 0, vy: 0 });
        assert_eq!(
            velocity_after(state, walk(true, true, true, true), 10_000),
            DynamicBody { vx: 0, vy: 0 }
        );
    }
}

#[test]
fn movement_keys_are_ignored_in_flight() {
    let s = PlayerState::Flying;
    assert_eq!(velocity_after(s, walk(false, false, false, true), 10_000), DynamicBody { vx: 11, vy: 22 });
    assert_eq!(velocity_after(s, idle(), 10_000), DynamicBody { vx: 11, vy: 22 });
}

#[test]
fn aim_keys_do_not_move() {
    assert_eq!(
        velocity_after(PlayerState::OnFloor, aim(false, false, false, true), 10_000),
        DynamicBody { vx: 0, vy: 0 }
    );
}
