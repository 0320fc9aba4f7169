//! How a player looks: the animation and the flip of its sprite, chosen from
//! the surface it stands on, where it aims and how fast it moves.

use vstd::prelude::*;
use crate::fixed::ONE;
use crate::player::plays;
use crate::vector::Vector2;
use crate::world::{
    valid, Components, ComponentsView, Entity, PlayerController, PlayerControllerView,
    PlayerState, SpriteAnimation, SpriteAnimationView, SpriteAnimatorView, SpriteView,
};

verus! {

/// The squared speed above which a player walks: 0.1, in squared scalar units.
pub const WALKING: u64 = 10_000_000;

/// Where a player aims, seen from the surface it stands on.
#[derive(Clone, Copy, Debug, PartialEq, Eq, Structural)]
pub enum Pose {
    Up,
    UpForward,
    Forward,
    DownForward,
    Down,
}

/// The unit vector that points away from the surface of `state`; while
/// flying, as on the floor. The y axis points down.
pub open spec fn away(state: PlayerState) -> Vector2 {
    match state {
        PlayerState::Flying | PlayerState::OnFloor => Vector2 { x: 0, y: -10_000i32 },
        PlayerState::OnLeftWall => Vector2 { x: 10_000, y: 0 },
        PlayerState::OnRightWall => Vector2 { x: -10_000i32, y: 0 },
        PlayerState::OnCeiling => Vector2 { x: 0, y: 10_000 },
    }
}

/// How far `aim` rises from the surface of `state`.
pub open spec fn rise(state: PlayerState, aim: Vector2) -> int {
    match state {
        PlayerState::Flying | PlayerState::OnFloor => -aim.y,
        PlayerState::OnLeftWall => aim.x as int,
        PlayerState::OnRightWall => -aim.x,
        PlayerState::OnCeiling => aim.y as int,
    }
}

/// How far `aim` reaches ahead along the surface of `state`, where ahead is
/// `away(state)` turned by a quarter, from the x axis toward the y axis: the
/// way an unflipped sprite faces.
pub open spec fn advance(state: PlayerState, aim: Vector2) -> int {
    match state {
        PlayerState::Flying | PlayerState::OnFloor => aim.x as int,
        PlayerState::OnLeftWall => aim.y as int,
        PlayerState::OnRightWall => -aim.y,
        PlayerState::OnCeiling => -aim.x,
    }
}

/// The pose of a player in `state` that aims along `aim`: straight up or down
/// where `aim` is exactly the unit vector away from or into the surface,
/// else by whether `aim` rises from the surface or sinks toward it.
pub open spec fn pose(state: PlayerState, aim: Vector2) -> Pose {
    let up = away(state);
    if aim == up {
        Pose::Up
    } else if aim.x == -up.x && aim.y == -up.y {
        Pose::Down
    } else if rise(state, aim) > 0 {
        Pose::UpForward
    } else if rise(state, aim) < 0 {
        Pose::DownForward
    } else {
        Pose::Forward
    }
}

/// Whether the sprite of a player in `state` that aims along `aim` is flipped:
/// not when `aim` reaches ahead, flipped when it reaches back, and left as it
/// is when it does neither.
pub open spec fn flip(state: PlayerState, aim: Vector2) -> Option<bool> {
    if advance(state, aim) > 0 {
        Some(false)
    } else if advance(state, aim) < 0 {
        Some(true)
    } else {
        None
    }
}

/// The animation of `player` for a pose and a squared speed: the walking
/// variant above `WALKING`, else the idle one.
pub open spec fn animation_for(
    player: PlayerControllerView,
    pose: Pose,
    speed: u64,
) -> SpriteAnimationView {
    let walks = speed > WALKING;
    match pose {
        Pose::Up => if walks { player.walk_anim_aim_up } else { player.idle_anim_aim_up },
        Pose::UpForward => if walks {
            player.walk_anim_aim_up_forward
        } else {
            player.idle_anim_aim_up_forward
        },
        Pose::Forward => if walks { player.walk_anim } else { player.idle_anim },
        Pose::DownForward => if walks {
            player.walk_anim_aim_down_forward
        } else {
            player.idle_anim_aim_down_forward
        },
        Pose::Down => if walks { player.walk_anim_aim_down } else { player.idle_anim_aim_down },
    }
}

/// The squared speed of a body.
pub open spec fn square_speed(vx: i32, vy: i32) -> u64 {
    (vx * vx + vy * vy) as u64
}

/// The table of poses, state by state. On the floor and in flight, up is
/// toward negative y; under the ceiling, toward positive y; on the left wall,
/// toward positive x; on the right wall, toward negative x.
pub proof fn lemma_pose_table(aim: Vector2)
    ensures
        pose(PlayerState::OnFloor, aim) == pose(PlayerState::Flying, aim),
        pose(PlayerState::OnFloor, aim) == (if aim == (Vector2 { x: 0, y: -10_000i32 }) {
            Pose::Up
        } else if aim == (Vector2 { x: 0, y: 10_000 }) {
            Pose::Down
        } else if aim.y < 0 {
            Pose::UpForward
        } else if aim.y > 0 {
            Pose::DownForward
        } else {
            Pose::Forward
        }),
        pose(PlayerState::OnCeiling, aim) == (if aim == (Vector2 { x: 0, y: 10_000 }) {
            Pose::Up
        } else if aim == (Vector2 { x: 0, y: -10_000i32 }) {
            Pose::Down
        } else if aim.y > 0 {
            Pose::UpForward
        } else if aim.y < 0 {
            Pose::DownForward
        } else {
            Pose::Forward
        }),
        pose(PlayerState::OnLeftWall, aim) == (if aim == (Vector2 { x: 10_000, y: 0 }) {
            Pose::Up
        } else if aim == (Vector2 { x: -10_000i32, y: 0 }) {
            Pose::Down
        } else if aim.x < 0 {
            Pose::DownForward
        } else if aim.x > 0 {
            Pose::UpForward
        } else {
            Pose::Forward
        }),
        pose(PlayerState::OnRightWall, aim) == (if aim == (Vector2 { x: -10_000i32, y: 0 }) {
            Pose::Up
        } else if aim == (Vector2 { x: 10_000, y: 0 }) {
            Pose::Down
        } else if aim.x > 0 {
            Pose::DownForward
        } else if aim.x < 0 {
            Pose::UpForward
        } else {
            Pose::Forward
        }),
{
}

/// The table of flips, state by state.
pub proof fn lemma_flip_table(aim: Vector2)
    ensures
        flip(PlayerState::OnFloor, aim) == flip(PlayerState::Flying, aim),
        flip(PlayerState::OnFloor, aim) == (if aim.x > 0 {
            Some(false)
        } else if aim.x < 0 {
            Some(true)
        } else {
            None
        }),
        flip(PlayerState::OnCeiling, aim) == (if aim.x > 0 {
            Some(true)
        } else if aim.x < 0 {
            Some(false)
        } else {
            None
        }),
        flip(PlayerState::OnLeftWall, aim) == (if aim.y < 0 {
            Some(true)
        } else if aim.y > 0 {
            Some(false)
        } else {
            None
        }),
        flip(PlayerState::OnRightWall, aim) == (if aim.y > 0 {
            Some(true)
        } else if aim.y < 0 {
            Some(false)
        } else {
            None
        }),
{
}

/// On the floor, a player that aims straight up shows the walking animation
/// for aiming up when its squared speed is above a tenth, and the idle one
/// otherwise.
pub proof fn lemma_aiming_up_on_the_floor(player: PlayerControllerView, speed: u64)
    requires
        player.state == PlayerState::OnFloor,
        player.aim_direction == (Vector2 { x: 0, y: -10_000i32 }),
    ensures
        speed > 10_000_000 ==> animation_for(
            player,
            pose(player.state, player.aim_direction),
            speed,
        ) == player.walk_anim_aim_up,
        speed <= 10_000_000 ==> animation_for(
            player,
            pose(player.state, player.aim_direction),
            speed,
        ) == player.idle_anim_aim_up,
{
}

/// The animation for aiming straight up, at the squared speed `speed`.
pub fn aim_up_anim(player: &PlayerController, speed: u64) -> (r: SpriteAnimation)
    ensures
        r@ == animation_for(player@, Pose::Up, speed),
{
    if speed > WALKING {
        player.walk_anim_aim_up.clone()
    } else {
        player.idle_anim_aim_up.clone()
    }
}

/// The animation for aiming up and ahead, at the squared speed `speed`.
pub fn aim_up_forward_anim(player: &PlayerController, speed: u64) -> (r: SpriteAnimation)
    ensures
        r@ == animation_for(player@, Pose::UpForward, speed),
{
    if speed > WALKING {
        player.walk_anim_aim_up_forward.clone()
    } else {
        player.idle_anim_aim_up_forward.clone()
    }
}

/// The animation for aiming down and ahead, at the squared speed `speed`.
pub fn aim_down_forward_anim(player: &PlayerController, speed: u64) -> (r: SpriteAnimation)
    ensures
        r@ == animation_for(player@, Pose::DownForward, speed),
{
    if speed > WALKING {
        player.walk_anim_aim_down_forward.clone()
    } else {
        player.idle_anim_aim_down_forward.clone()
    }
}

/// The animation for aiming straight down, at the squared speed `speed`.
pub fn aim_down_anim(player: &PlayerController, speed: u64) -> (r: SpriteAnimation)
    ensures
        r@ == animation_for(player@, Pose::Down, speed),
{
    if speed > WALKING {
        player.walk_anim_aim_down.clone()
    } else {
        player.idle_anim_aim_down.clone()
    }
}

/// The animation for aiming ahead, at the squared speed `speed`.
pub fn aim_forward_anim(player: &PlayerController, speed: u64) -> (r: SpriteAnimation)
    ensures
        r@ == animation_for(player@, Pose::Forward, speed),
{
    if speed > WALKING {
        player.walk_anim.clone()
    } else {
        player.idle_anim.clone()
    }
}

/// The world after the animation of the player `e` has been chosen: its
/// animator, if it has one, shows the animation for its pose and speed, and
/// its sprite, if it has one, is flipped as its aim says.
pub open spec fn animation_step(c: ComponentsView, e: Entity) -> ComponentsView
    recommends
        plays(e),
{
    let player = c.player_controller[e.player_controller->0.index as int];
    let body = c.dynamic_body[e.dynamic_body->0.index as int];
    let animation = animation_for(
        player,
        pose(player.state, player.aim_direction),
        square_speed(body.vx, body.vy),
    );
    let sprite_animator = match e.sprite_animator {
        Some(id) => c.sprite_animator.update(
            id.index as int,
            SpriteAnimatorView { animation, ..c.sprite_animator[id.index as int] },
        ),
        None => c.sprite_animator,
    };
    let sprite_renderer = match (e.sprite_renderer, flip(player.state, player.aim_direction)) {
        (Some(id), Some(flip_x)) => c.sprite_renderer.update(
            id.index as int,
            SpriteView { flip_x, ..c.sprite_renderer[id.index as int] },
        ),
        _ => c.sprite_renderer,
    };
    ComponentsView { sprite_animator, sprite_renderer, ..c }
}

/// The animation of a player in `state` that aims along `aim`, at the squared
/// speed `speed`.
fn choose_animation(player: &PlayerController, speed: u64) -> (r: SpriteAnimation)
    ensures
        r@ == animation_for(player@, pose(player.state, player.aim_direction), speed),
{
    let aim = player.aim_direction;
    match player.state {
        PlayerState::Flying | PlayerState::OnFloor => {
            if aim.x == 0 && aim.y == -ONE {
                aim_up_anim(player, speed)
            } else if aim.x == 0 && aim.y == ONE {
                aim_down_anim(player, speed)
            } else if aim.y < 0 {
                aim_up_forward_anim(player, speed)
            } else if aim.y > 0 {
                aim_down_forward_anim(player, speed)
            } else {
                aim_forward_anim(player, speed)
            }
        },
        PlayerState::OnLeftWall => {
            if aim.x == ONE && aim.y == 0 {
                aim_up_anim(player, speed)
            } else if aim.x == -ONE && aim.y == 0 {
                aim_down_anim(player, speed)
            } else if aim.x < 0 {
                aim_down_forward_anim(player, speed)
            } else if aim.x > 0 {
                aim_up_forward_anim(player, speed)
            } else {
                aim_forward_anim(player, speed)
            }
        },
        PlayerState::OnRightWall => {
            if aim.x == -ONE && aim.y == 0 {
                aim_up_anim(player, speed)
            } else if aim.x == ONE && aim.y == 0 {
                aim_down_anim(player, speed)
            } else if aim.x > 0 {
                aim_down_forward_anim(player, speed)
            } else if aim.x < 0 {
                aim_up_forward_anim(player, speed)
            } else {
                aim_forward_anim(player, speed)
            }
        },
        PlayerState::OnCeiling => {
            if aim.x == 0 && aim.y == ONE {
                aim_up_anim(player, speed)
            } else if aim.x == 0 && aim.y == -ONE {
                aim_down_anim(player, speed)
            } else if aim.y > 0 {
                aim_up_forward_anim(player, speed)
            } else if aim.y < 0 {
                aim_down_forward_anim(player, speed)
            } else {
                aim_forward_anim(player, speed)
            }
        },
    }
}

/// Whether the sprite of a player in `state` that aims along `aim` is flipped.
fn choose_flip(state: PlayerState, aim: Vector2) -> (r: Option<bool>)
    ensures
        r == flip(state, aim),
{
    match state {
        PlayerState::Flying | PlayerState::OnFloor => {
            if aim.x > 0 {
                Some(false)
            } else if aim.x < 0 {
                Some(true)
            } else {
                None
            }
        },
        PlayerState::OnLeftWall => {
            if aim.y < 0 {
                Some(true)
            } else if aim.y > 0 {
                Some(false)
            } else {
                None
            }
        },
        PlayerState::OnRightWall => {
            if aim.y > 0 {
                Some(true)
            } else if aim.y < 0 {
                Some(false)
            } else {
                None
            }
        },
        PlayerState::OnCeiling => {
            if aim.x > 0 {
                Some(true)
            } else if aim.x < 0 {
                Some(false)
            } else {
                None
            }
        },
    }
}

/// Chooses the animation and the flip of the player `player_entity` from its
/// state, its aim and its speed.
pub fn update_animation(player_entity: &Entity, components: &mut Components)
    requires
        plays(*player_entity),
        valid(old(components)@, *player_entity),
    ensures
        final(components)@ == animation_step(old(components)@, *player_entity),
{
    let player = components.player_controller.get(player_entity.player_controller.unwrap());
    let body = *components.dynamic_body.get(player_entity.dynamic_body.unwrap());
    assert(0 <= body.vx * body.vx <= 0x4000_0000_0000_0000) by (nonlinear_arith)
        requires
            -0x8000_0000 <= body.vx < 0x8000_0000,
    ;
    assert(0 <= body.vy * body.vy <= 0x4000_0000_0000_0000) by (nonlinear_arith)
        requires
            -0x8000_0000 <= body.vy < 0x8000_0000,
    ;
    let vx: i64 = body.vx as i64;
    let vy: i64 = body.vy as i64;
    let speed2: u64 = (vx * vx) as u64 + (vy * vy) as u64;
    let animation = choose_animation(player, speed2);
    let flip_x = choose_flip(player.state, player.aim_direction);
    if let Some(animator_id) = player_entity.sprite_animator {
        let animator = components.sprite_animator.get_mut(animator_id);
        animator.animation = animation;
    }
    if let Some(renderer_id) = player_entity.sprite_renderer {
        if let Some(flipped) = flip_x {
            let renderer = components.sprite_renderer.get_mut(renderer_id);
            renderer.sprite.set_flip_x(flipped);
        }
    }
}

} // verus!
