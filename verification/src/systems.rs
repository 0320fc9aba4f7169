//! A plain sprite process: entities that are steered directly by four keys.
//!
//! It knows nothing of surfaces, collisions or weapons, and is of use where a
//! sprite is to be moved about without the rest of the game.

use vstd::prelude::*;
use crate::fixed::{clamp, saturate, ONE};
use crate::sprites::frame_at;
use crate::vector::Vector2;
use crate::world::{
    grown, well_formed, Components, ComponentsView, Entity, Position, SpriteView, Time,
};

verus! {

/// The steering keys that are held down.
#[derive(Clone, Copy, Debug, PartialEq, Eq, Structural)]
pub struct InputState {
    pub right: bool,
    pub left: bool,
    pub up: bool,
    pub down: bool,
}

/// What a process is told about the frame: the time since the last one, and
/// the keys.
#[derive(Clone, Copy, Debug, PartialEq, Eq, Structural)]
pub struct UpdateContext {
    pub delta_time: Time,
    pub input: InputState,
}

/// The component that carries the context of a frame.
#[derive(Clone, Copy, Debug, PartialEq, Eq, Structural)]
pub struct UpdateContextComponent {
    pub context: UpdateContext,
}

/// The process that steers sprites.
pub struct SpriteProcess;

/// Whether the sprite process runs for `e`: it has a position, a sprite and
/// an animator.
pub open spec fn steered(e: Entity) -> bool {
    e.position is Some && e.sprite_renderer is Some && e.sprite_animator is Some
}

/// A position after the held keys have moved it: a pixel to the left, then to
/// the right, then up (toward negative y), then down, for each key held.
pub open spec fn steer(position: Position, input: InputState) -> Position {
    let left = if input.left {
        clamp(position.x - ONE)
    } else {
        position.x as int
    };
    let x = if input.right {
        clamp(left + ONE)
    } else {
        left
    };
    let up = if input.up {
        clamp(position.y - ONE)
    } else {
        position.y as int
    };
    let y = if input.down {
        clamp(up + ONE)
    } else {
        up
    };
    Position { x: x as i32, y: y as i32 }
}

/// The world after the sprite process has dealt with `e`: its position is
/// steered by the keys, and its sprite is placed there and shows the frame of
/// its animator for `time`, if the animator has frames.
pub open spec fn process_step(
    c: ComponentsView,
    e: Entity,
    input: InputState,
    time: Time,
) -> ComponentsView
    recommends
        steered(e),
{
    let position = steer(c.position[e.position->0.index as int], input);
    let animator = c.sprite_animator[e.sprite_animator->0.index as int];
    let sprite = c.sprite_renderer[e.sprite_renderer->0.index as int];
    let placed = SpriteView { position: Vector2 { x: position.x, y: position.y }, ..sprite };
    let framed = if animator.animation.frames.len() > 0 {
        SpriteView { src_rect: Some(frame_at(animator, time)), ..placed }
    } else {
        placed
    };
    ComponentsView {
        position: c.position.update(e.position->0.index as int, position),
        sprite_renderer: c.sprite_renderer.update(e.sprite_renderer->0.index as int, framed),
        ..c
    }
}

/// The world after the sprite process has dealt with the first `n` entities,
/// in order.
pub open spec fn processed(
    c: ComponentsView,
    entities: Seq<Entity>,
    input: InputState,
    time: Time,
    n: nat,
) -> ComponentsView
    decreases n,
{
    if n == 0 {
        c
    } else {
        let before = processed(c, entities, input, time, (n - 1) as nat);
        if steered(entities[n - 1]) {
            process_step(before, entities[n - 1], input, time)
        } else {
            before
        }
    }
}

impl SpriteProcess {
    /// Steers each entity that has a position, a sprite and an animator by the
    /// keys of `context`, and prepares its sprite for `time`.
    pub fn process(
        &mut self,
        entities: &Vec<Entity>,
        data: &mut Components,
        context: &UpdateContextComponent,
        time: Time,
    )
        requires
            well_formed(old(data)@, entities@),
        ensures
            final(data)@ == processed(
                old(data)@,
                entities@,
                context.context.input,
                time,
                entities@.len(),
            ),
            well_formed(final(data)@, entities@),
            grown(old(data)@, final(data)@),
    {
        let ghost start = data@;
        let input = context.context.input;
        let mut i: usize = 0;
        while i < entities.len()
            invariant
                i <= entities.len(),
                input == context.context.input,
                well_formed(data@, entities@),
                grown(start, data@),
                data@ == processed(start, entities@, input, time, i as nat),
            decreases entities.len() - i,
        {
            let e = entities[i];
            if let (Some(p_id), Some(s_id), Some(a_id)) = (
                e.position,
                e.sprite_renderer,
                e.sprite_animator,
            ) {
                let position = data.position.get_mut(p_id);
                if input.left {
                    position.x = saturate(position.x as i128 - ONE as i128);
                }
                if input.right {
                    position.x = saturate(position.x as i128 + ONE as i128);
                }
                if input.up {
                    position.y = saturate(position.y as i128 - ONE as i128);
                }
                if input.down {
                    position.y = saturate(position.y as i128 + ONE as i128);
                }
                let Position { x, y } = *position;
                let sprite_animator = data.sprite_animator.get(a_id);
                let frame = if sprite_animator.animation.frames.len() > 0 {
                    Some(sprite_animator.get_frame(time))
                } else {
                    None
                };
                let sprite_renderer = data.sprite_renderer.get_mut(s_id);
                sprite_renderer.sprite.set_position(x, y);
                if let Some(src_rect) = frame {
                    sprite_renderer.sprite.set_src_rect(src_rect);
                }
            }
            i += 1;
        }
    }
}

} // verus!
