//! Sprites: what is drawn, and the system that keeps it in step with the world.

use vstd::prelude::*;
use crate::fixed::{clamp, saturate};
use crate::vector::Vector2;
use crate::world::{
    grown, well_formed, Components, ComponentsView, ControlState, Entity, Rotation, Sprite,
    SpriteAnimator, SpriteAnimatorView, SpriteRenderer, SpriteView, System, Texture, Time,
};

verus! {

impl Sprite {
    /// A sprite that shows all of `texture`, unturned and unflipped, at the
    /// origin.
    pub fn from_texture(texture: Texture) -> (r: Sprite)
        ensures
            r@ == (SpriteView {
                texture: texture@,
                src_rect: None,
                position: Vector2 { x: 0, y: 0 },
                rotation: Rotation { facing: Vector2 { x: 0, y: 0 }, degrees: 0 },
                flip_x: false,
            }),
    {
        Sprite {
            texture,
            src_rect: None,
            position: Vector2 { x: 0, y: 0 },
            rotation: Rotation { facing: Vector2 { x: 0, y: 0 }, degrees: 0 },
            flip_x: false,
        }
    }

    /// Shows only the part `src_rect` of the texture.
    pub fn set_src_rect(&mut self, src_rect: [i32; 4])
        ensures
            final(self)@ == (SpriteView { src_rect: Some(src_rect), ..old(self)@ }),
    {
        self.src_rect = Some(src_rect);
    }

    /// Places the sprite.
    pub fn set_position(&mut self, x: i32, y: i32)
        ensures
            final(self)@ == (SpriteView { position: Vector2 { x, y }, ..old(self)@ }),
    {
        self.position = Vector2 { x, y };
    }

    /// Turns the sprite by `degrees`.
    pub fn set_rotation(&mut self, degrees: i32)
        ensures
            final(self)@ == (SpriteView {
                rotation: Rotation { facing: Vector2 { x: 0, y: 0 }, degrees },
                ..old(self)@
            }),
    {
        self.rotation = Rotation { facing: Vector2 { x: 0, y: 0 }, degrees };
    }

    /// Turns the sprite by the angle of `facing` plus `degrees`.
    pub fn set_rotation_toward(&mut self, facing: Vector2, degrees: i32)
        ensures
            final(self)@ == (SpriteView { rotation: Rotation { facing, degrees }, ..old(self)@ }),
    {
        self.rotation = Rotation { facing, degrees };
    }

    /// Mirrors the sprite, or not.
    pub fn set_flip_x(&mut self, flip_x: bool)
        ensures
            final(self)@ == (SpriteView { flip_x, ..old(self)@ }),
    {
        self.flip_x = flip_x;
    }
}

impl SpriteRenderer {
    /// A renderer that shows the part `region` of `texture`.
    pub fn from_texture_region(texture: Texture, region: [i32; 4]) -> (r: SpriteRenderer)
        ensures
            r@ == (SpriteView {
                texture: texture@,
                src_rect: Some(region),
                position: Vector2 { x: 0, y: 0 },
                rotation: Rotation { facing: Vector2 { x: 0, y: 0 }, degrees: 0 },
                flip_x: false,
            }),
    {
        let mut sprite = Sprite::from_texture(texture);
        sprite.set_src_rect(region);
        SpriteRenderer { sprite }
    }
}

/// How many whole frame durations fit into `elapsed`: none before the start
/// or with a negative duration, and more than can be counted with a duration
/// of zero.
pub open spec fn frames_elapsed(elapsed: int, duration: int) -> int {
    if duration == 0 {
        if elapsed > 0 {
            u64::MAX as int
        } else {
            0
        }
    } else if elapsed >= 0 && duration > 0 {
        let steps = elapsed / duration;
        if steps > u64::MAX {
            u64::MAX as int
        } else {
            steps
        }
    } else if elapsed < 0 && duration < 0 {
        let steps = (-elapsed) / (-duration);
        if steps > u64::MAX {
            u64::MAX as int
        } else {
            steps
        }
    } else {
        0
    }
}

/// Which of its frames an animator shows at `time`: the frames follow one
/// another, each for the frame duration, and start over after the last.
pub open spec fn frame_index(animator: SpriteAnimatorView, time: Time) -> int
    recommends
        animator.animation.frames.len() > 0,
{
    frames_elapsed(time - animator.start_time, animator.animation.frame_duration as int) % (
    animator.animation.frames.len() as int)
}

/// The part of the sprite sheet that holds the frame in column `x` and row
/// `y`, for frames of `width` by `height` pixels: its left, top, right and
/// bottom edge.
pub open spec fn frame_rect(x: i32, y: i32, width: i32, height: i32) -> [i32; 4] {
    [
        clamp(x * width) as i32,
        clamp(y * height) as i32,
        clamp((x + 1) * width) as i32,
        clamp((y + 1) * height) as i32,
    ]
}

/// The part of the sprite sheet that an animator shows at `time`.
pub open spec fn frame_at(animator: SpriteAnimatorView, time: Time) -> [i32; 4]
    recommends
        animator.animation.frames.len() > 0,
{
    let frame = animator.animation.frames[frame_index(animator, time)];
    frame_rect(frame.0, frame.1, animator.animation.frame_size[0], animator.animation.frame_size[1])
}

/// The product of a frame's column or row, or the next one, and a frame's
/// size fits in 64 bits.
proof fn lemma_product_bound(a: int, b: int)
    requires
        -0x8000_0001 <= a <= 0x8000_0000,
        -0x8000_0000 <= b <= 0x8000_0000,
    ensures
        -0x8000_0000_0000_0000 <= a * b <= 0x8000_0000_0000_0000,
{
    assert(-0x8000_0000_0000_0000 <= a * b <= 0x8000_0000_0000_0000) by (nonlinear_arith)
        requires
            -0x8000_0001 <= a <= 0x8000_0000,
            -0x8000_0000 <= b <= 0x8000_0000,
    ;
}

impl SpriteAnimator {
    /// The part of the sprite sheet to show at `time`.
    pub fn get_frame(&self, time: Time) -> (frame: [i32; 4])
        requires
            self@.animation.frames.len() > 0,
        ensures
            frame == frame_at(self@, time),
    {
        let elapsed_time: i128 = time as i128 - self.start_time as i128;
        let duration: i128 = self.animation.frame_duration as i128;
        let steps: u64 = if duration == 0 {
            if elapsed_time > 0 {
                u64::MAX
            } else {
                0
            }
        } else if elapsed_time >= 0 && duration > 0 {
            let steps: i128 = elapsed_time / duration;
            if steps > u64::MAX as i128 {
                u64::MAX
            } else {
                steps as u64
            }
        } else if elapsed_time < 0 && duration < 0 {
            let steps: i128 = (-elapsed_time) / (-duration);
            if steps > u64::MAX as i128 {
                u64::MAX
            } else {
                steps as u64
            }
        } else {
            0
        };
        let frame_index: usize = (steps % (self.animation.frames.len() as u64)) as usize;
        let (x, y) = self.animation.frames[frame_index];
        let width: i128 = self.animation.frame_size[0] as i128;
        let height: i128 = self.animation.frame_size[1] as i128;
        proof {
            lemma_product_bound(x as int, width as int);
            lemma_product_bound(y as int, height as int);
            lemma_product_bound(x + 1, width as int);
            lemma_product_bound(y + 1, height as int);
        }
        let frame = [
            saturate(x as i128 * width),
            saturate(y as i128 * height),
            saturate((x as i128 + 1) * width),
            saturate((y as i128 + 1) * height),
        ];
        frame
    }
}

/// Whether the sprite system shows `e`: it has a sprite and a position.
pub open spec fn shows(e: Entity) -> bool {
    e.sprite_renderer is Some && e.position is Some
}

/// The world after the sprite of `e` has been prepared for `time`: it is
/// placed at the entity's position, and if the entity has an animator with
/// frames, it shows the animator's frame for `time`.
pub open spec fn show_step(c: ComponentsView, e: Entity, time: Time) -> ComponentsView
    recommends
        shows(e),
{
    let position = c.position[e.position->0.index as int];
    let sprite = c.sprite_renderer[e.sprite_renderer->0.index as int];
    let placed = SpriteView { position: Vector2 { x: position.x, y: position.y }, ..sprite };
    let framed = match e.sprite_animator {
        Some(id) => if c.sprite_animator[id.index as int].animation.frames.len() > 0 {
            SpriteView {
                src_rect: Some(frame_at(c.sprite_animator[id.index as int], time)),
                ..placed
            }
        } else {
            placed
        },
        None => placed,
    };
    ComponentsView {
        sprite_renderer: c.sprite_renderer.update(e.sprite_renderer->0.index as int, framed),
        ..c
    }
}

/// The world after the sprites of the first `n` entities have been prepared
/// for `time`, in order.
pub open spec fn shown(c: ComponentsView, entities: Seq<Entity>, time: Time, n: nat) -> ComponentsView
    decreases n,
{
    if n == 0 {
        c
    } else {
        let before = shown(c, entities, time, (n - 1) as nat);
        if shows(entities[n - 1]) {
            show_step(before, entities[n - 1], time)
        } else {
            before
        }
    }
}

/// The system that keeps sprites in step with the world.
pub struct SpriteSystem;

impl System for SpriteSystem {
    /// Changes nothing.
    fn update(
        &mut self,
        control_state: &ControlState,
        components: &mut Components,
        entities: &mut Vec<Entity>,
    )
        ensures
            final(components)@ == old(components)@,
            final(entities)@ == old(entities)@,
    {
    }

    /// Places the sprite of each entity that has one and a position, and
    /// gives it its frame for `time`. Drawing is left to the caller.
    fn render(&mut self, time: Time, components: &mut Components, entities: &mut Vec<Entity>)
        ensures
            final(components)@ == shown(
                old(components)@,
                old(entities)@,
                time,
                old(entities)@.len(),
            ),
            final(entities)@ == old(entities)@,
    {
        let ghost start = components@;
        let mut i: usize = 0;
        while i < entities.len()
            invariant
                i <= entities.len(),
                entities@ == old(entities)@,
                well_formed(components@, entities@),
                grown(start, components@),
                components@ == shown(start, entities@, time, i as nat),
            decreases entities.len() - i,
        {
            let entity = entities[i];
            if let (Some(s_id), Some(p_id)) = (entity.sprite_renderer, entity.position) {
                let position = *components.position.get(p_id);
                let frame = match entity.sprite_animator {
                    Some(a_id) => {
                        let sprite_animator = components.sprite_animator.get(a_id);
                        if sprite_animator.animation.frames.len() > 0 {
                            Some(sprite_animator.get_frame(time))
                        } else {
                            None
                        }
                    },
                    None => None,
                };
                let sprite_renderer = components.sprite_renderer.get_mut(s_id);
                sprite_renderer.sprite.set_position(position.x, position.y);
                if let Some(src_rect) = frame {
                    sprite_renderer.sprite.set_src_rect(src_rect);
                }
            }
            i += 1;
        }
    }
}

} // verus!
