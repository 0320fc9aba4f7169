//! The frame: every system, once, in a fixed order.

use vstd::prelude::*;
use crate::event::{cleared, EventSystem};
use crate::physics::{physics_run, PhysicsSystem};
use crate::player::{player_frame, PlayerSystem};
use crate::sprites::{shown, SpriteSystem};
use crate::world::{ControlState, System, Time, World, WorldView};

verus! {

/// The world after one frame under `control`: physics moves the entities, the
/// player system runs players, weapons and bullets, and the event system
/// clears the events of the frame.
pub open spec fn frame(w: WorldView, control: ControlState) -> WorldView {
    let moved = WorldView {
        data: physics_run(w.data, w.entities, w.entities.len()),
        entities: w.entities,
    };
    let played = player_frame(moved, control);
    WorldView {
        data: cleared(played.data, played.entities, played.entities.len() as int),
        entities: played.entities,
    }
}

impl World {
    /// Runs one frame: the update of the physics system, then of the player
    /// system, then of the sprite system, then of the event system.
    pub fn update(&mut self, control_state: &ControlState)
        requires
            old(self).well_formed(),
        ensures
            final(self).well_formed(),
            final(self)@ == frame(old(self)@, *control_state),
    {
        let mut physics = PhysicsSystem;
        let mut player = PlayerSystem;
        let mut sprites = SpriteSystem;
        let mut events = EventSystem;
        physics.update(control_state, &mut self.data, &mut self.entities);
        player.update(control_state, &mut self.data, &mut self.entities);
        sprites.update(control_state, &mut self.data, &mut self.entities);
        events.update(control_state, &mut self.data, &mut self.entities);
    }

    /// Prepares the world to be shown at `time`: the render of each system,
    /// in the order of `update`. Only the sprite system shows anything.
    pub fn render(&mut self, time: Time)
        requires
            old(self).well_formed(),
        ensures
            final(self).well_formed(),
            final(self)@ == (WorldView {
                data: shown(old(self)@.data, old(self)@.entities, time, old(self)@.entities.len()),
                entities: old(self)@.entities,
            }),
    {
        let mut physics = PhysicsSystem;
        let mut player = PlayerSystem;
        let mut sprites = SpriteSystem;
        let mut events = EventSystem;
        physics.render(time, &mut self.data, &mut self.entities);
        player.render(time, &mut self.data, &mut self.entities);
        sprites.render(time, &mut self.data, &mut self.entities);
        events.render(time, &mut self.data, &mut self.entities);
    }
}

} // verus!
