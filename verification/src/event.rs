//! Events: what happened to an entity during a frame, kept until the end of
//! the frame.

use vstd::prelude::*;
use crate::world::{
    well_formed, Components, ComponentsView, ControlState, Entity, Event, EventReceiver, System,
    Time,
};

verus! {

impl EventReceiver {
    /// A receiver with no events.
    pub fn new() -> (r: EventReceiver)
        ensures
            r@ == Seq::<Event>::empty(),
    {
        EventReceiver { event_queue: Vec::new() }
    }

    /// Adds `event` after the events already received.
    pub fn post_event(&mut self, event: Event)
        ensures
            final(self)@ == old(self)@.push(event),
    {
        self.event_queue.push(event);
    }

    /// Forgets all events.
    pub fn clear_events(&mut self)
        ensures
            final(self)@ == Seq::<Event>::empty(),
    {
        self.event_queue.clear();
    }
}

/// Whether one of the first `n` entities has the receiver in slot `k`.
pub open spec fn receives(entities: Seq<Entity>, k: int, n: int) -> bool {
    exists|i: int|
        0 <= i < n && (#[trigger] entities[i]).event_receiver is Some
            && entities[i].event_receiver->0.index == k
}

/// The world after the receivers of the first `n` entities have been cleared:
/// those receivers are empty, and everything else is as it was.
pub open spec fn cleared(c: ComponentsView, entities: Seq<Entity>, n: int) -> ComponentsView {
    ComponentsView {
        event_receiver: Seq::new(
            c.event_receiver.len(),
            |k: int|
                if receives(entities, k, n) {
                    Seq::empty()
                } else {
                    c.event_receiver[k]
                },
        ),
        ..c
    }
}

/// After the event system has run, the receiver of every entity is empty.
pub proof fn lemma_cleared_is_empty(c: ComponentsView, entities: Seq<Entity>, i: int)
    requires
        well_formed(c, entities),
        0 <= i < entities.len(),
        entities[i].event_receiver is Some,
    ensures
        cleared(
            c,
            entities,
            entities.len() as int,
        ).event_receiver[entities[i].event_receiver->0.index as int] == Seq::<Event>::empty(),
{
    assert(receives(entities, entities[i].event_receiver->0.index as int, entities.len() as int));
}

/// The system that ends a frame.
pub struct EventSystem;

impl System for EventSystem {
    /// Clears the receiver of every entity that has one. It is to run after
    /// every system that posts or reads events.
    fn update(
        &mut self,
        control_state: &ControlState,
        components: &mut Components,
        entities: &mut Vec<Entity>,
    )
        ensures
            final(components)@ == cleared(
                old(components)@,
                old(entities)@,
                old(entities)@.len() as int,
            ),
            final(entities)@ == old(entities)@,
    {
        let ghost start = components@;
        let mut i: usize = 0;
        assert(components@.event_receiver =~= cleared(start, entities@, 0).event_receiver);
        while i < entities.len()
            invariant
                i <= entities.len(),
                entities@ == old(entities)@,
                well_formed(start, entities@),
                components@ == cleared(start, entities@, i as int),
            decreases entities.len() - i,
        {
            let entity = entities[i];
            let ghost before = components@;
            if let Some(receiver_id) = entity.event_receiver {
                let receiver = components.event_receiver.get_mut(receiver_id);
                receiver.clear_events();
            }
            proof {
                assert forall|k: int| 0 <= k < start.event_receiver.len() implies (receives(
                    entities@,
                    k,
                    i + 1,
                ) <==> receives(entities@, k, i as int) || (entity.event_receiver is Some
                    && entity.event_receiver->0.index == k)) by {
                    if receives(entities@, k, i + 1) {
                        let j = choose|j: int|
                            0 <= j < i + 1 && (#[trigger] entities@[j]).event_receiver is Some
                                && entities@[j].event_receiver->0.index == k;
                        if j < i {
                            assert(receives(entities@, k, i as int));
                        }
                    }
                    if entity.event_receiver is Some && entity.event_receiver->0.index == k {
                        assert(entities@[i as int] == entity);
                    }
                }
                assert(components@.event_receiver =~= cleared(
                    start,
                    entities@,
                    i + 1,
                ).event_receiver);
            }
            i += 1;
        }
    }

    /// Shows nothing.
    fn render(&mut self, time: Time, components: &mut Components, entities: &mut Vec<Entity>)
        ensures
            final(components)@ == old(components)@,
            final(entities)@ == old(entities)@,
    {
    }
}

} // verus!
