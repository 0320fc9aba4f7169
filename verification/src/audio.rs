//! Audio sources.
//!
//! Nothing here touches an audio device. A source keeps the requests made of
//! it, in order, until whoever owns the device takes them and carries them out.

use vstd::prelude::*;
use crate::world::{
    AudioSource, AudioSourceView, Buffer, Components, ControlState, Entity, Request, RequestView,
    Source, System, Time,
};

verus! {

impl Buffer {
    /// A buffer that holds no sound.
    pub fn new() -> (r: Buffer)
        ensures
            r@ == Seq::<char>::empty(),
    {
        let r = Buffer { file: String::new() };
        assert(r@ =~= Seq::empty());
        r
    }
}

/// Makes `buffer` hold the sound in the file at `path`.
pub fn load_buffer(path: &str, buffer: &mut Buffer)
    ensures
        final(buffer)@ == path@,
{
    buffer.file = path.to_owned();
}

impl AudioSource {
    /// A source with no sound of its own and no requests.
    pub fn new() -> (r: AudioSource)
        ensures
            r@ == (AudioSourceView { source: Seq::empty(), buffer: Seq::empty() }),
    {
        let r = AudioSource { source: Source { requests: Vec::new() }, buffer: Buffer::new() };
        assert(r.source@ =~= Seq::empty());
        r
    }

    /// Makes the sound in the file at `path` this source's own.
    pub fn load_file(&mut self, path: &str)
        ensures
            final(self)@ == (AudioSourceView { buffer: path@, ..old(self)@ }),
    {
        load_buffer(path, &mut self.buffer);
    }

    /// Asks for this source's own sound to be played.
    pub fn play(&mut self)
        ensures
            final(self)@ == (AudioSourceView {
                source: old(self)@.source.push(
                    RequestView { buffer: old(self)@.buffer, stop: false },
                ),
                ..old(self)@
            }),
    {
        let buffer = self.buffer.clone();
        self.source.requests.push(Request { buffer, stop: false });
        assert(self.source@ =~= old(self).source@.push(
            RequestView { buffer: old(self)@.buffer, stop: false },
        ));
    }

    /// Asks for `buffer` to be played in place of whatever this source plays.
    pub fn play_buffer(&mut self, buffer: Buffer)
        ensures
            final(self)@ == played(old(self)@, buffer@),
    {
        self.source.requests.push(Request { buffer, stop: true });
        assert(self.source@ =~= old(self).source@.push(
            RequestView { buffer: buffer@, stop: true },
        ));
    }

    /// Hands over the requests made of this source, oldest first, and leaves it
    /// with none.
    pub fn take_requests(&mut self) -> (r: Vec<Request>)
        ensures
            r@.map_values(|q: Request| q@) == old(self)@.source,
            final(self)@ == (AudioSourceView { source: Seq::empty(), ..old(self)@ }),
    {
        let mut requests: Vec<Request> = Vec::new();
        core::mem::swap(&mut requests, &mut self.source.requests);
        assert(self.source@ =~= Seq::empty());
        requests
    }
}

/// A source after it has been asked to play `buffer` in place of whatever it
/// plays.
pub open spec fn played(source: AudioSourceView, buffer: Seq<char>) -> AudioSourceView {
    AudioSourceView { source: source.source.push(RequestView { buffer, stop: true }), ..source }
}

/// The place of audio in the order of systems. It changes nothing in the
/// world: sounds are requested by the systems that cause them.
pub struct AudioSystem;

impl AudioSystem {
    /// The audio system.
    pub fn new() -> (r: AudioSystem) {
        AudioSystem
    }
}

impl System for AudioSystem {
    /// Changes nothing.
    fn update(
        &mut self,
        control_state: &ControlState,
        components: &mut Components,
        entities: &mut Vec<Entity>,
    )
        ensures
            final(components)@ == old(components)@,
            final(entities)@ == old(entities)@,
    {
    }

    /// Shows nothing.
    fn render(&mut self, time: Time, components: &mut Components, entities: &mut Vec<Entity>)
        ensures
            final(components)@ == old(components)@,
            final(entities)@ == old(entities)@,
    {
    }
}

} // verus!
