//! The audio-event sink.
//!
//! The core never plays a sound; whenever footsteps, jumps, landings, kicks,
//! kick impacts or obstacle landings occur it records a [`SoundEvent`] here,
//! and the host drains the queue after each tick.

use vstd::prelude::*;

verus! {

/// One audio event: which sample to play and for how long.
#[derive(Debug, Clone, Copy, PartialEq, Eq, Structural)]
pub struct SoundEvent {
    /// Index into the sound table, one of the sound-id constants.
    pub sound: usize,
    /// How long the sample should play, in milliseconds.
    pub duration_ms: u64,
}

/// Shorthand for building a [`SoundEvent`] in contracts.
pub open spec fn sound_event(sound: usize, duration_ms: u64) -> SoundEvent {
    SoundEvent { sound, duration_ms }
}

/// Write-only queue of the audio events emitted during a tick.
pub struct EventQueue {
    /// The events in the order they were emitted.
    pub events: Vec<SoundEvent>,
}

impl EventQueue {
    /// An empty queue.
    pub fn new() -> (q: EventQueue)
        ensures
            q.events@ == Seq::<SoundEvent>::empty(),
    {
        EventQueue { events: Vec::new() }
    }

    /// Record one event.
    pub fn push(&mut self, sound: usize, duration_ms: u64)
        ensures
            final(self).events@ == old(self).events@.push(sound_event(sound, duration_ms)),
    {
        self.events.push(SoundEvent { sound, duration_ms });
    }
}

} // verus!
