//! The per-sensor watcher: debounce, classify, send.
use vstd::prelude::*;
use crate::channel::EventChannel;
use crate::event::{event_for, SensorEvent};
use crate::level::Level;

verus! {

/// Time the line is left alone after an edge before its level is trusted,
/// in microseconds.
pub const DEBOUNCE_US: u64 = 1000;

/// Where a watcher is in its cycle.
#[derive(Clone, Copy, Debug, PartialEq, Eq, Structural)]
pub enum Phase {
    /// Suspended until any edge occurs on the line.
    AwaitingEdge,
    /// An edge was seen; waiting out the debounce interval.
    Debouncing,
    /// A settled change was classified; the event is being handed to the channel.
    Sending(SensorEvent),
}

/// What the watcher reports back to its machine after performing an action.
#[derive(Clone, Copy, Debug, PartialEq, Eq, Structural)]
pub enum Stimulus {
    /// An edge (rising or falling) occurred on the line.
    Edge,
    /// The debounce interval elapsed and the line read this level.
    Settled(Level),
    /// The channel accepted the pending event.
    Sent,
}

/// What the driver of a watcher must do next.
#[derive(Clone, Copy, Debug, PartialEq, Eq, Structural)]
pub enum Action {
    /// Wait for any edge on the line, then report `Stimulus::Edge`.
    WaitForEdge,
    /// Sleep this many microseconds, read the line, report `Stimulus::Settled`.
    Debounce(u64),
    /// Send the event into the channel (waiting while it is full), then
    /// report `Stimulus::Sent`.
    Send(SensorEvent),
}

/// The decisions of one sensor watcher: edge, debounce, read, classify, send.
///
/// A watcher remembers the level it last reported. After each debounce it
/// reads the settled level; a level equal to the reported one is a glitch
/// narrower than the debounce interval and is absorbed without an event.
#[derive(Clone, Copy, Debug, PartialEq, Eq, Structural)]
pub struct Watcher {
    pub id: u8,
    pub reported: Level,
    pub phase: Phase,
}

/// The action that a phase calls for.
pub open spec fn action_for(phase: Phase) -> Action {
    match phase {
        Phase::AwaitingEdge => Action::WaitForEdge,
        Phase::Debouncing => Action::Debounce(DEBOUNCE_US),
        Phase::Sending(e) => Action::Send(e),
    }
}

impl Watcher {
    /// A pending event always reports this watcher's sensor at the level it
    /// last reported.
    pub open spec fn wf(self) -> bool {
        match self.phase {
            Phase::Sending(e) => e == event_for(self.id, self.reported),
            _ => true,
        }
    }

    /// The next state and action on `input`. A stimulus that does not belong
    /// to the current phase changes nothing and repeats the current action.
    pub open spec fn transition(self, input: Stimulus) -> (Watcher, Action) {
        match (self.phase, input) {
            (Phase::AwaitingEdge, Stimulus::Edge) => (
                Watcher { phase: Phase::Debouncing, ..self },
                Action::Debounce(DEBOUNCE_US),
            ),
            (Phase::Debouncing, Stimulus::Settled(level)) => if level == self.reported {
                (Watcher { phase: Phase::AwaitingEdge, ..self }, Action::WaitForEdge)
            } else {
                (
                    Watcher { reported: level, phase: Phase::Sending(event_for(self.id, level)), ..self },
                    Action::Send(event_for(self.id, level)),
                )
            },
            (Phase::Sending(_), Stimulus::Sent) => (
                Watcher { phase: Phase::AwaitingEdge, ..self },
                Action::WaitForEdge,
            ),
            _ => (self, action_for(self.phase)),
        }
    }

    /// A watcher for sensor `id` whose line was read at `initial` at startup,
    /// waiting for its first edge.
    pub fn new(id: u8, initial: Level) -> (r: Watcher)
        ensures
            r == (Watcher { id, reported: initial, phase: Phase::AwaitingEdge }),
            r.wf(),
    {
        Watcher { id, reported: initial, phase: Phase::AwaitingEdge }
    }

    /// The action the current phase calls for.
    pub fn action(&self) -> (r: Action)
        ensures
            r == action_for(self.phase),
    {
        match self.phase {
            Phase::AwaitingEdge => Action::WaitForEdge,
            Phase::Debouncing => Action::Debounce(DEBOUNCE_US),
            Phase::Sending(e) => Action::Send(e),
        }
    }

    /// Advances the machine on `input` and returns the next action.
    pub fn step(&mut self, input: Stimulus) -> (r: Action)
        requires
            old(self).wf(),
        ensures
            (*final(self), r) == old(self).transition(input),
            final(self).wf(),
            final(self).id == old(self).id,
            r == action_for(final(self).phase),
    {
        match (self.phase, input) {
            (Phase::AwaitingEdge, Stimulus::Edge) => {
                self.phase = Phase::Debouncing;
                Action::Debounce(DEBOUNCE_US)
            },
            (Phase::Debouncing, Stimulus::Settled(level)) => {
                if level == self.reported {
                    self.phase = Phase::AwaitingEdge;
                    Action::WaitForEdge
                } else {
                    let e = SensorEvent::classify(self.id, level);
                    self.reported = level;
                    self.phase = Phase::Sending(e);
                    Action::Send(e)
                }
            },
            (Phase::Sending(_), Stimulus::Sent) => {
                self.phase = Phase::AwaitingEdge;
                Action::WaitForEdge
            },
            _ => self.action(),
        }
    }

    /// Performs one attempt of a pending `Send`: offers the event to the
    /// channel. If the channel accepts it the watcher goes back to waiting
    /// for an edge; if the channel is full nothing changes and the watcher
    /// keeps its event for the next attempt. Returns whether it was sent.
    pub fn offer(&mut self, ch: &mut EventChannel) -> (r: bool)
        requires
            old(self).wf(),
            old(ch).wf(),
        ensures
            final(self).wf(),
            final(ch).wf(),
            match old(self).phase {
                Phase::Sending(e) => if old(ch)@.len() == 0 {
                    &&& r
                    &&& *final(self) == old(self).transition(Stimulus::Sent).0
                    &&& final(ch)@ == seq![e]
                    &&& final(ch).accepted() == old(ch).accepted().push(e)
                    &&& final(ch).delivered() == old(ch).delivered()
                } else {
                    !r && *final(self) == *old(self) && *final(ch) == *old(ch)
                },
                _ => !r && *final(self) == *old(self) && *final(ch) == *old(ch),
            },
    {
        match self.phase {
            Phase::Sending(e) => {
                match ch.try_send(e) {
                    Ok(()) => {
                        let _ = self.step(Stimulus::Sent);
                        true
                    },
                    Err(_) => false,
                }
            },
            _ => false,
        }
    }
}

} // verus!
