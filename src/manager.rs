//! The output manager: mirrors each received event on its sensor's output line.
use vstd::prelude::*;
use crate::event::SensorEvent;
use crate::level::Level;
use crate::watcher::{Stimulus, Watcher};

verus! {

/// A write the driver performs on an output line.
#[derive(Clone, Copy, Debug, PartialEq, Eq, Structural)]
pub struct OutputWrite {
    pub line: usize,
    pub level: Level,
}

/// The output lines after handling `e`: the line at the event's sensor id
/// mirrors the reported level, every other line keeps its level.
pub open spec fn apply(lines: Seq<Level>, e: SensorEvent) -> Seq<Level> {
    lines.update(e.id() as int, e.spec_level())
}

/// The output manager's view of its lines, one per sensor, indexed by
/// sensor id, each mirroring the last level reported for its sensor.
pub struct OutputBank {
    lines: Vec<Level>,
}

impl View for OutputBank {
    type V = Seq<Level>;

    closed spec fn view(&self) -> Seq<Level> {
        self.lines@
    }
}

impl OutputBank {
    /// Output lines set to the sensors' resting levels read at startup.
    pub fn new(initial: &Vec<Level>) -> (r: OutputBank)
        ensures
            r@ == initial@,
    {
        OutputBank { lines: initial.clone() }
    }

    pub fn len(&self) -> (r: usize)
        ensures
            r == self@.len(),
    {
        self.lines.len()
    }

    pub fn level(&self, line: usize) -> (r: Level)
        requires
            line < self@.len(),
        ensures
            r == self@[line as int],
    {
        self.lines[line]
    }

    /// Reflects `e` on the output line of its sensor: `Closed` drives it
    /// low, `Released` high. Returns the one write to perform; the driver
    /// also logs `e.status_line()`.
    pub fn handle(&mut self, e: SensorEvent) -> (r: OutputWrite)
        requires
            (e.id() as int) < old(self)@.len(),
        ensures
            final(self)@ == apply(old(self)@, e),
            r == (OutputWrite { line: e.id() as usize, level: e.spec_level() }),
            forall|j: int| 0 <= j < old(self)@.len() && j != e.id() ==> final(self)@[j] == old(self)@[j],
    {
        let line = e.sensor_id() as usize;
        let level = e.level();
        self.lines.set(line, level);
        OutputWrite { line, level }
    }
}

/// Every event a watcher sends carries that watcher's id, and handling it
/// touches the output line at exactly that index and no other.
pub proof fn lemma_id_fidelity(w: Watcher, input: Stimulus, lines: Seq<Level>)
    requires
        w.wf(),
        (w.id as int) < lines.len(),
        w.transition(input).1 is Send,
    ensures
        ({
            let e = w.transition(input).1->Send_0;
            &&& e.id() == w.id
            &&& apply(lines, e)[w.id as int] == e.spec_level()
            &&& forall|j: int| 0 <= j < lines.len() && j != w.id ==> apply(lines, e)[j] == lines[j]
        }),
{
}

} // verus!
