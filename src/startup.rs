//! One-time wiring of watchers and output lines.
use vstd::prelude::*;
use crate::level::Level;
use crate::manager::OutputBank;
use crate::watcher::{Phase, Watcher};

verus! {

/// Wires the notifier before any task runs. Sensor `i` gets id `i` and a
/// watcher seeded with its resting level `initial[i]` (a single undebounced
/// read); the output lines start at those same levels.
pub fn startup(initial: &Vec<Level>) -> (r: (Vec<Watcher>, OutputBank))
    requires
        initial.len() <= 256,
    ensures
        r.0.len() == initial.len(),
        forall|i: int| 0 <= i < initial.len() ==>
            #[trigger] r.0[i] == (Watcher { id: i as u8, reported: initial[i], phase: Phase::AwaitingEdge }),
        forall|i: int| 0 <= i < initial.len() ==> (#[trigger] r.0[i]).wf(),
        r.1@ == initial@,
{
    let mut watchers: Vec<Watcher> = Vec::new();
    let mut i: usize = 0;
    while i < initial.len()
        invariant
            i <= initial.len(),
            initial.len() <= 256,
            watchers.len() == i,
            forall|k: int| 0 <= k < i ==>
                #[trigger] watchers[k] == (Watcher { id: k as u8, reported: initial[k], phase: Phase::AwaitingEdge }),
        decreases initial.len() - i,
    {
        watchers.push(Watcher::new(i as u8, initial[i]));
        i = i + 1;
    }
    (watchers, OutputBank::new(initial))
}

} // verus!
