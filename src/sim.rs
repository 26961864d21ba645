//! A timed model of a sensor line and of a watcher running against it.
use vstd::prelude::*;
use crate::event::{event_for, SensorEvent};
use crate::level::Level;
use crate::watcher::{Action, DEBOUNCE_US, Phase, Stimulus, Watcher};

verus! {

/// Number of edges of `edges` that occur strictly before time `t`.
pub open spec fn count_before(edges: Seq<u64>, t: int) -> nat
    decreases edges.len(),
{
    if edges.len() == 0 {
        0
    } else {
        count_before(edges.drop_last(), t) + if edges.last() < t { 1nat } else { 0nat }
    }
}

/// Level of a line that starts at `initial` and toggles at each time of
/// `edges`, as seen at time `t` (edges at `t` itself are not yet visible).
pub open spec fn level_at(initial: Level, edges: Seq<u64>, t: int) -> Level {
    initial.after_toggles(count_before(edges, t))
}

/// The events a watcher of sensor `id` emits for the edges from index `i` on.
///
/// `reported` is the level it last reported and `busy_until` the time its
/// last debounce ended: an edge before that moment finds no edge wait armed
/// and goes unseen. A seen edge at `t` starts a debounce; at `t + DEBOUNCE_US`
/// the line is read, and the level is reported if it differs from `reported`.
pub open spec fn watch(
    id: u8,
    initial: Level,
    edges: Seq<u64>,
    i: int,
    reported: Level,
    busy_until: int,
) -> Seq<SensorEvent>
    decreases edges.len() - i,
{
    if i < 0 || i >= edges.len() {
        Seq::empty()
    } else if edges[i] < busy_until {
        watch(id, initial, edges, i + 1, reported, busy_until)
    } else {
        let t = edges[i] + DEBOUNCE_US;
        let level = level_at(initial, edges, t);
        let rest = watch(id, initial, edges, i + 1, level, t);
        if level == reported {
            rest
        } else {
            seq![event_for(id, level)] + rest
        }
    }
}

/// The events a watcher of sensor `id` emits for a line that rests at
/// `initial` at startup and then toggles at each time of `edges`.
pub open spec fn watch_line(id: u8, initial: Level, edges: Seq<u64>) -> Seq<SensorEvent> {
    watch(id, initial, edges, 0, initial, 0)
}

fn count_edges_before(edges: &Vec<u64>, t: u64) -> (r: usize)
    ensures
        r == count_before(edges@, t as int),
{
    let mut n: usize = 0;
    let mut k: usize = 0;
    while k < edges.len()
        invariant
            k <= edges.len(),
            n == count_before(edges@.take(k as int), t as int),
            n <= k,
        decreases edges.len() - k,
    {
        assert(edges@.take(k + 1).drop_last() =~= edges@.take(k as int));
        if edges[k] < t {
            n = n + 1;
        }
        k = k + 1;
    }
    assert(edges@.take(k as int) =~= edges@);
    n
}

/// Runs a watcher of sensor `id` against a simulated line that rests at
/// `initial` at startup and toggles at each time (in microseconds) of
/// `edges`, and returns the events it sends, in order. Sends complete at
/// once, as with a consumer that keeps up.
pub fn simulate_watcher(id: u8, initial: Level, edges: &Vec<u64>) -> (r: Vec<SensorEvent>)
    requires
        forall|k: int| 0 <= k < edges.len() ==> edges[k] <= u64::MAX - DEBOUNCE_US,
    ensures
        r@ == watch_line(id, initial, edges@),
{
    let mut w = Watcher::new(id, initial);
    let mut out: Vec<SensorEvent> = Vec::new();
    let mut busy_until: u64 = 0;
    let mut i: usize = 0;
    while i < edges.len()
        invariant
            i <= edges.len(),
            forall|k: int| 0 <= k < edges.len() ==> edges[k] <= u64::MAX - DEBOUNCE_US,
            w.wf(),
            w.id == id,
            w.phase == Phase::AwaitingEdge,
            out@ + watch(id, initial, edges@, i as int, w.reported, busy_until as int)
                == watch_line(id, initial, edges@),
        decreases edges.len() - i,
    {
        if edges[i] >= busy_until {
            let t = edges[i] + DEBOUNCE_US;
            let _ = w.step(Stimulus::Edge);
            let settled = if count_edges_before(edges, t) % 2 == 0 { initial } else { initial.toggled() };
            assert(settled == level_at(initial, edges@, t as int));
            let ghost out0 = out@;
            let a = w.step(Stimulus::Settled(settled));
            match a {
                Action::Send(e) => {
                    out.push(e);
                    let _ = w.step(Stimulus::Sent);
                    assert(out@ + watch(id, initial, edges@, i + 1, w.reported, t as int)
                        =~= out0 + (seq![e] + watch(id, initial, edges@, i + 1, w.reported, t as int)));
                },
                _ => {},
            }
            busy_until = t;
        }
        i = i + 1;
    }
    out
}

/// Edge times that are each at least the debounce interval after the one before.
pub open spec fn separated(edges: Seq<u64>) -> bool {
    forall|k: int| 0 <= k < edges.len() - 1 ==> edges[k + 1] >= #[trigger] edges[k] + DEBOUNCE_US
}

/// The events `Closed` and `Released` in turn for sensor `id`, one per edge,
/// the first one reporting the level opposite to `initial`.
pub open spec fn alternating(id: u8, initial: Level, n: nat) -> Seq<SensorEvent> {
    Seq::new(n, |k: int| event_for(id, initial.after_toggles((k + 1) as nat)))
}

proof fn lemma_count_all_before(edges: Seq<u64>, t: int)
    requires
        forall|k: int| 0 <= k < edges.len() ==> edges[k] < t,
    ensures
        count_before(edges, t) == edges.len(),
    decreases edges.len(),
{
    if edges.len() > 0 {
        lemma_count_all_before(edges.drop_last(), t);
    }
}

proof fn lemma_unseen_edges(id: u8, initial: Level, edges: Seq<u64>, i: int, reported: Level, busy_until: int)
    requires
        0 <= i,
        forall|k: int| i <= k < edges.len() ==> edges[k] < busy_until,
    ensures
        watch(id, initial, edges, i, reported, busy_until) == Seq::<SensorEvent>::empty(),
    decreases edges.len() - i,
{
    if i < edges.len() {
        lemma_unseen_edges(id, initial, edges, i + 1, reported, busy_until);
    }
}

/// A line that leaves its resting level and comes back to it strictly within
/// the debounce interval of the first edge (an even number of edges, all
/// before the first edge's debounce ends) produces no event at all.
pub proof fn lemma_glitch_absorbed(id: u8, initial: Level, edges: Seq<u64>)
    requires
        edges.len() > 0,
        edges.len() % 2 == 0,
        forall|k: int| 0 <= k < edges.len() ==> #[trigger] edges[k] < edges[0] + DEBOUNCE_US,
    ensures
        watch_line(id, initial, edges) == Seq::<SensorEvent>::empty(),
{
    let t = edges[0] + DEBOUNCE_US;
    lemma_count_all_before(edges, t);
    assert(level_at(initial, edges, t) == initial);
    lemma_unseen_edges(id, initial, edges, 1, initial, t);
}

proof fn lemma_separated_increase(edges: Seq<u64>, a: int, b: int)
    requires
        separated(edges),
        0 <= a < b < edges.len(),
    ensures
        edges[b] >= edges[a] + DEBOUNCE_US,
    decreases b - a,
{
    if b > a + 1 {
        lemma_separated_increase(edges, a, b - 1);
    }
}

proof fn lemma_count_separated(edges: Seq<u64>, i: int)
    requires
        separated(edges),
        0 <= i < edges.len(),
    ensures
        count_before(edges, edges[i] + DEBOUNCE_US) == i + 1,
    decreases edges.len(),
{
    let t = edges[i] + DEBOUNCE_US;
    let init = edges.drop_last();
    assert(separated(init));
    if i < edges.len() - 1 {
        lemma_separated_increase(edges, i, edges.len() - 1);
        lemma_count_separated(init, i);
    } else {
        assert forall|k: int| 0 <= k < init.len() implies init[k] < t by {
            lemma_separated_increase(edges, k, i);
        }
        lemma_count_all_before(init, t);
    }
}

proof fn lemma_watch_separated(id: u8, initial: Level, edges: Seq<u64>, i: int)
    requires
        separated(edges),
        0 <= i <= edges.len(),
    ensures
        watch(id, initial, edges, i, initial.after_toggles(i as nat), if i == 0 { 0 } else { edges[i - 1] + DEBOUNCE_US })
            == alternating(id, initial, edges.len()).subrange(i, edges.len() as int),
    decreases edges.len() - i,
{
    let all = alternating(id, initial, edges.len());
    if i == edges.len() {
        assert(all.subrange(i, edges.len() as int) =~= Seq::<SensorEvent>::empty());
    } else {
        let t = edges[i] + DEBOUNCE_US;
        lemma_count_separated(edges, i);
        lemma_watch_separated(id, initial, edges, i + 1);
        assert(initial.after_toggles((i + 1) as nat) != initial.after_toggles(i as nat));
        assert(all.subrange(i, edges.len() as int)
            =~= seq![all[i]] + all.subrange(i + 1, edges.len() as int));
    }
}

/// Edges that are each at least the debounce interval apart give exactly one
/// event each, alternating between the two levels and starting with the
/// level opposite to the line's resting level.
pub proof fn lemma_separated_edges_alternate(id: u8, initial: Level, edges: Seq<u64>)
    requires
        separated(edges),
    ensures
        watch_line(id, initial, edges) == alternating(id, initial, edges.len()),
        watch_line(id, initial, edges).len() == edges.len(),
        edges.len() > 0 ==> watch_line(id, initial, edges)[0] == event_for(id, initial.flipped()),
        forall|k: int| 0 <= k < edges.len() - 1 ==>
            (#[trigger] watch_line(id, initial, edges)[k + 1]).spec_level()
                != watch_line(id, initial, edges)[k].spec_level(),
{
    let all = alternating(id, initial, edges.len());
    lemma_watch_separated(id, initial, edges, 0);
    assert(all.subrange(0, edges.len() as int) =~= all);
    assert forall|k: int| 0 <= k < edges.len() - 1 implies
        (#[trigger] all[k + 1]).spec_level() != all[k].spec_level() by {
        assert(initial.after_toggles((k + 2) as nat) != initial.after_toggles((k + 1) as nat));
    }
}

} // verus!
