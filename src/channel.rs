//! The single-slot channel that carries events from the watchers to the
//! output manager.
use vstd::prelude::*;
use crate::event::SensorEvent;

verus! {

/// The events of `s` that come from sensor `id`, in their order in `s`.
pub open spec fn of_sensor(s: Seq<SensorEvent>, id: u8) -> Seq<SensorEvent> {
    s.filter(|e: SensorEvent| e.id() == id)
}

/// Single-slot handoff queue between the watchers and the output manager.
///
/// At most one event is in flight. A send into a full channel is refused and
/// the event is handed back, so the sender keeps it and tries again once the
/// consumer has drained the slot: producers stall, nothing is dropped.
///
/// The ghost histories record every event the channel has accepted and every
/// event it has delivered; the accepted ones are exactly the delivered ones
/// followed by the one still in the slot.
pub struct EventChannel {
    slot: Option<SensorEvent>,
    accepted: Ghost<Seq<SensorEvent>>,
    delivered: Ghost<Seq<SensorEvent>>,
}

impl View for EventChannel {
    type V = Seq<SensorEvent>;

    /// The events waiting in the channel, oldest first (at most one).
    closed spec fn view(&self) -> Seq<SensorEvent> {
        match self.slot {
            Some(e) => seq![e],
            None => Seq::empty(),
        }
    }
}

impl EventChannel {
    /// Every event that a send has placed into the channel, in order.
    pub closed spec fn accepted(&self) -> Seq<SensorEvent> {
        self.accepted@
    }

    /// Every event that a receive has taken out of the channel, in order.
    pub closed spec fn delivered(&self) -> Seq<SensorEvent> {
        self.delivered@
    }

    pub closed spec fn wf(&self) -> bool {
        self.accepted@ == self.delivered@ + self@
    }

    pub fn new() -> (r: EventChannel)
        ensures
            r.wf(),
            r@ == Seq::<SensorEvent>::empty(),
            r.accepted() == Seq::<SensorEvent>::empty(),
            r.delivered() == Seq::<SensorEvent>::empty(),
    {
        let r = EventChannel { slot: None, accepted: Ghost(Seq::empty()), delivered: Ghost(Seq::empty()) };
        assert(r.accepted@ =~= r.delivered@ + r@);
        r
    }

    /// Whether an event is waiting, so that a send would be refused.
    pub fn is_full(&self) -> (r: bool)
        ensures
            r == (self@.len() == 1),
    {
        self.slot.is_some()
    }

    /// Places `e` into the channel if it is empty. If an event is already
    /// waiting the channel is left as it was and `e` comes back as `Err(e)`.
    pub fn try_send(&mut self, e: SensorEvent) -> (r: Result<(), SensorEvent>)
        requires
            old(self).wf(),
        ensures
            final(self).wf(),
            old(self)@.len() == 0 ==> {
                &&& r is Ok
                &&& final(self)@ == seq![e]
                &&& final(self).accepted() == old(self).accepted().push(e)
                &&& final(self).delivered() == old(self).delivered()
            },
            old(self)@.len() != 0 ==> r == Err::<(), SensorEvent>(e) && *final(self) == *old(self),
    {
        if self.slot.is_some() {
            Err(e)
        } else {
            self.slot = Some(e);
            self.accepted = Ghost(self.accepted@.push(e));
            assert(self.accepted@ =~= self.delivered@ + self@);
            Ok(())
        }
    }

    /// Takes the waiting event out of the channel, if there is one.
    pub fn try_recv(&mut self) -> (r: Option<SensorEvent>)
        requires
            old(self).wf(),
        ensures
            final(self).wf(),
            final(self)@ == Seq::<SensorEvent>::empty(),
            final(self).accepted() == old(self).accepted(),
            old(self)@.len() == 0 ==> r is None && *final(self) == *old(self),
            old(self)@.len() != 0 ==> {
                &&& r == Some(old(self)@[0])
                &&& final(self).delivered() == old(self).delivered().push(old(self)@[0])
            },
    {
        match self.slot {
            None => {
                assert(self@ =~= Seq::<SensorEvent>::empty());
                None
            }
            Some(e) => {
                self.slot = None;
                self.delivered = Ghost(self.delivered@.push(e));
                assert(self.accepted@ =~= self.delivered@ + self@);
                Some(e)
            }
        }
    }
}

/// Nothing is lost and nothing is reordered: every event the channel has
/// accepted has either been delivered, in the order of acceptance, or is the
/// one event still waiting in the slot.
pub proof fn lemma_nothing_lost(ch: &EventChannel)
    requires
        ch.wf(),
    ensures
        ch@.len() <= 1,
        ch.accepted() == ch.delivered() + ch@,
        ch.delivered() == ch.accepted().take(ch.delivered().len() as int),
{
    assert(ch.accepted() == ch.delivered() + ch@);
    assert(ch.delivered() =~= ch.accepted().take(ch.delivered().len() as int));
}

/// Events of one sensor reach the consumer in the order the channel accepted
/// them: for each sensor, the delivered events are a prefix of the accepted
/// ones.
pub proof fn lemma_per_sensor_order(ch: &EventChannel, id: u8)
    requires
        ch.wf(),
    ensures
        of_sensor(ch.delivered(), id)
            == of_sensor(ch.accepted(), id).take(of_sensor(ch.delivered(), id).len() as int),
{
    let pred = |e: SensorEvent| e.id() == id;
    assert(ch.accepted() == ch.delivered() + ch@);
    Seq::filter_distributes_over_add(ch.delivered(), ch@, pred);
    assert(of_sensor(ch.delivered(), id) =~= of_sensor(ch.accepted(), id).take(
        of_sensor(ch.delivered(), id).len() as int,
    ));
}

} // verus!
