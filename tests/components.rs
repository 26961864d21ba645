use sensor_notifier::channel::EventChannel;
use sensor_notifier::event::SensorEvent;
use sensor_notifier::level::Level;
use sensor_notifier::manager::{OutputBank, OutputWrite};
use sensor_notifier::watcher::{Action, Phase, Stimulus, Watcher, DEBOUNCE_US};

#[test]
fn level_toggles() {
    assert_eq!(Level::High.toggled(), Level::Low);
    assert_eq!(Level::Low.toggled(), Level::High);
    assert!(Level::High.is_high());
    assert!(!Level::Low.is_high());
}

#[test]
fn classify_is_active_low() {
    assert_eq!(SensorEvent::classify(3, Level::Low), SensorEvent::Closed(3));
    assert_eq!(SensorEvent::classify(3, Level::High), SensorEvent::Released(3));
    assert_eq!(SensorEvent::Closed(9).sensor_id(), 9);
    assert_eq!(SensorEvent::Released(200).sensor_id(), 200);
    assert_eq!(SensorEvent::Closed(1).level(), Level::Low);
    assert_eq!(SensorEvent::Released(1).level(), Level::High);
}

#[test]
fn status_lines() {
    assert_eq!(SensorEvent::Closed(0).status_word(), "CLOSED");
    assert_eq!(SensorEvent::Released(0).status_word(), "OPEN");
    assert_eq!(SensorEvent::Closed(0).status_line(), "SENSOR 0: CLOSED");
    assert_eq!(SensorEvent::Released(7).status_line(), "SENSOR 7: OPEN");
    assert_eq!(SensorEvent::Closed(42).status_line(), "SENSOR 42: CLOSED");
    assert_eq!(SensorEvent::Released(100).status_line(), "SENSOR 100: OPEN");
    assert_eq!(SensorEvent::Closed(255).status_line(), "SENSOR 255: CLOSED");
}

#[test]
fn watcher_cycle_reports_a_change() {
    let mut w = Watcher::new(1, Level::High);
    assert_eq!(w.action(), Action::WaitForEdge);
    assert_eq!(w.step(Stimulus::Edge), Action::Debounce(DEBOUNCE_US));
    assert_eq!(w.phase, Phase::Debouncing);
    assert_eq!(w.step(Stimulus::Settled(Level::Low)), Action::Send(SensorEvent::Closed(1)));
    assert_eq!(w.reported, Level::Low);
    assert_eq!(w.step(Stimulus::Sent), Action::WaitForEdge);
    assert_eq!(w.phase, Phase::AwaitingEdge);
    assert_eq!(w.id, 1);
}

#[test]
fn watcher_absorbs_unchanged_level() {
    let mut w = Watcher::new(0, Level::High);
    w.step(Stimulus::Edge);
    assert_eq!(w.step(Stimulus::Settled(Level::High)), Action::WaitForEdge);
    assert_eq!(w.reported, Level::High);
    assert_eq!(w.phase, Phase::AwaitingEdge);
}

#[test]
fn watcher_ignores_stimulus_out_of_phase() {
    let mut w = Watcher::new(0, Level::High);
    let before = w;
    assert_eq!(w.step(Stimulus::Sent), Action::WaitForEdge);
    assert_eq!(w.step(Stimulus::Settled(Level::Low)), Action::WaitForEdge);
    assert_eq!(w, before);
    w.step(Stimulus::Edge);
    assert_eq!(w.step(Stimulus::Edge), Action::Debounce(DEBOUNCE_US));
    assert_eq!(w.phase, Phase::Debouncing);
}

#[test]
fn channel_holds_one_event() {
    let mut ch = EventChannel::new();
    assert!(!ch.is_full());
    assert_eq!(ch.try_recv(), None);
    assert_eq!(ch.try_send(SensorEvent::Closed(0)), Ok(()));
    assert!(ch.is_full());
    assert_eq!(ch.try_send(SensorEvent::Released(1)), Err(SensorEvent::Released(1)));
    assert_eq!(ch.try_recv(), Some(SensorEvent::Closed(0)));
    assert!(!ch.is_full());
    assert_eq!(ch.try_recv(), None);
}

#[test]
fn stalled_consumer_loses_nothing() {
    let mut ch = EventChannel::new();
    let mut a = Watcher::new(0, Level::High);
    let mut b = Watcher::new(1, Level::High);
    for w in [&mut a, &mut b] {
        w.step(Stimulus::Edge);
        w.step(Stimulus::Settled(Level::Low));
    }
    // consumer stalled: the first send goes through, the second must wait
    assert!(a.offer(&mut ch));
    assert!(!b.offer(&mut ch));
    assert!(!b.offer(&mut ch));
    assert_eq!(b.phase, Phase::Sending(SensorEvent::Closed(1)));
    assert_eq!(a.phase, Phase::AwaitingEdge);
    // consumer resumes
    assert_eq!(ch.try_recv(), Some(SensorEvent::Closed(0)));
    assert!(b.offer(&mut ch));
    assert_eq!(ch.try_recv(), Some(SensorEvent::Closed(1)));
    assert_eq!(ch.try_recv(), None);
    assert_eq!(b.phase, Phase::AwaitingEdge);
}

#[test]
fn offer_without_pending_event_sends_nothing() {
    let mut ch = EventChannel::new();
    let mut w = Watcher::new(0, Level::High);
    assert!(!w.offer(&mut ch));
    assert!(!ch.is_full());
}

#[test]
fn one_sensor_events_arrive_in_order() {
    let mut ch = EventChannel::new();
    let sent = [
        SensorEvent::Closed(0),
        SensorEvent::Closed(1),
        SensorEvent::Released(0),
        SensorEvent::Released(1),
        SensorEvent::Closed(0),
    ];
    let mut got = Vec::new();
    for e in sent {
        assert!(ch.try_send(e).is_ok());
        got.push(ch.try_recv().unwrap());
    }
    let zero: Vec<SensorEvent> = got.iter().copied().filter(|e| e.sensor_id() == 0).collect();
    assert_eq!(
        zero,
        vec![SensorEvent::Closed(0), SensorEvent::Released(0), SensorEvent::Closed(0)]
    );
}

#[test]
fn handling_touches_only_the_event_line() {
    let mut bank = OutputBank::new(&vec![Level::High, Level::High, Level::High]);
    assert_eq!(
        bank.handle(SensorEvent::Closed(2)),
        OutputWrite { line: 2, level: Level::Low }
    );
    assert_eq!(bank.level(0), Level::High);
    assert_eq!(bank.level(1), Level::High);
    assert_eq!(bank.level(2), Level::Low);
    assert_eq!(
        bank.handle(SensorEvent::Released(2)),
        OutputWrite { line: 2, level: Level::High }
    );
    assert_eq!(bank.level(2), Level::High);
}
