use vigil_reporter::{Action, Event, Interval, Phase, Schedule};

fn deliveries(actions: &[Action]) -> usize {
    actions.iter().filter(|a| **a == Action::Deliver).count()
}

#[test]
fn start_waits_ten_seconds() {
    let (s, a) = Schedule::start(Interval::from_secs(30));
    assert_eq!(s.phase(), Phase::Starting);
    assert_eq!(a, Action::Sleep(Interval::from_secs(10)));
}

#[test]
fn failing_endpoint_gives_two_attempts_per_cycle() {
    let (mut s, _) = Schedule::start(Interval::from_secs(30));
    let mut actions = Vec::new();
    for e in [Event::Slept, Event::Failed, Event::Slept, Event::Failed] {
        actions.push(s.step(e));
    }
    assert_eq!(
        actions,
        vec![
            Action::Deliver,
            Action::Sleep(Interval::from_secs(15)),
            Action::Deliver,
            Action::Sleep(Interval::from_secs(30)),
        ]
    );
    assert_eq!(deliveries(&actions), 2);
    assert_eq!(s.phase(), Phase::Resting);
    // the next cycle behaves the same
    let mut next = Vec::new();
    for e in [Event::Slept, Event::Failed, Event::Slept, Event::Failed] {
        next.push(s.step(e));
    }
    assert_eq!(next, actions);
}

#[test]
fn retry_outcome_does_not_change_schedule() {
    let (mut s, _) = Schedule::start(Interval::from_secs(30));
    let mut actions = Vec::new();
    for e in [Event::Slept, Event::Failed, Event::Slept, Event::Delivered] {
        actions.push(s.step(e));
    }
    assert_eq!(actions[3], Action::Sleep(Interval::from_secs(30)));
    assert_eq!(deliveries(&actions), 2);
    assert_eq!(s.phase(), Phase::Resting);
}

#[test]
fn accepting_endpoint_gives_one_attempt_per_cycle() {
    let (mut s, _) = Schedule::start(Interval::from_secs(30));
    let mut actions = Vec::new();
    for e in [Event::Slept, Event::Delivered, Event::Slept, Event::Delivered] {
        actions.push(s.step(e));
    }
    assert_eq!(
        actions,
        vec![
            Action::Deliver,
            Action::Sleep(Interval::from_secs(30)),
            Action::Deliver,
            Action::Sleep(Interval::from_secs(30)),
        ]
    );
    assert_eq!(deliveries(&actions), 2);
}

#[test]
fn odd_interval_retry_waits_half_to_the_nanosecond() {
    let (mut s, _) = Schedule::start(Interval::from_secs(5));
    s.step(Event::Slept);
    let wait = s.step(Event::Failed);
    assert_eq!(wait, Action::Sleep(Interval::new(2, 500_000_000)));
}

#[test]
fn unexpected_event_repeats_pending_action() {
    let (mut s, _) = Schedule::start(Interval::from_secs(30));
    assert_eq!(s.step(Event::Delivered), Action::Sleep(Interval::from_secs(10)));
    assert_eq!(s.phase(), Phase::Starting);
    s.step(Event::Slept);
    assert_eq!(s.step(Event::Slept), Action::Deliver);
    assert_eq!(s.phase(), Phase::Reporting);
}

#[test]
fn cancellation_stops_from_any_phase() {
    let (mut s, _) = Schedule::start(Interval::from_secs(30));
    assert_eq!(s.step(Event::Cancelled), Action::Stop);
    assert_eq!(s.phase(), Phase::Stopped);

    let (mut t, _) = Schedule::start(Interval::from_secs(30));
    t.step(Event::Slept);
    t.step(Event::Failed);
    assert_eq!(t.phase(), Phase::RetryWaiting);
    assert_eq!(t.step(Event::Cancelled), Action::Stop);
    assert_eq!(t.phase(), Phase::Stopped);
}

#[test]
fn stopped_loop_stays_stopped() {
    let (mut s, _) = Schedule::start(Interval::from_secs(30));
    s.step(Event::Cancelled);
    for e in [Event::Slept, Event::Delivered, Event::Failed, Event::Cancelled] {
        assert_eq!(s.step(e), Action::Stop);
        assert_eq!(s.phase(), Phase::Stopped);
    }
    assert_eq!(s.pending(), Action::Stop);
}
