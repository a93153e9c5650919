use jenkins_exporter::scheduler::{Action, Event, Phase, Scheduler};

#[test]
fn first_round_starts_at_once() {
    let (s, action) = Scheduler::start(1800);
    assert_eq!(action, Action::StartRound { wait_sec: 0 });
    assert_eq!(s.phase, Phase::Fetching { wait_elapsed: false });
    assert_eq!(s.poll_interval_sec, 1800);
    assert!(s.is_fetching());
    assert!(!s.is_publishing());
}

#[test]
fn publish_when_the_cycle_finishes_after_the_wait() {
    let (mut s, _) = Scheduler::start(60);
    assert_eq!(s.step(Event::WaitElapsed), Some(Action::Pending));
    assert_eq!(s.phase, Phase::Fetching { wait_elapsed: true });
    assert_eq!(s.step(Event::CycleFinished), Some(Action::Publish));
    assert_eq!(s.phase, Phase::Publishing);
    assert!(s.is_publishing());
    assert!(!s.is_fetching());
}

#[test]
fn publish_when_the_wait_ends_after_the_cycle() {
    let (mut s, _) = Scheduler::start(60);
    assert_eq!(s.step(Event::CycleFinished), Some(Action::Pending));
    assert_eq!(s.phase, Phase::Idle);
    assert_eq!(s.step(Event::WaitElapsed), Some(Action::Publish));
    assert_eq!(s.phase, Phase::Publishing);
}

#[test]
fn next_round_waits_for_the_interval() {
    let (mut s, _) = Scheduler::start(60);
    s.step(Event::WaitElapsed);
    s.step(Event::CycleFinished);
    assert_eq!(s.step(Event::PublishDone), Some(Action::StartRound { wait_sec: 60 }));
    assert_eq!(s.phase, Phase::Fetching { wait_elapsed: false });
    s.step(Event::CycleFinished);
    s.step(Event::WaitElapsed);
    assert_eq!(s.step(Event::PublishDone), Some(Action::StartRound { wait_sec: 60 }));
}

#[test]
fn events_out_of_place_change_nothing() {
    let (mut s, _) = Scheduler::start(60);
    let before = s;
    assert_eq!(s.step(Event::PublishDone), None);
    assert_eq!(s, before);
    s.step(Event::WaitElapsed);
    let before = s;
    assert_eq!(s.step(Event::WaitElapsed), None);
    assert_eq!(s, before);
    s.step(Event::CycleFinished);
    let before = s;
    assert_eq!(s.step(Event::CycleFinished), None);
    assert_eq!(s.step(Event::WaitElapsed), None);
    assert_eq!(s, before);
    let (mut idle, _) = Scheduler::start(60);
    idle.step(Event::CycleFinished);
    let before = idle;
    assert_eq!(idle.step(Event::CycleFinished), None);
    assert_eq!(idle.step(Event::PublishDone), None);
    assert_eq!(idle, before);
}

#[test]
fn rounds_and_publishes_take_turns() {
    let (mut s, first) = Scheduler::start(5);
    let mut done = vec![first];
    let events = [
        Event::PublishDone,
        Event::CycleFinished,
        Event::CycleFinished,
        Event::WaitElapsed,
        Event::WaitElapsed,
        Event::PublishDone,
        Event::PublishDone,
        Event::WaitElapsed,
        Event::CycleFinished,
        Event::PublishDone,
        Event::CycleFinished,
    ];
    for e in events {
        match s.step(e) {
            Some(Action::Pending) | None => {}
            Some(a) => done.push(a),
        }
    }
    assert_eq!(
        done,
        vec![
            Action::StartRound { wait_sec: 0 },
            Action::Publish,
            Action::StartRound { wait_sec: 5 },
            Action::Publish,
            Action::StartRound { wait_sec: 5 },
        ]
    );
    assert_eq!(s.phase, Phase::Idle);
}
