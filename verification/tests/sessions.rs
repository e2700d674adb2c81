use pubsub_modes::failure::Failure;
use pubsub_modes::mode::Mode;
use pubsub_modes::session::{check_round_trip, Effect, Event, Phase, Publisher, Session};

fn line(text: &str) -> Effect {
    Effect::Print(String::from(text))
}

fn failure(text: &str) -> Event {
    Event::BackendFailed(String::from(text))
}

/// Feeds the events in order and returns everything that was asked for.
fn feed(session: &mut Session, events: Vec<Event>) -> Vec<Effect> {
    let mut asked = Vec::new();
    for event in events {
        asked.extend(session.step(event));
    }
    asked
}

/// The events of an untroubled invocation, from the first connection on.
fn expected_course(mode: Mode, delayed: bool) -> Vec<Event> {
    match (mode, delayed) {
        (Mode::Check, _) => vec![Event::Connected],
        (Mode::Test, _) => {
            vec![Event::Connected, Event::Stored, Event::Fetched(String::from("value"))]
        }
        (Mode::Pub, _) => vec![Event::Connected, Event::Published],
        (Mode::Sub, false) => {
            vec![Event::SubscriptionOpened, Event::Subscribed, Event::TimeoutElapsed]
        }
        (Mode::Sub, true) => vec![
            Event::SubscriptionOpened,
            Event::Subscribed,
            Event::Connected,
            Event::TimeoutElapsed,
        ],
    }
}

fn every_event() -> Vec<Event> {
    vec![
        Event::Connected,
        Event::SubscriptionOpened,
        Event::Subscribed,
        Event::Stored,
        Event::Fetched(String::from("value")),
        Event::Fetched(String::from("other")),
        Event::Published,
        failure("down"),
        Event::Message(String::from("hello")),
        Event::StreamClosed,
        Event::TimeoutElapsed,
        Event::DelayElapsed,
    ]
}

#[test]
fn check_reports_availability_and_exits_with_zero() {
    let (mut session, first) = Session::start(Mode::Check, false);
    assert_eq!(first, vec![Effect::Connect]);
    let asked = session.step(Event::Connected);
    assert_eq!(asked, vec![line("Redis is available."), Effect::Exit(0)]);
    assert!(session.is_finished());
    assert_eq!(session.exit_code(), Some(0));
}

#[test]
fn check_fails_when_the_backend_cannot_be_reached() {
    let (mut session, _) = Session::start(Mode::Check, false);
    let asked = session.step(failure("Connection refused (os error 111)"));
    assert_eq!(
        asked,
        vec![line("Error: Connection refused (os error 111)"), Effect::Exit(1)]
    );
    assert_eq!(session.phase, Phase::Failed);
    assert_eq!(session.exit_code(), Some(1));
}

#[test]
fn round_trip_of_key_and_value_exits_with_zero() {
    let (mut session, _) = Session::start(Mode::Test, false);
    assert_eq!(
        session.step(Event::Connected),
        vec![Effect::Store { key: String::from("key"), value: String::from("value") }]
    );
    assert_eq!(session.phase, Phase::Writing);
    assert_eq!(session.step(Event::Stored), vec![Effect::Fetch { key: String::from("key") }]);
    assert_eq!(session.phase, Phase::Reading);
    let asked = session.step(Event::Fetched(String::from("value")));
    assert_eq!(asked, vec![line("Got value: value"), Effect::Exit(0)]);
    assert_eq!(session.phase, Phase::Succeeded);
    assert_eq!(session.exit_code(), Some(0));
}

#[test]
fn round_trip_with_another_value_is_a_mismatch() {
    for wrong in ["", "Value", "value ", " value", "valu", "values", "other"] {
        let (mut session, _) = Session::start(Mode::Test, false);
        feed(&mut session, vec![Event::Connected, Event::Stored]);
        let asked = session.step(Event::Fetched(String::from(wrong)));
        assert_eq!(
            asked,
            vec![
                Effect::Print(format!("Got value: {}", wrong)),
                line("Error: Wrong value"),
                Effect::Exit(1),
            ]
        );
        assert_eq!(session.phase, Phase::Failed);
        assert_eq!(session.exit_code(), Some(1));
    }
}

#[test]
fn self_test_fails_when_a_call_fails() {
    for answered in 0..3 {
        let (mut session, _) = Session::start(Mode::Test, false);
        let answers = vec![Event::Connected, Event::Stored];
        feed(&mut session, answers.into_iter().take(answered).collect());
        let asked = session.step(failure("broken pipe"));
        assert_eq!(asked, vec![line("Error: broken pipe"), Effect::Exit(1)]);
        assert_eq!(session.exit_code(), Some(1));
    }
}

#[test]
fn publisher_sends_one_announcement_and_exits_with_zero() {
    let (mut session, first) = Session::start(Mode::Pub, false);
    assert_eq!(first, vec![Effect::Connect]);
    let asked = session.step_at(Event::Connected, "2024-05-06 07:08:09.5 +00:00");
    assert_eq!(
        asked,
        vec![Effect::Publish {
            channel: String::from("redis_channel"),
            payload: String::from("published from rust at 2024-05-06 07:08:09.5 +00:00"),
        }]
    );
    assert_eq!(session.phase, Phase::Announcing);
    assert_eq!(
        session.step(Event::Published),
        vec![line("Published a message to `redis_channel`."), Effect::Exit(0)]
    );
    assert_eq!(session.exit_code(), Some(0));
}

#[test]
fn publisher_stamps_the_announcement_with_the_clock() {
    let (mut session, _) = Session::start(Mode::Pub, false);
    assert!(session.wants_clock(&Event::Connected));
    let asked = session.step(Event::Connected);
    assert_eq!(asked.len(), 1);
    match &asked[0] {
        Effect::Publish { channel, payload } => {
            assert_eq!(channel, "redis_channel");
            let stamp = payload
                .strip_prefix("published from rust at ")
                .expect("the announcement begins with its fixed words");
            assert!(!stamp.is_empty());
            assert!(stamp.len() >= "2024-05-06 07:08:09 +00:00".len());
            assert!(stamp.starts_with("20"));
        }
        other => panic!("not a publish: {:?}", other),
    }
}

#[test]
fn publisher_fails_when_the_publish_fails() {
    let (mut session, _) = Session::start(Mode::Pub, false);
    session.step(Event::Connected);
    let asked = session.step(failure("READONLY"));
    assert_eq!(asked, vec![line("Error: READONLY"), Effect::Exit(1)]);
    assert_eq!(session.exit_code(), Some(1));
}

#[test]
fn only_the_announcement_looks_at_the_clock() {
    for mode in [Mode::Check, Mode::Test, Mode::Pub, Mode::Sub] {
        let (start, _) = Session::start(mode, true);
        for phase in [
            Phase::Connecting,
            Phase::Writing,
            Phase::Reading,
            Phase::Announcing,
            Phase::Attaching,
            Phase::Subscribing,
            Phase::Preparing,
            Phase::Listening,
            Phase::Succeeded,
            Phase::Failed,
        ] {
            let session = Session { phase, ..start };
            for event in every_event() {
                let wants = mode == Mode::Pub
                    && phase == Phase::Connecting
                    && event == Event::Connected;
                assert_eq!(session.wants_clock(&event), wants);
                if !wants {
                    let mut early = session;
                    let mut late = session;
                    assert_eq!(
                        early.step_at(event.clone(), "1999-12-31 23:59:59 +00:00"),
                        late.step_at(event.clone(), "2038-01-19 03:14:08 +00:00")
                    );
                    assert_eq!(early, late);
                    let mut clocked = session;
                    let mut plain = session;
                    assert_eq!(clocked.step(event.clone()), plain.step_at(event, ""));
                    assert_eq!(clocked, plain);
                }
            }
        }
    }
}

#[test]
fn all_modes_exit_with_zero_when_the_backend_answers() {
    for mode in [Mode::Check, Mode::Test, Mode::Pub, Mode::Sub] {
        for delayed in [false, true] {
            let (mut session, _) = Session::start(mode, delayed);
            let asked = feed(&mut session, expected_course(mode, delayed));
            assert_eq!(asked.last(), Some(&Effect::Exit(0)));
            assert_eq!(asked.iter().filter(|e| matches!(e, Effect::Exit(_))).count(), 1);
            assert_eq!(session.exit_code(), Some(0));
        }
    }
}

#[test]
fn every_mode_prints_at_least_one_line() {
    for mode in [Mode::Check, Mode::Test, Mode::Pub, Mode::Sub] {
        for delayed in [false, true] {
            let (mut session, _) = Session::start(mode, delayed);
            let asked = feed(&mut session, expected_course(mode, delayed));
            let lines = asked.iter().filter(|e| matches!(e, Effect::Print(_))).count();
            assert!(lines >= 1, "{:?} printed nothing", mode);
        }
    }
}

#[test]
fn expected_courses_waste_no_event() {
    for mode in [Mode::Check, Mode::Test, Mode::Pub, Mode::Sub] {
        for delayed in [false, true] {
            let (mut session, _) = Session::start(mode, delayed);
            for event in expected_course(mode, delayed) {
                assert!(!session.is_finished());
                let before = session;
                let asked = session.step(event);
                assert!(!asked.is_empty());
                assert_ne!(session, before);
            }
            assert!(session.is_finished());
        }
    }
}

#[test]
fn a_finished_session_ignores_everything() {
    let (mut done, _) = Session::start(Mode::Check, false);
    done.step(Event::Connected);
    let (mut broken, _) = Session::start(Mode::Pub, false);
    broken.step(failure("down"));
    for finished in [done, broken] {
        assert!(finished.is_finished());
        for event in every_event() {
            let mut session = finished;
            assert_eq!(session.step(event), vec![]);
            assert_eq!(session, finished);
        }
    }
}

#[test]
fn unexpected_events_change_nothing() {
    let (start, _) = Session::start(Mode::Test, false);
    for event in every_event() {
        if event == Event::Connected || matches!(event, Event::BackendFailed(_)) {
            continue;
        }
        let mut session = start;
        assert_eq!(session.step(event), vec![]);
        assert_eq!(session, start);
    }
}

#[test]
fn the_mode_never_changes() {
    for mode in [Mode::Check, Mode::Test, Mode::Pub, Mode::Sub] {
        let (mut session, _) = Session::start(mode, true);
        for event in every_event() {
            session.step(event);
            assert_eq!(session.mode, mode);
        }
    }
}

#[test]
fn exit_is_asked_exactly_when_a_step_ends_the_session() {
    for mode in [Mode::Check, Mode::Test, Mode::Pub, Mode::Sub] {
        for first in every_event() {
            for second in every_event() {
                for third in every_event() {
                    let (mut session, _) = Session::start(mode, true);
                    for event in [first.clone(), second.clone(), third.clone()] {
                        let before = session;
                        let asked = session.step(event);
                        let exits: Vec<&Effect> =
                            asked.iter().filter(|e| matches!(e, Effect::Exit(_))).collect();
                        if !before.is_finished() && session.is_finished() {
                            let code = session.exit_code().expect("finished");
                            assert_eq!(exits, vec![&Effect::Exit(code)]);
                            assert_eq!(asked.last(), Some(&Effect::Exit(code)));
                        } else {
                            assert!(exits.is_empty());
                        }
                        if session.publisher != Publisher::Absent {
                            assert_eq!(mode, Mode::Sub);
                        }
                    }
                }
            }
        }
    }
}

#[test]
fn round_trip_holds_only_for_the_written_value() {
    assert_eq!(check_round_trip("value"), Ok(()));
    for wrong in ["", "Value", "VALUE", "value ", " value", "valu", "values", "key"] {
        assert_eq!(check_round_trip(wrong), Err(Failure::ValueMismatch));
    }
}

#[test]
fn connections_and_publishes_are_few() {
    let setups = vec![
        (Mode::Check, vec![]),
        (Mode::Test, vec![]),
        (Mode::Pub, vec![]),
        (Mode::Sub, vec![]),
        (Mode::Sub, vec![Event::SubscriptionOpened, Event::Subscribed, Event::Connected]),
    ];
    for (mode, setup) in setups {
        for delayed in [false, true] {
            for first in every_event() {
                for second in every_event() {
                    for third in every_event() {
                        let (mut session, opening) = Session::start(mode, delayed);
                        assert_eq!(opening.len(), 1);
                        let mut course = setup.clone();
                        course.extend([first.clone(), second.clone(), third.clone()]);
                        let asked = feed(&mut session, course);
                        let connections = asked
                            .iter()
                            .filter(|e| matches!(e, Effect::Connect | Effect::OpenSubscription))
                            .count();
                        let publishes =
                            asked.iter().filter(|e| matches!(e, Effect::Publish { .. })).count();
                        assert!(connections <= if mode == Mode::Sub && delayed { 1 } else { 0 });
                        let may_publish = mode == Mode::Pub || (mode == Mode::Sub && delayed);
                        assert!(publishes <= if may_publish { 1 } else { 0 });
                    }
                }
            }
        }
    }
}

#[test]
fn phases_only_advance() {
    fn progress(phase: Phase) -> u8 {
        match phase {
            Phase::Connecting | Phase::Attaching => 0,
            Phase::Writing | Phase::Announcing | Phase::Subscribing => 1,
            Phase::Reading | Phase::Preparing => 2,
            Phase::Listening => 3,
            Phase::Succeeded | Phase::Failed => 4,
        }
    }
    for mode in [Mode::Check, Mode::Test, Mode::Pub, Mode::Sub] {
        for first in every_event() {
            for second in every_event() {
                for third in every_event() {
                    for fourth in every_event() {
                        let (mut session, _) = Session::start(mode, true);
                        for event in [first.clone(), second.clone(), third.clone(), fourth.clone()] {
                            let before = session.phase;
                            session.step(event);
                            assert!(
                                session.phase == before
                                    || progress(session.phase) > progress(before)
                            );
                        }
                    }
                }
            }
        }
    }
}
