//! What holds of every session, whatever the backend does.

use vstd::prelude::*;

use crate::failure::{lemma_unsupported_mode_says_so, FailureView, EXIT_FAILURE, EXIT_SUCCESS};
use crate::mode::Mode;
use crate::session::{
    awaits_backend, failure_effects, EffectView, EventView, Phase, Session,
};
use crate::text::{contains_text, CHANNEL, TEST_VALUE};
use crate::wording::{
    abandoned_line, announced_line, announcement, closed_line, follow_up, got_value_line,
    listening_line, publishing_line, received_line, timeout_line,
};

verus! {

/// The state after a whole course of events, taken in order.
pub open spec fn run(start: Session, events: Seq<EventView>) -> Session
    decreases events.len(),
{
    if events.len() == 0 {
        start
    } else {
        run(start, events.drop_last()).next(events.last())
    }
}

/// An event that a reachable, well-behaved backend can produce: no call
/// fails, and a read returns what was written.
pub open spec fn benign(event: EventView) -> bool {
    &&& !(event is BackendFailed)
    &&& event matches EventView::Fetched(value) ==> value == TEST_VALUE@
}

/// The events of an untroubled invocation of `mode`, from the first
/// connection to the end. A subscriber's ends with its timeout, and holds a
/// second connection only where a delayed publish was asked for.
pub open spec fn expected_course(mode: Mode, delayed_publish: bool) -> Seq<EventView> {
    match mode {
        Mode::Check => seq![EventView::Connected],
        Mode::Test => seq![
            EventView::Connected,
            EventView::Stored,
            EventView::Fetched(TEST_VALUE@),
        ],
        Mode::Pub => seq![EventView::Connected, EventView::Published],
        Mode::Sub => if delayed_publish {
            seq![
                EventView::SubscriptionOpened,
                EventView::Subscribed,
                EventView::Connected,
                EventView::TimeoutElapsed,
            ]
        } else {
            seq![EventView::SubscriptionOpened, EventView::Subscribed, EventView::TimeoutElapsed]
        },
    }
}

/// `effects` ends the invocation with `code`: its last entry is that exit,
/// and it holds no other.
pub open spec fn exits_with(effects: Seq<EffectView>, code: u8) -> bool {
    &&& effects.len() > 0
    &&& effects.last() == EffectView::Exit(code)
    &&& forall|i: int| 0 <= i < effects.len() - 1 ==> !(#[trigger] effects[i] is Exit)
}

/// `effects` leaves the invocation running: it holds no exit.
pub open spec fn stays(effects: Seq<EffectView>) -> bool {
    forall|i: int| 0 <= i < effects.len() ==> !(#[trigger] effects[i] is Exit)
}

/// How far a phase is from the beginning: the number of answers that the
/// session has had from the backend, or four once the invocation is over.
pub open spec fn progress(phase: Phase) -> nat {
    match phase {
        Phase::Connecting | Phase::Attaching => 0,
        Phase::Writing | Phase::Announcing | Phase::Subscribing => 1,
        Phase::Reading | Phase::Preparing => 2,
        Phase::Listening => 3,
        Phase::Succeeded | Phase::Failed => 4,
    }
}

/// Some entry of `effects` satisfies `wanted`.
pub open spec fn asks_for(effects: Seq<EffectView>, wanted: spec_fn(EffectView) -> bool) -> bool {
    exists|i: int| 0 <= i < effects.len() && wanted(#[trigger] effects[i])
}

/// The number of steps of a course that ask for something that satisfies
/// `wanted`.
pub open spec fn times_asked(
    start: Session,
    events: Seq<EventView>,
    now: Seq<char>,
    wanted: spec_fn(EffectView) -> bool,
) -> nat
    decreases events.len(),
{
    if events.len() == 0 {
        0
    } else {
        let earlier = times_asked(start, events.drop_last(), now, wanted);
        if asks_for(run(start, events.drop_last()).effects(events.last(), now), wanted) {
            earlier + 1
        } else {
            earlier
        }
    }
}

/// Every invocation begins in a state that it can be in.
pub proof fn lemma_initial_state_is_well_formed(mode: Mode, delayed_publish: bool)
    ensures
        Session::initial(mode, delayed_publish).wf(),
        !Session::initial(mode, delayed_publish).finished(),
        Session::initial(mode, delayed_publish).mode == mode,
{
}

/// No event leads out of the states that an invocation can be in, and none
/// changes the mode: one invocation runs one mode.
pub proof fn lemma_step_keeps_well_formed(session: Session, event: EventView)
    requires
        session.wf(),
    ensures
        session.next(event).wf(),
        session.next(event).mode == session.mode,
{
}

/// A finished invocation stays as it is: no event changes its state or asks
/// for anything more.
pub proof fn lemma_finished_is_final(session: Session, event: EventView, now: Seq<char>)
    requires
        session.finished(),
    ensures
        session.next(event) == session,
        session.effects(event, now) =~= Seq::<EffectView>::empty(),
{
}

/// The cancellation signal is one-shot: once raised, no event lowers it.
/// Only the timeout of a listening subscriber raises it.
pub proof fn lemma_cancellation_is_one_shot(session: Session, event: EventView)
    ensures
        session.cancelled ==> session.next(event).cancelled,
        !session.cancelled && session.next(event).cancelled ==> session.phase is Listening
            && event is TimeoutElapsed,
{
}

/// Over a whole course of events the signal, once raised, stays raised, and
/// the states stay well-formed.
pub proof fn lemma_run_keeps_well_formed(start: Session, events: Seq<EventView>)
    requires
        start.wf(),
    ensures
        run(start, events).wf(),
        run(start, events).mode == start.mode,
        start.cancelled ==> run(start, events).cancelled,
    decreases events.len(),
{
    if events.len() > 0 {
        lemma_run_keeps_well_formed(start, events.drop_last());
    }
}

/// The driver is told to leave exactly when a step ends the invocation, as
/// the last thing of that step, and with the exit status of the state
/// reached: zero after success, one after a failure.
pub proof fn lemma_exit_ends_the_session(session: Session, event: EventView, now: Seq<char>)
    requires
        session.wf(),
    ensures
        !session.finished() && session.next(event).finished() ==> exits_with(
            session.effects(event, now),
            session.next(event).status(),
        ),
        session.finished() || !session.next(event).finished() ==> stays(
            session.effects(event, now),
        ),
        session.next(event).status() == EXIT_SUCCESS || session.next(event).status()
            == EXIT_FAILURE,
{
}

/// A failed backend call ends the invocation that waits for it with exit
/// status one, after one line that reports the backend's own text.
pub proof fn lemma_backend_failure_is_reported(session: Session, text: Seq<char>, now: Seq<char>)
    requires
        awaits_backend(session.phase),
    ensures
        session.next(EventView::BackendFailed(text)).phase is Failed,
        session.next(EventView::BackendFailed(text)).status() == EXIT_FAILURE,
        session.effects(EventView::BackendFailed(text), now) == failure_effects(
            FailureView::Backend(text),
        ),
        failure_effects(FailureView::Backend(text)) =~= seq![
            EffectView::Print("Error: "@ + text),
            EffectView::Exit(1),
        ],
{
}

/// A failure of the delayed publish stays with the publisher: the listener
/// goes on and the driver is told nothing.
pub proof fn lemma_delayed_publish_fails_silently(
    session: Session,
    text: Seq<char>,
    now: Seq<char>,
)
    requires
        session.phase is Listening,
    ensures
        session.next(EventView::BackendFailed(text)).phase is Listening,
        session.effects(EventView::BackendFailed(text), now) =~= Seq::<EffectView>::empty(),
        session.publisher is Sending ==> session.next(EventView::BackendFailed(text)).publisher
            is Failed,
{
}

/// With a reachable, well-behaved backend no invocation fails: whatever
/// the mode and however the events fall, the state reached is not the
/// failed one, so an invocation that is over has exit status zero.
pub proof fn lemma_benign_course_never_fails(
    mode: Mode,
    delayed_publish: bool,
    events: Seq<EventView>,
)
    requires
        forall|i: int| 0 <= i < events.len() ==> benign(#[trigger] events[i]),
    ensures
        !(run(Session::initial(mode, delayed_publish), events).phase is Failed),
        run(Session::initial(mode, delayed_publish), events).status() == EXIT_SUCCESS,
    decreases events.len(),
{
    if events.len() > 0 {
        let earlier = events.drop_last();
        assert forall|i: int| 0 <= i < earlier.len() implies benign(#[trigger] earlier[i]) by {
            assert(earlier[i] == events[i]);
        }
        lemma_benign_course_never_fails(mode, delayed_publish, earlier);
        assert(benign(events[events.len() - 1]));
    }
}

/// With a reachable, well-behaved backend every mode runs to its end and
/// leaves with exit status zero.
pub proof fn lemma_expected_course_succeeds(mode: Mode, delayed_publish: bool)
    ensures
        run(
            Session::initial(mode, delayed_publish),
            expected_course(mode, delayed_publish),
        ).phase is Succeeded,
        run(
            Session::initial(mode, delayed_publish),
            expected_course(mode, delayed_publish),
        ).status() == EXIT_SUCCESS,
        mode is Sub ==> run(
            Session::initial(mode, delayed_publish),
            expected_course(mode, delayed_publish),
        ).cancelled,
{
    let start = Session::initial(mode, delayed_publish);
    let course = expected_course(mode, delayed_publish);
    let first = course.take(1);
    let second = course.take(2);
    let third = course.take(3);
    assert(run(start, course.take(0)) == start);
    assert(first.drop_last() =~= course.take(0));
    assert(run(start, first) == start.next(course[0]));
    if course.len() >= 2 {
        assert(second.drop_last() =~= first);
        assert(run(start, second) == run(start, first).next(course[1]));
    }
    if course.len() >= 3 {
        assert(third.drop_last() =~= second);
        assert(run(start, third) == run(start, second).next(course[2]));
    }
    if course.len() >= 4 {
        assert(course.drop_last() =~= third);
        assert(run(start, course) == run(start, third).next(course[3]));
    }
    assert(course.take(course.len() as int) =~= course);
}

/// Only the publisher's announcement shows the time: the step that sends
/// it asks for nothing else, and what every other step asks for is the same
/// at any time.
pub proof fn lemma_only_the_announcement_shows_the_time(
    session: Session,
    event: EventView,
    now: Seq<char>,
    later: Seq<char>,
)
    ensures
        session.reads_clock(event) ==> session.effects(event, now) =~= seq![
            EffectView::Publish { channel: CHANNEL@, payload: announcement(now) },
        ],
        !session.reads_clock(event) ==> session.effects(event, now) == session.effects(
            event,
            later,
        ),
{
}

/// A mode that does not exist is reported on one line that says "not
/// supported", followed by exit status one.
pub proof fn lemma_unsupported_mode_is_reported()
    ensures
        failure_effects(FailureView::UnsupportedMode) =~= seq![
            EffectView::Print(FailureView::UnsupportedMode.report_line()),
            EffectView::Exit(1),
        ],
        contains_text(FailureView::UnsupportedMode.report_line(), "not supported"@),
{
    lemma_unsupported_mode_says_so();
}

/// The self-test shows the value it read, whatever it is, and succeeds
/// exactly when that value is the one it wrote. After a faithful round trip
/// the line is `Got value: value` and the exit status zero; after any other
/// the mismatch is reported and the exit status is one.
pub proof fn lemma_round_trip_verdict(session: Session, value: Seq<char>, now: Seq<char>)
    requires
        session.phase is Reading,
    ensures
        session.effects(EventView::Fetched(value), now)[0] == EffectView::Print(
            got_value_line(value),
        ),
        session.next(EventView::Fetched(value)).phase is Succeeded <==> value == TEST_VALUE@,
        session.next(EventView::Fetched(value)).phase is Failed <==> value != TEST_VALUE@,
        value == TEST_VALUE@ ==> session.effects(EventView::Fetched(value), now) =~= seq![
            EffectView::Print("Got value: value"@),
            EffectView::Exit(0),
        ],
        value != TEST_VALUE@ ==> session.effects(EventView::Fetched(value), now) =~= seq![
            EffectView::Print(got_value_line(value)),
            EffectView::Print("Error: Wrong value"@),
            EffectView::Exit(1),
        ],
{
    reveal_strlit("Got value: value");
    reveal_strlit("Got value: ");
    reveal_strlit("value");
    assert("Got value: "@ + "value"@ =~= "Got value: value"@);
    reveal_strlit("Error: Wrong value");
    reveal_strlit("Error: ");
    reveal_strlit("Wrong value");
    assert("Error: "@ + "Wrong value"@ =~= "Error: Wrong value"@);
}

/// A listening subscriber prints each payload that arrives exactly once
/// and verbatim: one line, the marker `>> ` and then the payload, character
/// for character. Hearing a message changes nothing else.
pub proof fn lemma_message_is_printed_once(session: Session, payload: Seq<char>, now: Seq<char>)
    requires
        session.phase is Listening,
    ensures
        session.effects(EventView::Message(payload), now) =~= seq![
            EffectView::Print(received_line(payload)),
        ],
        received_line(payload).len() == payload.len() + 3,
        received_line(payload).subrange(3, received_line(payload).len() as int) == payload,
        session.next(EventView::Message(payload)) == session,
{
    reveal_strlit(">> ");
    assert(received_line(payload).subrange(3, received_line(payload).len() as int) =~= payload);
}

/// A publisher says what it did: once the backend has taken the message it
/// prints one line that documents the publish, and leaves with exit status
/// zero.
pub proof fn lemma_publisher_documents_its_publish(session: Session, now: Seq<char>)
    requires
        session.phase is Announcing,
    ensures
        session.effects(EventView::Published, now) =~= seq![
            EffectView::Print(announced_line()),
            EffectView::Exit(0),
        ],
        announced_line().len() > 0,
        session.next(EventView::Published).phase is Succeeded,
{
    reveal_strlit("Published a message to `redis_channel`.");
}

/// What a publisher sends is what a subscriber shows: the announcement goes
/// out on the channel that the subscriber listens on, and a listener that
/// receives it prints it once, unchanged.
pub proof fn lemma_announcement_reaches_listener(
    publisher: Session,
    listener: Session,
    sent_at: Seq<char>,
    now: Seq<char>,
)
    requires
        publisher.mode is Pub,
        publisher.phase is Connecting,
        listener.phase is Listening,
    ensures
        publisher.effects(EventView::Connected, sent_at) =~= seq![
            EffectView::Publish { channel: CHANNEL@, payload: announcement(sent_at) },
        ],
        listener.effects(EventView::Message(announcement(sent_at)), now) =~= seq![
            EffectView::Print(received_line(announcement(sent_at))),
        ],
{
}

/// When the time is up a listening subscriber raises the cancellation
/// signal and leaves with exit status zero, saying that it was the timeout
/// and not the end of the stream. A delayed publish that has not come to an
/// end is abandoned, and says so first.
pub proof fn lemma_timeout_ends_listening(session: Session, now: Seq<char>)
    requires
        session.phase is Listening,
    ensures
        session.next(EventView::TimeoutElapsed).phase is Succeeded,
        session.next(EventView::TimeoutElapsed).cancelled,
        !session.next(EventView::TimeoutElapsed).publish_pending(),
        session.publish_pending() ==> session.next(EventView::TimeoutElapsed).publisher
            is Cancelled,
        session.effects(EventView::TimeoutElapsed, now) =~= if session.publish_pending() {
            seq![
                EffectView::Print(abandoned_line()),
                EffectView::Print(timeout_line()),
                EffectView::Exit(0),
            ]
        } else {
            seq![EffectView::Print(timeout_line()), EffectView::Exit(0)]
        },
        timeout_line() != closed_line(),
{
    reveal_strlit("terminating by timeout");
    reveal_strlit("terminating because the pubsub channel is closed");
    assert(timeout_line().len() != closed_line().len());
}

/// When the backend ends the stream a listening subscriber leaves with
/// exit status zero without raising the cancellation signal; a delayed
/// publish is left as it is.
pub proof fn lemma_closed_stream_ends_listening(session: Session, now: Seq<char>)
    requires
        session.phase is Listening,
        session.wf(),
    ensures
        session.next(EventView::StreamClosed).phase is Succeeded,
        !session.next(EventView::StreamClosed).cancelled,
        session.next(EventView::StreamClosed).publisher == session.publisher,
        session.effects(EventView::StreamClosed, now) =~= seq![
            EffectView::Print(closed_line()),
            EffectView::Exit(0),
        ],
{
}

/// A subscriber publishes nothing but its follow-up: when the delay is over
/// while it listens and the publisher still waits, the follow-up goes out on
/// the subscriber's own channel and the publisher waits no more; no other
/// step of a subscriber publishes anything.
pub proof fn lemma_subscriber_publishes_its_follow_up(
    session: Session,
    event: EventView,
    now: Seq<char>,
)
    requires
        session.wf(),
        session.mode is Sub,
    ensures
        asks_for(session.effects(event, now), |effect: EffectView| effect is Publish) <==> (
        session.phase is Listening && session.publisher is Waiting && event is DelayElapsed),
        session.phase is Listening && session.publisher is Waiting && event is DelayElapsed ==> {
            &&& session.effects(event, now) =~= seq![
                EffectView::Print(publishing_line()),
                EffectView::Publish { channel: CHANNEL@, payload: follow_up() },
            ]
            &&& session.next(event).publisher is Sending
            &&& !session.cancelled
        },
{
    let wanted = |effect: EffectView| effect is Publish;
    let effects = session.effects(event, now);
    if session.phase is Listening && session.publisher is Waiting && event is DelayElapsed {
        assert(wanted(effects[1]));
    }
}

/// Phases only advance: an event leaves the phase as it is or moves it
/// closer to the end, so every mode is one short line of steps and none is
/// ever taken twice.
pub proof fn lemma_phases_only_advance(session: Session, event: EventView)
    ensures
        session.next(event).phase == session.phase || progress(session.next(event).phase)
            > progress(session.phase),
        progress(session.phase) <= 4,
{
}

/// A subscriber opens a second connection only for its delayed publish:
/// the answer to the subscription asks for one exactly when a publish was
/// planned, and no other step of a subscriber asks for any. Without a plan
/// the subscription leads straight to listening.
pub proof fn lemma_second_connection_is_for_the_delayed_publish(
    session: Session,
    event: EventView,
    now: Seq<char>,
)
    requires
        session.wf(),
        session.mode is Sub,
    ensures
        asks_for(
            session.effects(event, now),
            |effect: EffectView| effect is Connect || effect is OpenSubscription,
        ) <==> (session.phase is Subscribing && event is Subscribed && session.publisher
            is Planned),
        session.phase is Subscribing && event is Subscribed ==> if session.publisher is Planned {
            &&& session.effects(event, now) =~= seq![EffectView::Connect]
            &&& session.next(event).phase is Preparing
        } else {
            &&& session.effects(event, now) =~= seq![
                EffectView::StartTimeout,
                EffectView::Print(listening_line()),
            ]
            &&& session.next(event).phase is Listening
        },
{
    let wanted = |effect: EffectView| effect is Connect || effect is OpenSubscription;
    let effects = session.effects(event, now);
    if session.phase is Subscribing && event is Subscribed && session.publisher is Planned {
        assert(wanted(effects[0]));
    }
}

/// Listening is always timed: the step that begins it arms the timeout
/// before anything else, whether or not a delayed publish was planned, and
/// arms the delay exactly when one was. Without a plan that step is the
/// answer to the subscription; with one it is the answer to the second
/// connection.
pub proof fn lemma_listening_is_always_timed(session: Session, event: EventView, now: Seq<char>)
    requires
        session.wf(),
        !(session.phase is Listening),
        session.next(event).phase is Listening,
    ensures
        session.effects(event, now).len() >= 2,
        session.effects(event, now)[0] == EffectView::StartTimeout,
        session.effects(event, now)[1] == EffectView::StartPublishDelay <==> session.publisher
            is Planned,
        session.publisher is Planned <==> session.next(event).publisher is Waiting,
        session.publisher is Planned <==> session.phase is Preparing,
        !(session.publisher is Planned) <==> session.phase is Subscribing,
{
}

/// With a reachable, well-behaved backend, whenever the driver is told to
/// leave, the exit status it is given is zero.
pub proof fn lemma_benign_course_exits_with_zero(
    mode: Mode,
    delayed_publish: bool,
    earlier: Seq<EventView>,
    event: EventView,
    now: Seq<char>,
)
    requires
        forall|i: int| 0 <= i < earlier.len() ==> benign(#[trigger] earlier[i]),
        benign(event),
    ensures
        forall|i: int|
            0 <= i < run(Session::initial(mode, delayed_publish), earlier).effects(
                event,
                now,
            ).len() && (#[trigger] run(Session::initial(mode, delayed_publish), earlier).effects(
                event,
                now,
            )[i]) is Exit ==> run(Session::initial(mode, delayed_publish), earlier).effects(
                event,
                now,
            )[i] == EffectView::Exit(0),
{
    let start = Session::initial(mode, delayed_publish);
    let before = run(start, earlier);
    let events = earlier.push(event);
    assert(events.drop_last() =~= earlier);
    assert forall|i: int| 0 <= i < events.len() implies benign(#[trigger] events[i]) by {
        if i < earlier.len() {
            assert(events[i] == earlier[i]);
        }
    }
    lemma_benign_course_never_fails(mode, delayed_publish, events);
    assert(run(start, events) == before.next(event));
    lemma_run_keeps_well_formed(start, earlier);
    lemma_exit_ends_the_session(before, event, now);
}

/// An invocation opens one connection, the one that it begins with. Only a
/// subscriber that was asked for a delayed publish opens one more, the
/// command connection that the publish goes over, and only once it is
/// subscribed.
pub proof fn lemma_connections_are_few(
    mode: Mode,
    delayed_publish: bool,
    events: Seq<EventView>,
    now: Seq<char>,
)
    ensures
        times_asked(
            Session::initial(mode, delayed_publish),
            events,
            now,
            |effect: EffectView| effect is Connect || effect is OpenSubscription,
        ) <= if mode is Sub && delayed_publish {
            1nat
        } else {
            0nat
        },
        progress(run(Session::initial(mode, delayed_publish), events).phase) < 2 ==> times_asked(
            Session::initial(mode, delayed_publish),
            events,
            now,
            |effect: EffectView| effect is Connect || effect is OpenSubscription,
        ) == 0,
    decreases events.len(),
{
    let start = Session::initial(mode, delayed_publish);
    let wanted = |effect: EffectView| effect is Connect || effect is OpenSubscription;
    if events.len() > 0 {
        let earlier = events.drop_last();
        let before = run(start, earlier);
        lemma_connections_are_few(mode, delayed_publish, earlier, now);
        lemma_run_keeps_well_formed(start, earlier);
        lemma_phases_only_advance(before, events.last());
        lemma_publishes_at_most_once(mode, delayed_publish, earlier, now);
        if asks_for(before.effects(events.last(), now), wanted) {
            assert(before.phase is Subscribing && events.last() is Subscribed);
            assert(before.publisher is Planned);
        }
    }
}

/// The session is still in a state from which its one publish can go out:
/// a publisher that waits for its connection, or a subscriber whose
/// follow-up is planned or waits for its delay.
pub open spec fn has_not_published(session: Session) -> bool {
    match session.mode {
        Mode::Pub => session.phase is Connecting,
        Mode::Sub => session.publisher is Planned || session.publisher is Waiting,
        _ => false,
    }
}

/// An invocation publishes at most once, whatever happens: the publisher
/// its announcement, a subscriber its follow-up if it planned one, and the
/// other modes nothing at all. Without a plan there is never a delayed
/// publish.
pub proof fn lemma_publishes_at_most_once(
    mode: Mode,
    delayed_publish: bool,
    events: Seq<EventView>,
    now: Seq<char>,
)
    ensures
        times_asked(
            Session::initial(mode, delayed_publish),
            events,
            now,
            |effect: EffectView| effect is Publish,
        ) <= if mode is Pub || (mode is Sub && delayed_publish) {
            1nat
        } else {
            0nat
        },
        has_not_published(run(Session::initial(mode, delayed_publish), events)) ==> times_asked(
            Session::initial(mode, delayed_publish),
            events,
            now,
            |effect: EffectView| effect is Publish,
        ) == 0,
        !(mode is Sub && delayed_publish) ==> run(
            Session::initial(mode, delayed_publish),
            events,
        ).publisher is Absent,
    decreases events.len(),
{
    let start = Session::initial(mode, delayed_publish);
    let wanted = |effect: EffectView| effect is Publish;
    if events.len() > 0 {
        let earlier = events.drop_last();
        let before = run(start, earlier);
        lemma_publishes_at_most_once(mode, delayed_publish, earlier, now);
        lemma_run_keeps_well_formed(start, earlier);
        if asks_for(before.effects(events.last(), now), wanted) {
            assert(has_not_published(before));
            assert(!has_not_published(before.next(events.last())));
        }
    }
}

/// Every mode says what it did: an invocation that has ended successfully
/// has printed at least one line on the way.
pub proof fn lemma_success_is_documented(
    mode: Mode,
    delayed_publish: bool,
    events: Seq<EventView>,
    now: Seq<char>,
)
    ensures
        run(Session::initial(mode, delayed_publish), events).phase is Succeeded ==> times_asked(
            Session::initial(mode, delayed_publish),
            events,
            now,
            |effect: EffectView| effect is Print,
        ) >= 1,
    decreases events.len(),
{
    let start = Session::initial(mode, delayed_publish);
    let wanted = |effect: EffectView| effect is Print;
    if events.len() > 0 {
        let earlier = events.drop_last();
        let before = run(start, earlier);
        lemma_success_is_documented(mode, delayed_publish, earlier, now);
        if run(start, events).phase is Succeeded && !(before.phase is Succeeded) {
            let effects = before.effects(events.last(), now);
            assert(wanted(effects[0]));
        }
    }
}

} // verus!
