//! One invocation as a state machine.
//!
//! A [`Session`] is told what happened ([`Event`]) and answers with what to
//! do next ([`Effect`]). The driver performs the effects in order: it opens
//! connections, issues backend calls, arms timers, prints, and finally
//! leaves with the exit status it is given. Events that make no sense in the
//! current state are ignored.

use vstd::prelude::*;
use vstd::string::*;

use crate::clock::local_time_text;
use crate::failure::{exit_status, Failure, FailureView, EXIT_FAILURE, EXIT_SUCCESS};
use crate::mode::Mode;
use crate::text::{same_text, CHANNEL, TEST_KEY, TEST_VALUE};
use crate::wording::{
    abandoned_line, announce_at, announced_line, announcement, available_line, closed_line,
    follow_up, got_value, got_value_line, listening_line, published_line, publishing_line,
    received, received_line, timeout_line,
};

verus! {

/// How far an invocation has come.
#[derive(Clone, Copy, Debug, PartialEq, Eq, Structural)]
pub enum Phase {
    /// Waiting for the command connection (`check`, `test`, `pub`).
    Connecting,
    /// `test`: the write is under way.
    Writing,
    /// `test`: the read is under way.
    Reading,
    /// `pub`: the publish is under way.
    Announcing,
    /// `sub`: waiting for the pub/sub connection.
    Attaching,
    /// `sub`: the subscription is under way.
    Subscribing,
    /// `sub` with a delayed publish: waiting for the command connection
    /// that the publish will go over. A subscriber without one never opens
    /// a second connection.
    Preparing,
    /// `sub`: receiving messages until the stream ends or time is up.
    Listening,
    /// Ended with exit status zero.
    Succeeded,
    /// Ended with exit status one.
    Failed,
}

/// The subscriber's delayed publish, a task of its own beside the listener.
#[derive(Clone, Copy, Debug, PartialEq, Eq, Structural)]
pub enum Publisher {
    /// No delayed publish was asked for.
    Absent,
    /// Asked for, but listening has not begun.
    Planned,
    /// The delay is running.
    Waiting,
    /// The delay is over and the publish has been issued.
    Sending,
    /// The publish went through.
    Done,
    /// The publish failed; nobody is told.
    Failed,
    /// The timeout came first.
    Cancelled,
}

/// The state of one invocation.
#[derive(Clone, Copy, Debug, PartialEq, Eq, Structural)]
pub struct Session {
    /// The behaviour that was selected; it never changes.
    pub mode: Mode,
    /// How far the invocation has come.
    pub phase: Phase,
    /// The state of the delayed publish.
    pub publisher: Publisher,
    /// Whether the cancellation signal has been raised. Once raised it
    /// stays raised.
    pub cancelled: bool,
}

/// Something that happened outside and that the session must hear of.
#[derive(Clone, Debug, PartialEq, Eq)]
pub enum Event {
    /// A command connection was opened.
    Connected,
    /// A pub/sub connection was opened.
    SubscriptionOpened,
    /// The backend confirmed the subscription.
    Subscribed,
    /// The backend stored the value.
    Stored,
    /// The backend returned the value it holds under the key.
    Fetched(String),
    /// The backend took a published message.
    Published,
    /// A backend call failed; the text is the backend's own.
    BackendFailed(String),
    /// A payload arrived on the subscribed channel.
    Message(String),
    /// The backend ended the subscription stream.
    StreamClosed,
    /// The listening time is up.
    TimeoutElapsed,
    /// The delay before the follow-up publish is over.
    DelayElapsed,
}

/// An [`Event`] with its texts as sequences of characters.
pub enum EventView {
    Connected,
    SubscriptionOpened,
    Subscribed,
    Stored,
    Fetched(Seq<char>),
    Published,
    BackendFailed(Seq<char>),
    Message(Seq<char>),
    StreamClosed,
    TimeoutElapsed,
    DelayElapsed,
}

impl View for Event {
    type V = EventView;

    open spec fn view(&self) -> EventView {
        match self {
            Event::Connected => EventView::Connected,
            Event::SubscriptionOpened => EventView::SubscriptionOpened,
            Event::Subscribed => EventView::Subscribed,
            Event::Stored => EventView::Stored,
            Event::Fetched(value) => EventView::Fetched(value@),
            Event::Published => EventView::Published,
            Event::BackendFailed(text) => EventView::BackendFailed(text@),
            Event::Message(payload) => EventView::Message(payload@),
            Event::StreamClosed => EventView::StreamClosed,
            Event::TimeoutElapsed => EventView::TimeoutElapsed,
            Event::DelayElapsed => EventView::DelayElapsed,
        }
    }
}

/// Something that the driver must do on the session's behalf.
#[derive(Clone, Debug, PartialEq, Eq)]
pub enum Effect {
    /// Open a command connection; answer with [`Event::Connected`].
    Connect,
    /// Open a pub/sub connection; answer with [`Event::SubscriptionOpened`].
    OpenSubscription,
    /// Subscribe to a channel; answer with [`Event::Subscribed`], then with
    /// [`Event::Message`] for each payload and [`Event::StreamClosed`] at
    /// the end of the stream.
    Subscribe { channel: String },
    /// Store a value under a key; answer with [`Event::Stored`].
    Store { key: String, value: String },
    /// Read the value under a key; answer with [`Event::Fetched`].
    Fetch { key: String },
    /// Publish a payload on a channel; answer with [`Event::Published`].
    Publish { channel: String, payload: String },
    /// Arm the listening timeout; answer with [`Event::TimeoutElapsed`].
    StartTimeout,
    /// Arm the delay of the follow-up publish; answer with
    /// [`Event::DelayElapsed`].
    StartPublishDelay,
    /// Write one line to standard output.
    Print(String),
    /// Leave with this exit status.
    Exit(u8),
}

/// An [`Effect`] with its texts as sequences of characters.
pub enum EffectView {
    Connect,
    OpenSubscription,
    Subscribe { channel: Seq<char> },
    Store { key: Seq<char>, value: Seq<char> },
    Fetch { key: Seq<char> },
    Publish { channel: Seq<char>, payload: Seq<char> },
    StartTimeout,
    StartPublishDelay,
    Print(Seq<char>),
    Exit(u8),
}

impl View for Effect {
    type V = EffectView;

    open spec fn view(&self) -> EffectView {
        match self {
            Effect::Connect => EffectView::Connect,
            Effect::OpenSubscription => EffectView::OpenSubscription,
            Effect::Subscribe { channel } => EffectView::Subscribe { channel: channel@ },
            Effect::Store { key, value } => EffectView::Store { key: key@, value: value@ },
            Effect::Fetch { key } => EffectView::Fetch { key: key@ },
            Effect::Publish { channel, payload } => EffectView::Publish {
                channel: channel@,
                payload: payload@,
            },
            Effect::StartTimeout => EffectView::StartTimeout,
            Effect::StartPublishDelay => EffectView::StartPublishDelay,
            Effect::Print(line) => EffectView::Print(line@),
            Effect::Exit(code) => EffectView::Exit(*code),
        }
    }
}

/// The views of a list of effects, in order.
pub open spec fn effect_views(effects: Seq<Effect>) -> Seq<EffectView> {
    effects.map_values(|effect: Effect| effect@)
}

/// What the driver is told when a failure ends the invocation: report it on
/// one line, then leave with exit status one.
pub open spec fn failure_effects(failure: FailureView) -> Seq<EffectView> {
    seq![EffectView::Print(failure.report_line()), EffectView::Exit(EXIT_FAILURE)]
}

/// What the driver is told first, before anything has happened: which
/// connection to open.
pub open spec fn opening_effects(mode: Mode) -> Seq<EffectView> {
    if mode is Sub {
        seq![EffectView::OpenSubscription]
    } else {
        seq![EffectView::Connect]
    }
}

/// In these phases the session waits for the answer to a backend call, and
/// the call's failure is the invocation's failure.
pub open spec fn awaits_backend(phase: Phase) -> bool {
    phase is Connecting || phase is Writing || phase is Reading || phase is Announcing
        || phase is Attaching || phase is Subscribing || phase is Preparing
}

impl Session {
    /// The state in which an invocation of `mode` begins. A delayed publish
    /// is planned only for a subscriber that asked for one.
    pub open spec fn initial(mode: Mode, delayed_publish: bool) -> Session {
        Session {
            mode,
            phase: if mode is Sub {
                Phase::Attaching
            } else {
                Phase::Connecting
            },
            publisher: if mode is Sub && delayed_publish {
                Publisher::Planned
            } else {
                Publisher::Absent
            },
            cancelled: false,
        }
    }

    /// The invocation is over.
    pub open spec fn finished(self) -> bool {
        self.phase is Succeeded || self.phase is Failed
    }

    /// The exit status that the invocation ends with, once it is over.
    pub open spec fn status(self) -> u8 {
        exit_status(self.phase is Failed)
    }

    /// The delayed publish has been armed or issued and not yet come to an
    /// end: the timeout would overtake it.
    pub open spec fn publish_pending(self) -> bool {
        self.publisher is Waiting || self.publisher is Sending
    }

    /// The states that an invocation can be in: the phase belongs to the
    /// mode, only a listening subscriber has a running delayed publish, and
    /// the cancellation signal is raised only by the timeout that ends the
    /// invocation.
    pub open spec fn wf(self) -> bool {
        &&& match self.mode {
            Mode::Check => self.phase is Connecting || self.finished(),
            Mode::Test => self.phase is Connecting || self.phase is Writing
                || self.phase is Reading || self.finished(),
            Mode::Pub => self.phase is Connecting || self.phase is Announcing || self.finished(),
            Mode::Sub => self.phase is Attaching || self.phase is Subscribing
                || self.phase is Preparing || self.phase is Listening || self.finished(),
        }
        &&& !(self.mode is Sub) ==> self.publisher is Absent && !self.cancelled
        &&& awaits_backend(self.phase) || self.phase is Failed ==> {
            &&& !self.cancelled
            &&& self.publisher is Absent || self.publisher is Planned
        }
        &&& self.phase is Preparing ==> self.publisher is Planned
        &&& self.phase is Listening ==> {
            &&& !self.cancelled
            &&& !(self.publisher is Planned)
            &&& !(self.publisher is Cancelled)
        }
        &&& self.cancelled ==> !self.publish_pending()
        &&& self.publisher is Cancelled ==> self.cancelled
    }

    /// The phase after `event`.
    pub open spec fn next_phase(self, event: EventView) -> Phase {
        match (self.phase, event) {
            (Phase::Connecting, EventView::Connected) => match self.mode {
                Mode::Check => Phase::Succeeded,
                Mode::Test => Phase::Writing,
                Mode::Pub => Phase::Announcing,
                Mode::Sub => Phase::Connecting,
            },
            (Phase::Writing, EventView::Stored) => Phase::Reading,
            (Phase::Reading, EventView::Fetched(value)) => if value == TEST_VALUE@ {
                Phase::Succeeded
            } else {
                Phase::Failed
            },
            (Phase::Announcing, EventView::Published) => Phase::Succeeded,
            (Phase::Attaching, EventView::SubscriptionOpened) => Phase::Subscribing,
            (Phase::Subscribing, EventView::Subscribed) => if self.publisher is Planned {
                Phase::Preparing
            } else {
                Phase::Listening
            },
            (Phase::Preparing, EventView::Connected) => Phase::Listening,
            (Phase::Listening, EventView::StreamClosed) => Phase::Succeeded,
            (Phase::Listening, EventView::TimeoutElapsed) => Phase::Succeeded,
            (phase, EventView::BackendFailed(_)) => if awaits_backend(phase) {
                Phase::Failed
            } else {
                phase
            },
            (phase, _) => phase,
        }
    }

    /// The state of the delayed publish after `event`.
    pub open spec fn next_publisher(self, event: EventView) -> Publisher {
        match (self.phase, self.publisher, event) {
            (Phase::Preparing, Publisher::Planned, EventView::Connected) => Publisher::Waiting,
            (Phase::Listening, Publisher::Waiting, EventView::DelayElapsed) => Publisher::Sending,
            (Phase::Listening, Publisher::Sending, EventView::Published) => Publisher::Done,
            (Phase::Listening, Publisher::Sending, EventView::BackendFailed(_)) => Publisher::Failed,
            (Phase::Listening, Publisher::Waiting, EventView::TimeoutElapsed) => Publisher::Cancelled,
            (Phase::Listening, Publisher::Sending, EventView::TimeoutElapsed) => Publisher::Cancelled,
            (_, publisher, _) => publisher,
        }
    }

    /// Whether the cancellation signal is raised after `event`: it is raised
    /// by the timeout of a listening subscriber and never lowered.
    pub open spec fn next_cancelled(self, event: EventView) -> bool {
        self.cancelled || (self.phase is Listening && event is TimeoutElapsed)
    }

    /// The state after `event`.
    pub open spec fn next(self, event: EventView) -> Session {
        Session {
            mode: self.mode,
            phase: self.next_phase(event),
            publisher: self.next_publisher(event),
            cancelled: self.next_cancelled(event),
        }
    }

    /// What the driver must do in answer to `event`, in order. `now` is the
    /// local time as text; only the publisher's announcement shows it.
    pub open spec fn effects(self, event: EventView, now: Seq<char>) -> Seq<EffectView> {
        match (self.phase, event) {
            (Phase::Connecting, EventView::Connected) => match self.mode {
                Mode::Check => seq![
                    EffectView::Print(available_line()),
                    EffectView::Exit(EXIT_SUCCESS),
                ],
                Mode::Test => seq![EffectView::Store { key: TEST_KEY@, value: TEST_VALUE@ }],
                Mode::Pub => seq![
                    EffectView::Publish { channel: CHANNEL@, payload: announcement(now) },
                ],
                Mode::Sub => seq![],
            },
            (Phase::Writing, EventView::Stored) => seq![EffectView::Fetch { key: TEST_KEY@ }],
            (Phase::Reading, EventView::Fetched(value)) => if value == TEST_VALUE@ {
                seq![EffectView::Print(got_value_line(value)), EffectView::Exit(EXIT_SUCCESS)]
            } else {
                seq![EffectView::Print(got_value_line(value))] + failure_effects(
                    FailureView::ValueMismatch,
                )
            },
            (Phase::Announcing, EventView::Published) => seq![
                EffectView::Print(announced_line()),
                EffectView::Exit(EXIT_SUCCESS),
            ],
            (Phase::Attaching, EventView::SubscriptionOpened) => seq![
                EffectView::Subscribe { channel: CHANNEL@ },
            ],
            (Phase::Subscribing, EventView::Subscribed) => if self.publisher is Planned {
                seq![EffectView::Connect]
            } else {
                seq![EffectView::StartTimeout, EffectView::Print(listening_line())]
            },
            (Phase::Preparing, EventView::Connected) => if self.publisher is Planned {
                seq![
                    EffectView::StartTimeout,
                    EffectView::StartPublishDelay,
                    EffectView::Print(listening_line()),
                ]
            } else {
                seq![EffectView::StartTimeout, EffectView::Print(listening_line())]
            },
            (Phase::Listening, EventView::Message(payload)) => seq![
                EffectView::Print(received_line(payload)),
            ],
            (Phase::Listening, EventView::StreamClosed) => seq![
                EffectView::Print(closed_line()),
                EffectView::Exit(EXIT_SUCCESS),
            ],
            (Phase::Listening, EventView::TimeoutElapsed) => if self.publish_pending() {
                seq![
                    EffectView::Print(abandoned_line()),
                    EffectView::Print(timeout_line()),
                    EffectView::Exit(EXIT_SUCCESS),
                ]
            } else {
                seq![EffectView::Print(timeout_line()), EffectView::Exit(EXIT_SUCCESS)]
            },
            (Phase::Listening, EventView::DelayElapsed) => if self.publisher is Waiting {
                seq![
                    EffectView::Print(publishing_line()),
                    EffectView::Publish { channel: CHANNEL@, payload: follow_up() },
                ]
            } else {
                seq![]
            },
            (Phase::Listening, EventView::Published) => if self.publisher is Sending {
                seq![EffectView::Print(published_line())]
            } else {
                seq![]
            },
            (phase, EventView::BackendFailed(text)) => if awaits_backend(phase) {
                failure_effects(FailureView::Backend(text))
            } else {
                seq![]
            },
            (_, _) => seq![],
        }
    }

    /// Whether the effects of `event` show the time: only the publisher's
    /// announcement does.
    pub open spec fn reads_clock(self, event: EventView) -> bool {
        self.phase is Connecting && self.mode is Pub && event is Connected
    }
}

/// The effect that prints `line`.
fn print(line: &str) -> (effect: Effect)
    ensures
        effect@ == EffectView::Print(line@),
{
    Effect::Print(String::from_str(line))
}

/// The list that holds one effect.
fn one(first: Effect) -> (effects: Vec<Effect>)
    ensures
        effect_views(effects@) == seq![first@],
{
    let mut effects: Vec<Effect> = Vec::new();
    effects.push(first);
    assert(effect_views(effects@) =~= seq![first@]);
    effects
}

/// The list that holds two effects.
fn two(first: Effect, second: Effect) -> (effects: Vec<Effect>)
    ensures
        effect_views(effects@) == seq![first@, second@],
{
    let mut effects: Vec<Effect> = Vec::new();
    effects.push(first);
    effects.push(second);
    assert(effect_views(effects@) =~= seq![first@, second@]);
    effects
}

/// The list that holds three effects.
fn three(first: Effect, second: Effect, third: Effect) -> (effects: Vec<Effect>)
    ensures
        effect_views(effects@) == seq![first@, second@, third@],
{
    let mut effects: Vec<Effect> = Vec::new();
    effects.push(first);
    effects.push(second);
    effects.push(third);
    assert(effect_views(effects@) =~= seq![first@, second@, third@]);
    effects
}

/// The list that holds no effect.
fn nothing() -> (effects: Vec<Effect>)
    ensures
        effect_views(effects@) == Seq::<EffectView>::empty(),
{
    let effects: Vec<Effect> = Vec::new();
    assert(effect_views(effects@) =~= Seq::<EffectView>::empty());
    effects
}

/// The verdict of the self-test on the value that it read back: the round
/// trip holds exactly when that value is, character for character, the one
/// that was written.
pub fn check_round_trip(value: &str) -> (verdict: Result<(), Failure>)
    ensures
        verdict == if value@ == TEST_VALUE@ {
            Ok::<(), Failure>(())
        } else {
            Err::<(), Failure>(Failure::ValueMismatch)
        },
{
    if same_text(value, TEST_VALUE) {
        Ok(())
    } else {
        Err(Failure::ValueMismatch)
    }
}

/// What the driver must do when `failure` ends the invocation: print the
/// line that reports it, then leave with exit status one.
pub fn report_failure(failure: &Failure) -> (effects: Vec<Effect>)
    ensures
        effect_views(effects@) == failure_effects(failure@),
{
    two(Effect::Print(failure.report_line()), Effect::Exit(EXIT_FAILURE))
}

impl Phase {
    /// Whether the session waits for the answer to a backend call whose
    /// failure would end the invocation.
    pub fn awaits_backend(self) -> (awaits: bool)
        ensures
            awaits == awaits_backend(self),
    {
        match self {
            Phase::Connecting
            | Phase::Writing
            | Phase::Reading
            | Phase::Announcing
            | Phase::Attaching
            | Phase::Subscribing
            | Phase::Preparing => true,
            Phase::Listening | Phase::Succeeded | Phase::Failed => false,
        }
    }
}

impl Session {
    /// Begins an invocation of `mode`: the initial state, and the request
    /// for the connection that the mode starts with. `delayed_publish` says
    /// whether a follow-up publish was asked for; only a subscriber heeds it.
    pub fn start(mode: Mode, delayed_publish: bool) -> (started: (Session, Vec<Effect>))
        ensures
            started.0 == Session::initial(mode, delayed_publish),
            started.0.wf(),
            !started.0.finished(),
            effect_views(started.1@) == opening_effects(mode),
    {
        match mode {
            Mode::Sub => {
                let publisher = if delayed_publish {
                    Publisher::Planned
                } else {
                    Publisher::Absent
                };
                let session = Session {
                    mode,
                    phase: Phase::Attaching,
                    publisher,
                    cancelled: false,
                };
                (session, one(Effect::OpenSubscription))
            },
            _ => {
                let session = Session {
                    mode,
                    phase: Phase::Connecting,
                    publisher: Publisher::Absent,
                    cancelled: false,
                };
                (session, one(Effect::Connect))
            },
        }
    }

    /// Whether the invocation is over.
    pub fn is_finished(&self) -> (finished: bool)
        ensures
            finished == self.finished(),
    {
        match self.phase {
            Phase::Succeeded | Phase::Failed => true,
            _ => false,
        }
    }

    /// The exit status, once the invocation is over: zero after success,
    /// one after a failure.
    pub fn exit_code(&self) -> (code: Option<u8>)
        ensures
            code == if self.finished() {
                Some(self.status())
            } else {
                None
            },
    {
        match self.phase {
            Phase::Succeeded => Some(EXIT_SUCCESS),
            Phase::Failed => Some(EXIT_FAILURE),
            _ => None,
        }
    }

    /// Whether the listening ended because the time was up, rather than
    /// because the backend closed the stream.
    pub fn timed_out(&self) -> (timed_out: bool)
        ensures
            timed_out == self.cancelled,
    {
        self.cancelled
    }

    /// Whether answering `event` takes a look at the clock.
    pub fn wants_clock(&self, event: &Event) -> (wants: bool)
        ensures
            wants == self.reads_clock(event@),
    {
        match (self.phase, self.mode, event) {
            (Phase::Connecting, Mode::Pub, Event::Connected) => true,
            _ => false,
        }
    }

    /// The state after `event`.
    fn successor(self, event: &Event) -> (next: Session)
        ensures
            next == self.next(event@),
    {
        let phase = match event {
            Event::Connected => match self.phase {
                Phase::Connecting => match self.mode {
                    Mode::Check => Phase::Succeeded,
                    Mode::Test => Phase::Writing,
                    Mode::Pub => Phase::Announcing,
                    Mode::Sub => Phase::Connecting,
                },
                Phase::Preparing => Phase::Listening,
                other => other,
            },
            Event::SubscriptionOpened => match self.phase {
                Phase::Attaching => Phase::Subscribing,
                other => other,
            },
            Event::Subscribed => match self.phase {
                Phase::Subscribing => match self.publisher {
                    Publisher::Planned => Phase::Preparing,
                    _ => Phase::Listening,
                },
                other => other,
            },
            Event::Stored => match self.phase {
                Phase::Writing => Phase::Reading,
                other => other,
            },
            Event::Fetched(value) => match self.phase {
                Phase::Reading => match check_round_trip(value.as_str()) {
                    Ok(_) => Phase::Succeeded,
                    Err(_) => Phase::Failed,
                },
                other => other,
            },
            Event::Published => match self.phase {
                Phase::Announcing => Phase::Succeeded,
                other => other,
            },
            Event::BackendFailed(_) => if self.phase.awaits_backend() {
                Phase::Failed
            } else {
                self.phase
            },
            Event::Message(_) => self.phase,
            Event::StreamClosed | Event::TimeoutElapsed => match self.phase {
                Phase::Listening => Phase::Succeeded,
                other => other,
            },
            Event::DelayElapsed => self.phase,
        };
        let publisher = match (self.phase, self.publisher, event) {
            (Phase::Preparing, Publisher::Planned, Event::Connected) => Publisher::Waiting,
            (Phase::Listening, Publisher::Waiting, Event::DelayElapsed) => Publisher::Sending,
            (Phase::Listening, Publisher::Sending, Event::Published) => Publisher::Done,
            (Phase::Listening, Publisher::Sending, Event::BackendFailed(_)) => Publisher::Failed,
            (Phase::Listening, Publisher::Waiting, Event::TimeoutElapsed) => Publisher::Cancelled,
            (Phase::Listening, Publisher::Sending, Event::TimeoutElapsed) => Publisher::Cancelled,
            (_, publisher, _) => publisher,
        };
        let cancelled = match (self.phase, event) {
            (Phase::Listening, Event::TimeoutElapsed) => true,
            _ => self.cancelled,
        };
        Session { mode: self.mode, phase, publisher, cancelled }
    }

    /// What the driver must do in answer to `event`, with `now` as the time.
    fn react(self, event: Event, now: &str) -> (effects: Vec<Effect>)
        ensures
            effect_views(effects@) == self.effects(event@, now@),
    {
        match event {
            Event::Connected => match self.phase {
                Phase::Connecting => match self.mode {
                    Mode::Check => two(print("Redis is available."), Effect::Exit(EXIT_SUCCESS)),
                    Mode::Test => one(
                        Effect::Store {
                            key: String::from_str(TEST_KEY),
                            value: String::from_str(TEST_VALUE),
                        },
                    ),
                    Mode::Pub => one(
                        Effect::Publish {
                            channel: String::from_str(CHANNEL),
                            payload: announce_at(now),
                        },
                    ),
                    Mode::Sub => nothing(),
                },
                Phase::Preparing => {
                    let listening = print("listening to messages on `redis_channel`");
                    match self.publisher {
                        Publisher::Planned => three(
                            Effect::StartTimeout,
                            Effect::StartPublishDelay,
                            listening,
                        ),
                        _ => two(Effect::StartTimeout, listening),
                    }
                },
                _ => nothing(),
            },
            Event::SubscriptionOpened => match self.phase {
                Phase::Attaching => one(Effect::Subscribe { channel: String::from_str(CHANNEL) }),
                _ => nothing(),
            },
            Event::Subscribed => match self.phase {
                Phase::Subscribing => match self.publisher {
                    Publisher::Planned => one(Effect::Connect),
                    _ => two(
                        Effect::StartTimeout,
                        print("listening to messages on `redis_channel`"),
                    ),
                },
                _ => nothing(),
            },
            Event::Stored => match self.phase {
                Phase::Writing => one(Effect::Fetch { key: String::from_str(TEST_KEY) }),
                _ => nothing(),
            },
            Event::Fetched(value) => match self.phase {
                Phase::Reading => {
                    let shown = Effect::Print(got_value(value.as_str()));
                    match check_round_trip(value.as_str()) {
                        Ok(_) => two(shown, Effect::Exit(EXIT_SUCCESS)),
                        Err(mismatch) => {
                            let effects = three(
                                shown,
                                Effect::Print(mismatch.report_line()),
                                Effect::Exit(EXIT_FAILURE),
                            );
                            assert(effect_views(effects@) =~= seq![shown@] + failure_effects(
                                mismatch@,
                            ));
                            effects
                        },
                    }
                },
                _ => nothing(),
            },
            Event::Published => match self.phase {
                Phase::Announcing => two(
                    print("Published a message to `redis_channel`."),
                    Effect::Exit(EXIT_SUCCESS),
                ),
                Phase::Listening => match self.publisher {
                    Publisher::Sending => one(
                        print("publishing from rust from a separate green thread finished"),
                    ),
                    _ => nothing(),
                },
                _ => nothing(),
            },
            Event::BackendFailed(text) => if self.phase.awaits_backend() {
                report_failure(&Failure::Backend(text))
            } else {
                nothing()
            },
            Event::Message(payload) => match self.phase {
                Phase::Listening => one(Effect::Print(received(payload.as_str()))),
                _ => nothing(),
            },
            Event::StreamClosed => match self.phase {
                Phase::Listening => two(
                    print("terminating because the pubsub channel is closed"),
                    Effect::Exit(EXIT_SUCCESS),
                ),
                _ => nothing(),
            },
            Event::TimeoutElapsed => match self.phase {
                Phase::Listening => {
                    let leaving = print("terminating by timeout");
                    match self.publisher {
                        Publisher::Waiting | Publisher::Sending => three(
                            print("terminating publishing task by cancellationtoken"),
                            leaving,
                            Effect::Exit(EXIT_SUCCESS),
                        ),
                        _ => two(leaving, Effect::Exit(EXIT_SUCCESS)),
                    }
                },
                _ => nothing(),
            },
            Event::DelayElapsed => match (self.phase, self.publisher) {
                (Phase::Listening, Publisher::Waiting) => two(
                    print("publishing from rust from a separate green thread"),
                    Effect::Publish {
                        channel: String::from_str(CHANNEL),
                        payload: String::from_str("published from rust after a delay"),
                    },
                ),
                _ => nothing(),
            },
        }
    }

    /// Hears of `event` at the time `now` and answers with what to do.
    ///
    /// The session moves to [`Session::next`] and the answer is
    /// [`Session::effects`], in that order. An event that the current state
    /// does not expect changes nothing and asks for nothing.
    pub fn step_at(&mut self, event: Event, now: &str) -> (effects: Vec<Effect>)
        ensures
            *final(self) == old(self).next(event@),
            effect_views(effects@) == old(self).effects(event@, now@),
            old(self).wf() ==> final(self).wf(),
    {
        let before = *self;
        *self = before.successor(&event);
        before.react(event, now)
    }

    /// Hears of `event` and answers with what to do, reading the local clock
    /// where the answer shows the time.
    ///
    /// The new state is [`Session::next`]. The answer is
    /// [`Session::effects`] for the moment of the call, which is some
    /// timestamp and never the empty text; where the answer does not show
    /// the time, that is one fixed list. A step that reads the clock shares
    /// its limits: see [`local_time_text`].
    pub fn step(&mut self, event: Event) -> (effects: Vec<Effect>)
        ensures
            *final(self) == old(self).next(event@),
            exists|now: Seq<char>|
                now.len() > 0 && effect_views(effects@) == old(self).effects(event@, now),
            !old(self).reads_clock(event@) ==> effect_views(effects@) == old(self).effects(
                event@,
                Seq::<char>::empty(),
            ),
            old(self).wf() ==> final(self).wf(),
    {
        if self.wants_clock(&event) {
            let now = local_time_text();
            self.step_at(event, now.as_str())
        } else {
            let ghost before = *self;
            let ghost heard = event@;
            proof {
                reveal_strlit("");
                assert(""@ =~= Seq::<char>::empty());
            }
            let effects = self.step_at(event, "");
            proof {
                // Nothing here shows the time, so any moment will do.
                let any = seq!['-'];
                assert(any.len() > 0);
                assert(before.effects(heard, any) == before.effects(heard, Seq::<char>::empty()));
            }
            effects
        }
    }
}

} // verus!
