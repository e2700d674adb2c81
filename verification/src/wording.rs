//! What the tool writes: the lines on standard output and the payloads it
//! publishes.

use vstd::prelude::*;
use vstd::string::*;

use crate::clock::local_time_text;
use crate::text::{join, lemma_starts_with_prefix, starts_with};

verus! {

/// Printed by the connectivity check once the backend has answered.
pub open spec fn available_line() -> Seq<char> {
    "Redis is available."@
}

/// Printed by the self-test: the value that was read back.
pub open spec fn got_value_line(value: Seq<char>) -> Seq<char> {
    "Got value: "@ + value
}

/// Printed by the publisher once the backend has taken its message.
pub open spec fn announced_line() -> Seq<char> {
    "Published a message to `redis_channel`."@
}

/// Printed by the subscriber when listening begins.
pub open spec fn listening_line() -> Seq<char> {
    "listening to messages on `redis_channel`"@
}

/// Printed by the subscriber for each payload that arrives.
pub open spec fn received_line(payload: Seq<char>) -> Seq<char> {
    ">> "@ + payload
}

/// Printed by the subscriber when the backend ends the subscription.
pub open spec fn closed_line() -> Seq<char> {
    "terminating because the pubsub channel is closed"@
}

/// Printed by the subscriber when its time is up.
pub open spec fn timeout_line() -> Seq<char> {
    "terminating by timeout"@
}

/// Printed when the delayed publish is about to be sent.
pub open spec fn publishing_line() -> Seq<char> {
    "publishing from rust from a separate green thread"@
}

/// Printed when the delayed publish has been sent.
pub open spec fn published_line() -> Seq<char> {
    "publishing from rust from a separate green thread finished"@
}

/// Printed when the timeout overtakes the delayed publish.
pub open spec fn abandoned_line() -> Seq<char> {
    "terminating publishing task by cancellationtoken"@
}

/// What stands before the timestamp in a published announcement.
pub open spec fn announcement_prefix() -> Seq<char> {
    "published from rust at "@
}

/// The payload that the publisher sends at the time `stamp`.
pub open spec fn announcement(stamp: Seq<char>) -> Seq<char> {
    announcement_prefix() + stamp
}

/// The payload of the subscriber's delayed publish.
pub open spec fn follow_up() -> Seq<char> {
    "published from rust after a delay"@
}

/// The line that reports the value read back by the self-test.
pub fn got_value(value: &str) -> (line: String)
    ensures
        line@ == got_value_line(value@),
{
    join("Got value: ", value)
}

/// The line that shows a received payload: the payload itself, unchanged,
/// behind the marker `>> `.
pub fn received(payload: &str) -> (line: String)
    ensures
        line@ == received_line(payload@),
{
    join(">> ", payload)
}

/// The announcement for the time `stamp`.
pub fn announce_at(stamp: &str) -> (payload: String)
    ensures
        payload@ == announcement(stamp@),
{
    join("published from rust at ", stamp)
}

/// The announcement for the present moment, by the local clock.
///
/// Which moment that is cannot be said in advance; whatever it is, the
/// payload is the announcement for it, and shows a timestamp behind the
/// fixed words. Shares the clock's limits: see [`local_time_text`].
pub fn announce_now() -> (payload: String)
    ensures
        exists|stamp: Seq<char>| stamp.len() > 0 && payload@ == announcement(stamp),
        starts_with(payload@, announcement_prefix()),
        payload@.len() > announcement_prefix().len(),
{
    let stamp = local_time_text();
    let payload = announce_at(stamp.as_str());
    proof {
        lemma_starts_with_prefix(announcement_prefix(), stamp@);
    }
    payload
}

} // verus!
