//! From the command line's values to a running session.

use vstd::prelude::*;

use crate::backend::{client_opened, open_backend};
use crate::failure::{Failure, FailureView};
use crate::mode::{mode_named, parse_mode, Mode};
use crate::session::{
    effect_views, failure_effects, opening_effects, report_failure, Effect, Session,
};

verus! {

/// How an invocation begins.
pub enum Launch {
    /// A session is under way. The driver opens its connections from
    /// `client` and begins with `effects`.
    Started { session: Session, client: redis::Client, effects: Vec<Effect> },
    /// Nothing was started. The driver performs `effects`, which report
    /// `failure` and leave.
    Refused { failure: Failure, effects: Vec<Effect> },
}

impl Launch {
    /// A session of `mode` was started in its initial state, and the driver
    /// is asked for the connection that the mode begins with.
    pub open spec fn starts(self, mode: Mode, delayed_publish: bool) -> bool {
        &&& self matches Launch::Started { session, effects, .. }
        &&& session == Session::initial(mode, delayed_publish)
        &&& effect_views(effects@) == opening_effects(mode)
    }

    /// Nothing was started, because of `failure`, and the driver is asked to
    /// report it and leave with exit status one.
    pub open spec fn refuses(self, failure: FailureView) -> bool {
        &&& self matches Launch::Refused { failure: given, effects }
        &&& given@ == failure
        &&& effect_views(effects@) == failure_effects(failure)
    }
}

/// Turns `failure` into a refusal.
pub fn refuse(failure: Failure) -> (launch: Launch)
    ensures
        launch.refuses(failure@),
{
    let effects = report_failure(&failure);
    Launch::Refused { failure, effects }
}

/// Begins an invocation of `mode`, given the outcome of opening a client:
/// with a client a session starts, and without one the failure is final.
pub fn commence(
    mode: Mode,
    opened: Result<redis::Client, Failure>,
    delayed_publish: bool,
) -> (launch: Launch)
    ensures
        match opened {
            Ok(client) => launch.starts(mode, delayed_publish) && launch->client == client,
            Err(failure) => launch.refuses(failure@),
        },
{
    match opened {
        Ok(client) => {
            let (session, effects) = Session::start(mode, delayed_publish);
            Launch::Started { session, client, effects }
        },
        Err(failure) => refuse(failure),
    }
}

/// Begins an invocation from the values of the command line: the name of
/// the mode, the backend's URI, and whether a delayed publish was asked for.
///
/// A name that selects no mode is refused before the URI is even looked at.
/// Otherwise the client library parses the URI, still without any I/O: if
/// it accepts it a session starts with the client for that URI, and if not
/// the text of its error is the failure.
pub fn dispatch(mode_name: &str, uri: &str, delayed_publish: bool) -> (launch: Launch)
    ensures
        match mode_named(mode_name@) {
            None => launch.refuses(FailureView::UnsupportedMode),
            Some(mode) => match client_opened(uri@) {
                Ok(client) => launch.starts(mode, delayed_publish) && launch->client == client,
                Err(text) => launch.refuses(FailureView::Backend(text)),
            },
        },
{
    match parse_mode(mode_name) {
        Err(failure) => refuse(failure),
        Ok(mode) => commence(mode, open_backend(uri), delayed_publish),
    }
}

} // verus!
